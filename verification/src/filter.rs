//! The filter resolver: given the folder list and a policy, decide for each
//! item — by its folder reference alone — whether it contributes rows.

use vstd::prelude::*;

use crate::model::{Folder, opt_view};
use crate::pattern::{pattern_match, pattern_matches, pattern_valid};

verus! {

/// The filtering policy. Each field is independent and optional: an absent
/// include filter includes everything, an absent exclude filter excludes
/// nothing. An item is included iff it passes every configured include
/// filter and no configured exclude filter hits it (deny wins).
#[derive(Debug, Clone)]
pub struct Policy {
    /// Include only items of the folder with exactly this name.
    pub include_name: Option<String>,
    /// Exclude items of the folder with exactly this name.
    pub exclude_name: Option<String>,
    /// Include only items whose resolved folder name matches this pattern.
    pub include_pattern: Option<String>,
    /// Exclude items whose resolved folder name matches this pattern.
    pub exclude_pattern: Option<String>,
}

/// The id of the first folder carrying exactly this name, if any.
pub open spec fn spec_find_folder_id(folders: Seq<Folder>, name: Seq<char>) -> Option<Seq<char>>
    decreases folders.len(),
{
    if folders.len() == 0 {
        Option::None
    } else if folders[0].name@ == name {
        Option::Some(folders[0].id@)
    } else {
        spec_find_folder_id(folders.skip(1), name)
    }
}

/// The name of the first folder carrying exactly this id, if any.
pub open spec fn spec_folder_name_by_id(folders: Seq<Folder>, id: Seq<char>) -> Option<Seq<char>>
    decreases folders.len(),
{
    if folders.len() == 0 {
        Option::None
    } else if folders[0].id@ == id {
        Option::Some(folders[0].name@)
    } else {
        spec_folder_name_by_id(folders.skip(1), id)
    }
}

/// The folder name an item resolves to: the name of the folder its reference
/// points at, and the empty name when the item has no folder reference or
/// the reference points at no known folder.
pub open spec fn spec_resolved_name(folders: Seq<Folder>, fid: Option<Seq<char>>) -> Seq<char> {
    match fid {
        Option::Some(id) => match spec_folder_name_by_id(folders, id) {
            Option::Some(n) => n,
            Option::None => Seq::empty(),
        },
        Option::None => Seq::empty(),
    }
}

/// Whether the exact-name include filter lets an item through: always when
/// none is configured; otherwise only when the configured name resolves to a
/// folder id and the item carries exactly that id. A configured name that
/// matches no folder lets nothing through.
pub open spec fn spec_name_allows(
    folders: Seq<Folder>,
    include_name: Option<Seq<char>>,
    fid: Option<Seq<char>>,
) -> bool {
    match include_name {
        Option::None => true,
        Option::Some(n) => match spec_find_folder_id(folders, n) {
            Option::Some(id) => fid == Option::Some(id),
            Option::None => false,
        },
    }
}

/// Whether the exact-name exclude filter hits an item: never when none is
/// configured or the configured name matches no folder; otherwise exactly
/// when the item carries the resolved folder id.
pub open spec fn spec_name_denies(
    folders: Seq<Folder>,
    exclude_name: Option<Seq<char>>,
    fid: Option<Seq<char>>,
) -> bool {
    match exclude_name {
        Option::None => false,
        Option::Some(n) => match spec_find_folder_id(folders, n) {
            Option::Some(id) => fid == Option::Some(id),
            Option::None => false,
        },
    }
}

/// Whether the pattern include filter lets an item through: always when none
/// is configured, else exactly when the pattern matches the resolved folder
/// name (the empty name for an unassigned or unresolvable folder reference).
pub open spec fn spec_pattern_allows(
    folders: Seq<Folder>,
    include_pattern: Option<Seq<char>>,
    fid: Option<Seq<char>>,
) -> bool {
    match include_pattern {
        Option::None => true,
        Option::Some(p) => pattern_matches(p, spec_resolved_name(folders, fid)),
    }
}

/// Whether the pattern exclude filter hits an item: never when none is
/// configured, else exactly when the pattern matches the resolved folder name.
pub open spec fn spec_pattern_denies(
    folders: Seq<Folder>,
    exclude_pattern: Option<Seq<char>>,
    fid: Option<Seq<char>>,
) -> bool {
    match exclude_pattern {
        Option::None => false,
        Option::Some(p) => pattern_matches(p, spec_resolved_name(folders, fid)),
    }
}

/// Whether every configured include filter lets the item through.
pub open spec fn spec_allowed(folders: Seq<Folder>, pol: Policy, fid: Option<Seq<char>>) -> bool {
    spec_name_allows(folders, opt_view(pol.include_name), fid)
        && spec_pattern_allows(folders, opt_view(pol.include_pattern), fid)
}

/// Whether some configured exclude filter hits the item.
pub open spec fn spec_denied(folders: Seq<Folder>, pol: Policy, fid: Option<Seq<char>>) -> bool {
    spec_name_denies(folders, opt_view(pol.exclude_name), fid)
        || spec_pattern_denies(folders, opt_view(pol.exclude_pattern), fid)
}

/// The combined decision: included iff allowed and not denied.
pub open spec fn spec_included(folders: Seq<Folder>, pol: Policy, fid: Option<Seq<char>>) -> bool {
    spec_allowed(folders, pol, fid) && !spec_denied(folders, pol, fid)
}

/// Whether an optional configured pattern is absent or a valid regular
/// expression.
pub open spec fn pattern_opt_valid(p: Option<Seq<char>>) -> bool {
    match p {
        Option::None => true,
        Option::Some(s) => pattern_valid(s),
    }
}

/// Whether every pattern the policy configures is a valid regular expression.
pub open spec fn spec_policy_valid(pol: Policy) -> bool {
    pattern_opt_valid(opt_view(pol.include_pattern)) && pattern_opt_valid(
        opt_view(pol.exclude_pattern),
    )
}

/// Find the id of the first folder whose name equals `name` exactly.
pub fn find_folder_id_by_name(folders: &[Folder], name: &str) -> (r: Option<String>)
    ensures
        opt_view(r) == spec_find_folder_id(folders@, name@),
{
    let needle: String = name.to_owned();
    let n = folders.len();
    let mut i: usize = 0;
    proof {
        assert(folders@.skip(0) =~= folders@);
    }
    while i < n
        invariant
            needle@ == name@,
            n == folders@.len(),
            i <= n,
            spec_find_folder_id(folders@, name@) == spec_find_folder_id(
                folders@.skip(i as int),
                name@,
            ),
        decreases n - i,
    {
        let f = vstd::slice::slice_index_get(folders, i);
        proof {
            assert(folders@.skip(i as int)[0] == folders@[i as int]);
            assert(folders@.skip(i as int).skip(1) =~= folders@.skip(i + 1));
        }
        if f.name == needle {
            return Option::Some(f.id.clone());
        }
        i += 1;
    }
    Option::None
}

/// Find the name of the first folder whose id equals `id` exactly.
pub fn folder_name_by_id(folders: &[Folder], id: &str) -> (r: Option<String>)
    ensures
        opt_view(r) == spec_folder_name_by_id(folders@, id@),
{
    let needle: String = id.to_owned();
    let n = folders.len();
    let mut i: usize = 0;
    proof {
        assert(folders@.skip(0) =~= folders@);
    }
    while i < n
        invariant
            needle@ == id@,
            n == folders@.len(),
            i <= n,
            spec_folder_name_by_id(folders@, id@) == spec_folder_name_by_id(
                folders@.skip(i as int),
                id@,
            ),
        decreases n - i,
    {
        let f = vstd::slice::slice_index_get(folders, i);
        proof {
            assert(folders@.skip(i as int)[0] == folders@[i as int]);
            assert(folders@.skip(i as int).skip(1) =~= folders@.skip(i + 1));
        }
        if f.id == needle {
            return Option::Some(f.name.clone());
        }
        i += 1;
    }
    Option::None
}

/// Resolve the folder name an item is judged by: the name of the referenced
/// folder, or the empty name when the reference is absent or dangling.
pub fn resolve_folder_name(folders: &[Folder], fid: &Option<String>) -> (r: String)
    ensures
        r@ == spec_resolved_name(folders@, opt_view(*fid)),
{
    match fid {
        Option::Some(id) => match folder_name_by_id(folders, id.as_str()) {
            Option::Some(n) => n,
            Option::None => String::new(),
        },
        Option::None => String::new(),
    }
}

/// The filter decision for one item, by its folder reference alone: included
/// iff every configured include filter lets it through and no configured
/// exclude filter hits it.
pub fn item_included(folders: &[Folder], pol: &Policy, fid: &Option<String>) -> (r: bool)
    requires
        spec_policy_valid(*pol),
    ensures
        r == spec_included(folders@, *pol, opt_view(*fid)),
{
    let allow_name: bool = match &pol.include_name {
        Option::Some(n) => match find_folder_id_by_name(folders, n.as_str()) {
            Option::Some(id) => match fid {
                Option::Some(f) => *f == id,
                Option::None => false,
            },
            Option::None => false,
        },
        Option::None => true,
    };
    let deny_name: bool = match &pol.exclude_name {
        Option::Some(n) => match find_folder_id_by_name(folders, n.as_str()) {
            Option::Some(id) => match fid {
                Option::Some(f) => *f == id,
                Option::None => false,
            },
            Option::None => false,
        },
        Option::None => false,
    };
    let need_name = pol.include_pattern.is_some() || pol.exclude_pattern.is_some();
    let resolved: String = if need_name {
        resolve_folder_name(folders, fid)
    } else {
        String::new()
    };
    let allow_pat: bool = match &pol.include_pattern {
        Option::Some(p) => pattern_match(p.as_str(), resolved.as_str()),
        Option::None => true,
    };
    let deny_pat: bool = match &pol.exclude_pattern {
        Option::Some(p) => pattern_match(p.as_str(), resolved.as_str()),
        Option::None => false,
    };
    allow_name && allow_pat && !deny_name && !deny_pat
}

} // verus!
