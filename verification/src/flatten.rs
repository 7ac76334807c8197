//! The flattening emitter: walk the items in order, keep those the policy
//! includes, and expand each kept login into one row per uri.

use vstd::prelude::*;

use crate::filter::{
    Policy, item_included, pattern_opt_valid, spec_denied, spec_folder_name_by_id, spec_included,
    spec_policy_valid, spec_resolved_name,
};
use crate::model::{Export, Folder, Item, Row, RowData, item_rows, login_rows, opt_view};
use crate::pattern::{pattern_check, pattern_matches};

verus! {

/// Why a conversion was refused before any row was produced.
#[derive(Debug, Clone, Copy, PartialEq, Eq, Structural)]
pub enum PolicyError {
    /// The configured include pattern is not a valid regular expression.
    InvalidIncludePattern,
    /// The configured exclude pattern is not a valid regular expression.
    InvalidExcludePattern,
}

/// The rows the given item contributes under the given policy.
pub open spec fn spec_item_rows(folders: Seq<Folder>, pol: Policy, it: Item) -> Seq<RowData> {
    item_rows(it, spec_included(folders, pol, opt_view(it.folder_id)))
}

/// The rows of a whole item sequence, in item order and, within an item, in
/// uri order.
pub open spec fn spec_rows(folders: Seq<Folder>, pol: Policy, items: Seq<Item>) -> Seq<RowData>
    decreases items.len(),
{
    if items.len() == 0 {
        Seq::empty()
    } else {
        spec_rows(folders, pol, items.drop_last()) + spec_item_rows(folders, pol, items.last())
    }
}

/// Convert an export under a policy: refuse an invalid pattern before any
/// row is produced, else return every row of every included item, in item
/// order and uri order, with usernames and passwords passed through
/// unchanged.
pub fn convert(export: &Export, pol: &Policy) -> (r: Result<Vec<Row>, PolicyError>)
    ensures
        r is Ok <==> spec_policy_valid(*pol),
        r matches Ok(rows) ==> rows@.map_values(|row: Row| row@) == spec_rows(
            export.folders@,
            *pol,
            export.items@,
        ),
        r matches Err(e) ==> (e is InvalidIncludePattern <==> !pattern_opt_valid(
            opt_view(pol.include_pattern),
        )),
        r matches Err(e) ==> (e is InvalidExcludePattern <==> pattern_opt_valid(
            opt_view(pol.include_pattern),
        ) && !pattern_opt_valid(opt_view(pol.exclude_pattern))),
{
    if let Option::Some(p) = &pol.include_pattern {
        if !pattern_check(p.as_str()) {
            return Result::Err(PolicyError::InvalidIncludePattern);
        }
    }
    if let Option::Some(p) = &pol.exclude_pattern {
        if !pattern_check(p.as_str()) {
            return Result::Err(PolicyError::InvalidExcludePattern);
        }
    }
    let ghost gfolders = export.folders@;
    let ghost gitems = export.items@;
    let mut rows: Vec<Row> = Vec::new();
    proof {
        assert(gitems.take(0) =~= Seq::<Item>::empty());
        assert(rows@.map_values(|row: Row| row@) =~= Seq::<RowData>::empty());
    }
    let n = export.items.len();
    let mut i: usize = 0;
    while i < n
        invariant
            spec_policy_valid(*pol),
            gfolders == export.folders@,
            gitems == export.items@,
            n == gitems.len(),
            i <= n,
            rows@.map_values(|row: Row| row@) == spec_rows(gfolders, *pol, gitems.take(i as int)),
        decreases n - i,
    {
        let it = &export.items[i];
        let included = item_included(export.folders.as_slice(), pol, &it.folder_id);
        if included {
            if let Option::Some(l) = &it.login {
                let m = l.uris.len();
                let mut j: usize = 0;
                proof {
                    assert(login_rows(*l).take(0) =~= Seq::<RowData>::empty());
                    assert(rows@.map_values(|row: Row| row@) + login_rows(*l).take(0) =~= rows
                        @.map_values(|row: Row| row@));
                }
                let ghost rows_before = rows@.map_values(|row: Row| row@);
                while j < m
                    invariant
                        m == l.uris@.len(),
                        j <= m,
                        rows@.map_values(|row: Row| row@) == rows_before + login_rows(*l).take(
                            j as int,
                        ),
                    decreases m - j,
                {
                    let u = &l.uris[j];
                    let row = Row {
                        uri: u.uri.clone(),
                        username: l.username.clone(),
                        password: l.password.clone(),
                    };
                    proof {
                        assert(login_rows(*l)[j as int] == (u.uri@, l.username@, l.password@));
                        assert(login_rows(*l).take(j + 1) =~= login_rows(*l).take(j as int).push(
                            login_rows(*l)[j as int],
                        ));
                    }
                    let ghost rows_old = rows@;
                    rows.push(row);
                    proof {
                        assert(rows@.map_values(|row: Row| row@) =~= rows_old.map_values(
                            |row: Row| row@,
                        ).push((u.uri@, l.username@, l.password@)));
                    }
                    j += 1;
                }
                proof {
                    assert(login_rows(*l).take(m as int) =~= login_rows(*l));
                }
            }
        }
        proof {
            assert(gitems.take(i + 1).drop_last() =~= gitems.take(i as int));
            assert(gitems.take(i + 1).last() == gitems[i as int]);
            if !(included && gitems[i as int].login is Some) {
                assert(spec_item_rows(gfolders, *pol, gitems[i as int]) =~= Seq::<
                    RowData,
                >::empty());
                assert(rows@.map_values(|row: Row| row@) + Seq::<RowData>::empty() =~= rows
                    @.map_values(|row: Row| row@));
            }
        }
        i += 1;
    }
    proof {
        assert(gitems.take(n as int) =~= gitems);
    }
    Result::Ok(rows)
}

/// An item without credentials contributes no rows, whatever the policy and
/// whatever the filters decide for it.
pub proof fn lemma_no_login_no_rows(folders: Seq<Folder>, pol: Policy, it: Item)
    requires
        it.login is None,
    ensures
        spec_item_rows(folders, pol, it) == Seq::<RowData>::empty(),
{
}

/// An included item contributes exactly one row per uri of its login — zero
/// when the login lists no uri.
pub proof fn lemma_included_row_count(folders: Seq<Folder>, pol: Policy, it: Item)
    requires
        spec_included(folders, pol, opt_view(it.folder_id)),
        it.login is Some,
    ensures
        spec_item_rows(folders, pol, it).len() == it.login->0.uris@.len(),
{
}

/// Rows keep item order: the rows of a concatenation of item sequences are
/// the concatenation of their rows. Within one item, uri order is kept by
/// definition, so the whole output is stable in (item order, uri order).
pub proof fn lemma_rows_concat(folders: Seq<Folder>, pol: Policy, a: Seq<Item>, b: Seq<Item>)
    ensures
        spec_rows(folders, pol, a + b) == spec_rows(folders, pol, a) + spec_rows(folders, pol, b),
    decreases b.len(),
{
    if b.len() == 0 {
        assert(a + b =~= a);
        assert(spec_rows(folders, pol, a) + Seq::<RowData>::empty() =~= spec_rows(
            folders,
            pol,
            a,
        ));
    } else {
        lemma_rows_concat(folders, pol, a, b.drop_last());
        assert((a + b).drop_last() =~= a + b.drop_last());
        assert((a + b).last() == b.last());
        assert(spec_rows(folders, pol, a) + spec_rows(folders, pol, b.drop_last())
            + spec_item_rows(folders, pol, b.last()) =~= spec_rows(folders, pol, a) + spec_rows(
            folders,
            pol,
            b,
        ));
    }
}

/// A configured include name that matches no folder excludes every item:
/// the whole export yields zero rows.
pub proof fn lemma_unmatched_include_name(folders: Seq<Folder>, pol: Policy, items: Seq<Item>)
    requires
        pol.include_name matches Some(n) && crate::filter::spec_find_folder_id(folders, n@)
            is None,
    ensures
        spec_rows(folders, pol, items) == Seq::<RowData>::empty(),
    decreases items.len(),
{
    if items.len() > 0 {
        lemma_unmatched_include_name(folders, pol, items.drop_last());
        assert(!spec_included(folders, pol, opt_view(items.last().folder_id)));
        assert(Seq::<RowData>::empty() + Seq::<RowData>::empty() =~= Seq::<RowData>::empty());
    }
}

/// With no include filter configured, an item is included exactly when no
/// exclude filter hits it.
pub proof fn lemma_no_include_filters(folders: Seq<Folder>, pol: Policy, fid: Option<Seq<char>>)
    requires
        pol.include_name is None,
        pol.include_pattern is None,
    ensures
        spec_included(folders, pol, fid) == !spec_denied(folders, pol, fid),
{
}

/// An item whose folder reference is absent or points at no known folder
/// resolves to the empty name, so a pattern filter applies to it exactly
/// when the pattern matches the empty string.
pub proof fn lemma_unresolved_matches_empty(
    folders: Seq<Folder>,
    fid: Option<Seq<char>>,
    p: Seq<char>,
)
    requires
        match fid {
            Option::Some(id) => spec_folder_name_by_id(folders, id) is None,
            Option::None => true,
        },
    ensures
        spec_resolved_name(folders, fid) == Seq::<char>::empty(),
        pattern_matches(p, spec_resolved_name(folders, fid)) == pattern_matches(
            p,
            Seq::<char>::empty(),
        ),
{
}

/// Deny takes precedence: an item some exclude filter hits is excluded,
/// even when every include filter lets it through.
pub proof fn lemma_deny_wins(folders: Seq<Folder>, pol: Policy, fid: Option<Seq<char>>)
    requires
        spec_denied(folders, pol, fid),
    ensures
        !spec_included(folders, pol, fid),
{
}

} // verus!
