//! The data model of a password-manager export: folders, items, logins and
//! the flat output rows the converter produces.

use vstd::prelude::*;

verus! {

/// A named grouping of items, referenced from items by its id.
#[derive(Debug, Clone)]
pub struct Folder {
    pub id: String,
    pub name: String,
}

/// One address at which a login applies.
#[derive(Debug, Clone)]
pub struct Uri {
    pub uri: String,
}

/// A credential pair together with the addresses it applies to.
#[derive(Debug, Clone)]
pub struct Login {
    pub username: String,
    pub password: String,
    pub uris: Vec<Uri>,
}

/// A record of the export: it may sit in a folder and may carry credentials.
#[derive(Debug, Clone)]
pub struct Item {
    pub folder_id: Option<String>,
    pub login: Option<Login>,
}

/// The whole parsed export: every folder and every item, in input order.
#[derive(Debug, Clone)]
pub struct Export {
    pub folders: Vec<Folder>,
    pub items: Vec<Item>,
}

/// One output row: the uri, the username and the password of one login,
/// repeated once per uri of that login.
#[derive(Debug, Clone, PartialEq, Eq)]
pub struct Row {
    pub uri: String,
    pub username: String,
    pub password: String,
}

/// The mathematical content of a `Row`: the three fields as character sequences.
pub type RowData = (Seq<char>, Seq<char>, Seq<char>);

impl View for Row {
    type V = RowData;

    open spec fn view(&self) -> RowData {
        (self.uri@, self.username@, self.password@)
    }
}

/// The view of an optional string: the optional character sequence it holds.
pub open spec fn opt_view(o: Option<String>) -> Option<Seq<char>> {
    match o {
        Option::Some(s) => Option::Some(s@),
        Option::None => Option::None,
    }
}

/// The rows a login contributes once its item is included: one per uri, in
/// uri order, each carrying the login's username and password unchanged.
pub open spec fn login_rows(l: Login) -> Seq<RowData> {
    l.uris@.map_values(|u: Uri| (u.uri@, l.username@, l.password@))
}

/// The rows one item contributes, given the filter decision for it: none when
/// it is excluded or has no login, and one per uri of its login otherwise.
pub open spec fn item_rows(it: Item, included: bool) -> Seq<RowData> {
    if included {
        match it.login {
            Option::Some(l) => login_rows(l),
            Option::None => Seq::empty(),
        }
    } else {
        Seq::empty()
    }
}

} // verus!
