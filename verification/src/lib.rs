use vstd::prelude::*;

pub mod listing;
pub mod model;
pub mod store;

verus! {

/// The ways a store operation can fail: inserting under a name already
/// taken, looking up a name that is not present, or a failure of the
/// backing database itself.
#[derive(Clone, Copy, Debug, PartialEq, Eq, Structural)]
pub enum StoreError {
    DuplicateName,
    NotFound,
    StorageFailure,
}

/// One stored credential, as a command handler sees it: the system-assigned
/// row id, the unique name, the category (empty string when it has none),
/// and the free-form username and password.
#[derive(Debug)]
pub struct Credential {
    pub id: i64,
    pub name: String,
    pub category: String,
    pub username: String,
    pub password: String,
}

impl Credential {
    /// The field the copy command transfers: the username when `username`
    /// is set, else the password.
    pub fn selected_secret(&self, username: bool) -> (r: &String)
        ensures
            r@ == if username {
                self.username@
            } else {
                self.password@
            },
    {
        if username {
            &self.username
        } else {
            &self.password
        }
    }
}

/// A credential either carries a category string or none; an absent
/// category is stored as the empty string.
pub fn category_or_empty(category: Option<String>) -> (r: String)
    ensures
        match category {
            Some(c) => r@ == c@,
            None => r@ == Seq::<char>::empty(),
        },
{
    match category {
        Some(c) => c,
        None => String::new(),
    }
}

} // verus!
