//! The records that the directory holds and exchanges.

use crate::database::Database;
use vstd::prelude::*;

verus! {

/// A user as contracts see it: both fields as character sequences.
pub struct UserView {
    pub id: Seq<char>,
    pub username: Seq<char>,
}

/// A stored user. The `id` is assigned once, when the user is created, and
/// is the key under which the record is found; the `username` may change.
#[derive(Debug, PartialEq, Eq)]
pub struct User {
    pub id: String,
    pub username: String,
}

impl View for User {
    type V = UserView;

    open spec fn view(&self) -> UserView {
        UserView { id: self.id@, username: self.username@ }
    }
}

impl Clone for User {
    fn clone(&self) -> (copy: Self)
        ensures
            copy@ == self@,
    {
        User { id: self.id.clone(), username: self.username.clone() }
    }
}

/// What a client sends to have a user created: the name only, the `id` is
/// assigned by the store.
#[derive(Debug, PartialEq, Eq)]
pub struct UserNoId {
    pub username: String,
}

impl View for UserNoId {
    type V = Seq<char>;

    open spec fn view(&self) -> Seq<char> {
        self.username@
    }
}

/// What every handler works on: the record store.
pub struct State {
    pub database: Database,
}

/// The views of a sequence of users, in the same order.
pub open spec fn views(users: Seq<User>) -> Seq<UserView> {
    users.map_values(|user: User| user@)
}

/// The view of a user that may be absent.
pub open spec fn optional_view(user: Option<User>) -> Option<UserView> {
    match user {
        Some(user) => Some(user@),
        None => None,
    }
}

/// Copies a list of users.
pub fn clone_users(users: &Vec<User>) -> (copy: Vec<User>)
    ensures
        views(copy@) == views(users@),
{
    let mut copy: Vec<User> = Vec::new();
    let mut i: usize = 0;
    while i < users.len()
        invariant
            i <= users.len(),
            copy.len() == i,
            forall|k: int| 0 <= k < i ==> copy[k]@ == users[k]@,
        decreases users.len() - i,
    {
        copy.push(users[i].clone());
        i += 1;
    }
    assert(views(copy@) =~= views(users@));
    copy
}

} // verus!
