//! The user record and its mathematical view.

use vstd::prelude::*;

verus! {

/// A registered user. The identifier is assigned by the credential store and
/// is unique across all users, as are the username and the (lowercased)
/// email. The password hash is one-way and salted; timestamps are seconds.
pub struct User {
    pub id: u64,
    pub username: String,
    pub email: String,
    pub password_hash: String,
    pub created_at: u64,
}

/// The view of a user: every field as a plain mathematical value.
pub ghost struct UserView {
    pub id: u64,
    pub username: Seq<char>,
    pub email: Seq<char>,
    pub password_hash: Seq<char>,
    pub created_at: u64,
}

impl View for User {
    type V = UserView;

    open spec fn view(&self) -> UserView {
        UserView {
            id: self.id,
            username: self.username@,
            email: self.email@,
            password_hash: self.password_hash@,
            created_at: self.created_at,
        }
    }
}

impl User {
    pub fn new(id: u64, username: String, email: String, password_hash: String, created_at: u64) -> (r: Self)
        ensures
            r@ == (UserView {
                id,
                username: username@,
                email: email@,
                password_hash: password_hash@,
                created_at,
            }),
    {
        User { id, username, email, password_hash, created_at }
    }

    /// An owned copy of this record.
    pub fn duplicate(&self) -> (r: Self)
        ensures
            r@ == self@,
    {
        User {
            id: self.id,
            username: self.username.clone(),
            email: self.email.clone(),
            password_hash: self.password_hash.clone(),
            created_at: self.created_at,
        }
    }
}

} // verus!
