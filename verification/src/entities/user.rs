//! The user record.

use vstd::prelude::*;

verus! {

/// A stored user: the identifier that the store assigned, the username as it was given, and the
/// password hash as a PHC string, which embeds its salt.
#[derive(Debug, PartialEq)]
pub struct Model {
    pub id: i32,
    pub username: String,
    pub password_hash: String,
}

/// A user as plain values.
pub struct UserView {
    pub id: i32,
    pub username: Seq<char>,
    pub password_hash: Seq<char>,
}

impl View for Model {
    type V = UserView;

    open spec fn view(&self) -> UserView {
        UserView { id: self.id, username: self.username@, password_hash: self.password_hash@ }
    }
}

impl Clone for Model {
    fn clone(&self) -> (copy: Self)
        ensures
            copy == *self,
    {
        Model {
            id: self.id,
            username: self.username.clone(),
            password_hash: self.password_hash.clone(),
        }
    }
}

/// A user that is about to be stored: the store assigns the identifier.
#[derive(Debug, PartialEq)]
pub struct ActiveModel {
    pub username: String,
    pub password_hash: String,
}

} // verus!
