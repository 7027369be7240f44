//! Users.

use vstd::prelude::*;
use vstd::string::*;

verus! {

/// A registered user. User name and e-mail address are unique among users.
#[derive(Clone, Debug, PartialEq, Eq)]
pub struct User {
    pub id: i64,
    pub username: String,
    pub email: String,
    pub password_hash: String,
    /// Seconds since the Unix epoch.
    pub created_at: i64,
}

/// A user who has passed registration and is not stored yet.
#[derive(Clone, Debug, PartialEq, Eq)]
pub struct NewUser {
    pub username: String,
    pub email: String,
    pub password_hash: String,
}

} // verus!
