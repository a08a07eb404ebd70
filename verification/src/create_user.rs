//! Registering users.

use vstd::prelude::*;

verus! {

/// The name of a new user and how many requests a day they may make.
#[derive(Debug)]
pub struct Args {
    pub username: String,
    pub max_query: i32,
}

/// What is stored for a new user: the name, the daily limit, and the whole
/// of it remaining.
#[derive(Debug)]
pub struct NewUser {
    pub username: String,
    pub remain: i32,
    pub max_query: i32,
}

/// A new user starts with all of their daily quota.
pub fn new_user(username: &str, max_query: i32) -> (u: NewUser)
    ensures
        u.username@ == username@,
        u.remain == max_query,
        u.max_query == max_query,
{
    NewUser { username: username.to_owned(), remain: max_query, max_query }
}

} // verus!
