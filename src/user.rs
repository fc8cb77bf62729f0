//! A user account record, a builder for fresh accounts, and a small scene
//! in which one of two equal records is changed and the other is not.
use vstd::prelude::*;

verus! {

/// A user account.
pub struct User {
    pub username: String,
    pub email: String,
    pub sign_in_count: u64,
    pub active: bool,
}

/// A new account for `email` and `username`: active, signed in once, and
/// holding both texts exactly as given.
pub fn build_user(email: String, username: String) -> (r: User)
    ensures
        r.email@ == email@,
        r.username@ == username@,
        r.active,
        r.sign_in_count == 1,
{
    User { email: email, username: username, active: true, sign_in_count: 1 }
}

/// Builds two equal records, changes the e-mail of the second, and then
/// builds a third that takes its flags from the first. Returns the three
/// records in that order: the first still holds the e-mail it was built
/// with, since the change went to a separate value.
pub fn sample_users() -> (r: (User, User, User))
    ensures
        r.0.email@ == "someone@example.com"@,
        r.0.username@ == "someusername123"@,
        r.0.active,
        r.0.sign_in_count == 1,
        r.1.email@ == "anotheremail@example.com"@,
        r.1.username@ == "someusername123"@,
        r.1.active,
        r.1.sign_in_count == 1,
        r.2.email@ == "another@example.com"@,
        r.2.username@ == "anotherusername567"@,
        r.2.active == r.0.active,
        r.2.sign_in_count == r.0.sign_in_count,
{
    let user_one_immutable = User {
        email: String::from_str("someone@example.com"),
        username: String::from_str("someusername123"),
        active: true,
        sign_in_count: 1,
    };
    let mut user_one_mutable = User {
        email: String::from_str("someone@example.com"),
        username: String::from_str("someusername123"),
        active: true,
        sign_in_count: 1,
    };
    user_one_mutable.email = String::from_str("anotheremail@example.com");
    let user_two_immutable = User {
        email: String::from_str("another@example.com"),
        username: String::from_str("anotherusername567"),
        active: user_one_immutable.active,
        sign_in_count: user_one_immutable.sign_in_count,
    };
    (user_one_immutable, user_one_mutable, user_two_immutable)
}

} // verus!
