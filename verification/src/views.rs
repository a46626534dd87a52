use vstd::prelude::*;

use crate::users::User;

verus! {

/// What a successful login (or magic-link login) hands back: the
/// session token and the public face of the account.
#[derive(Debug)]
pub struct LoginResponse {
    pub token: String,
    pub pid: String,
    pub name: String,
    pub is_verified: bool,
    pub email: String,
}

impl LoginResponse {
    /// Assemble the response from a record and its freshly minted
    /// session token. Every field comes straight from the two inputs;
    /// in particular `is_verified` is the presence of the verification
    /// timestamp.
    #[must_use]
    pub fn new(user: &User, token: &String) -> (r: Self)
        ensures
            r.token@ == token@,
            r.pid@ == user@.pid,
            r.name@ == user@.name,
            r.is_verified == (user@.email_verified_at is Some),
            r.email@ == user@.email,
    {
        Self {
            token: token.clone(),
            pid: user.pid.clone(),
            name: user.name.clone(),
            is_verified: user.email_verified_at.is_some(),
            email: user.email.clone(),
        }
    }
}

/// What the authenticated "who am I" lookup hands back.
#[derive(Debug)]
pub struct CurrentResponse {
    pub token: String,
    pub pid: String,
    pub name: String,
    pub email: String,
}

impl CurrentResponse {
    /// Assemble the response from a record and the bearer token it was
    /// authenticated with. Every field comes straight from the two
    /// inputs.
    #[must_use]
    pub fn new(user: &User, token: &String) -> (r: Self)
        ensures
            r.token@ == token@,
            r.pid@ == user@.pid,
            r.name@ == user@.name,
            r.email@ == user@.email,
    {
        Self {
            token: token.clone(),
            pid: user.pid.clone(),
            name: user.name.clone(),
            email: user.email.clone(),
        }
    }
}

} // verus!
