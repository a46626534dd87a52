use vstd::prelude::*;

verus! {

/// Typed outcomes of the credential and token operations.
///
/// `InvalidToken` deliberately covers both a wrong and an expired bearer
/// token, so a caller cannot tell the two apart. `Unauthorized` is the
/// single login failure, whether the email was unknown or the password
/// wrong, so responses do not leak which accounts exist.
#[derive(Clone, Copy, Debug, PartialEq, Eq, Structural)]
pub enum AuthError {
    /// A record with the same email already exists.
    DuplicateEmail,
    /// Lookup miss; a normal outcome, not a fault.
    NotFound,
    /// The presented bearer token is wrong or expired.
    InvalidToken,
    /// The password hasher failed internally; fatal.
    HashFailure,
    /// The storage layer refused the write.
    PersistenceFailure,
    /// Login credentials did not match any account.
    Unauthorized,
}

} // verus!
