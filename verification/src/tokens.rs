use vstd::prelude::*;

use rand::distributions::{Alphanumeric, DistString};

verus! {

/// Length of an email-verification token.
pub const EMAIL_VERIFICATION_TOKEN_LENGTH: usize = 32;

/// Length of a password-reset token.
pub const RESET_TOKEN_LENGTH: usize = 32;

/// Length of a magic-link token; checked by tests.
pub const MAGIC_LINK_LENGTH: usize = 32;

/// Minutes a magic link stays valid after issuance.
pub const MAGIC_LINK_EXPIRATION_MIN: u64 = 5;

/// Seconds a magic link stays valid after issuance.
pub const MAGIC_LINK_TTL_SECS: u64 = MAGIC_LINK_EXPIRATION_MIN * 60;

/// The characters a generated token is drawn from.
pub open spec fn is_token_char(c: char) -> bool {
    ('a' <= c && c <= 'z') || ('A' <= c && c <= 'Z') || ('0' <= c && c <= '9')
}

/// Relies on `rand`'s `Alphanumeric` distribution with `thread_rng`:
/// `sample_string` returns exactly `len` characters, each drawn
/// uniformly from a-z, A-Z and 0-9.
#[verifier::external_body]
pub(crate) fn generate_token(len: usize) -> (r: String)
    ensures
        r@.len() == len as nat,
        forall|i: int| 0 <= i < r@.len() ==> is_token_char(#[trigger] r@[i]),
{
    Alphanumeric.sample_string(&mut rand::thread_rng(), len)
}

/// Relies on `uuid::Uuid::new_v4` and its hyphenated `Display` form:
/// the string of a random version-4 UUID is always 36 characters.
#[verifier::external_body]
pub(crate) fn generate_pid() -> (r: String)
    ensures
        r@.len() == 36,
{
    uuid::Uuid::new_v4().to_string()
}

/// One token kind on a record: either no token is outstanding, or a
/// token and the moment it was stamped are set together. The stamp is
/// the issuance time in seconds; a token and its timestamp can never
/// exist without each other.
#[derive(Debug)]
pub enum TokenSlot {
    Absent,
    Pending { token: String, stamp: u64 },
}

/// Mathematical value of a `TokenSlot`.
pub ghost enum TokenState {
    Absent,
    Pending { token: Seq<char>, stamp: u64 },
}

impl View for TokenSlot {
    type V = TokenState;

    open spec fn view(&self) -> TokenState {
        match self {
            TokenSlot::Absent => TokenState::Absent,
            TokenSlot::Pending { token, stamp } => TokenState::Pending {
                token: token@,
                stamp: *stamp,
            },
        }
    }
}

impl TokenSlot {
    /// The outstanding token, if one is set.
    pub fn token(&self) -> (r: Option<String>)
        ensures
            match self@ {
                TokenState::Pending { token, .. } => r matches Some(s) && s@ == token,
                TokenState::Absent => r is None,
            },
    {
        match self {
            TokenSlot::Pending { token, .. } => Some(token.clone()),
            TokenSlot::Absent => None,
        }
    }

    /// The stamp recorded at issuance, if a token is set.
    pub fn stamp(&self) -> (r: Option<u64>)
        ensures
            match self@ {
                TokenState::Pending { stamp, .. } => r == Some(stamp),
                TokenState::Absent => r is None,
            },
    {
        match self {
            TokenSlot::Pending { stamp, .. } => Some(*stamp),
            TokenSlot::Absent => None,
        }
    }

    /// Whether the presented string equals the outstanding token.
    pub fn matches(&self, presented: &str) -> (r: bool)
        ensures
            r == (self@ matches TokenState::Pending { token, .. } && token == presented@),
    {
        match self {
            TokenSlot::Pending { token, .. } => {
                let p = String::from_str(presented);
                *token == p
            },
            TokenSlot::Absent => false,
        }
    }
}

} // verus!
