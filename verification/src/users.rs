use vstd::prelude::*;

use crate::errors::AuthError;
use crate::hashing;
use crate::hashing::hash_matches;
use crate::tokens::{
    TokenSlot, TokenState, EMAIL_VERIFICATION_TOKEN_LENGTH, MAGIC_LINK_LENGTH,
    MAGIC_LINK_TTL_SECS, RESET_TOKEN_LENGTH,
};
use crate::tokens::{generate_token, is_token_char};

verus! {

/// What a caller supplies to register an account.
#[derive(Debug)]
pub struct RegisterParams {
    pub email: String,
    pub password: String,
    pub name: String,
}

/// Mathematical value of a credential record.
pub ghost struct UserView {
    pub pid: Seq<char>,
    pub email: Seq<char>,
    pub name: Seq<char>,
    pub password_hash: Seq<char>,
    pub email_verified_at: Option<u64>,
    pub verification: TokenState,
    pub reset: TokenState,
    pub magic_link: TokenState,
}

impl UserView {
    /// Record well-formedness: a verified account has no verification
    /// token outstanding, and a magic link's expiration moment fits in
    /// the timestamp type.
    pub open spec fn wf(self) -> bool {
        &&& (self.email_verified_at is Some ==> self.verification is Absent)
        &&& (self.magic_link matches TokenState::Pending { stamp, .. } ==> stamp
            + MAGIC_LINK_TTL_SECS <= u64::MAX)
    }
}

/// One registered account: identity, password hash, and the state of
/// the three single-use token kinds.
#[derive(Debug)]
pub struct User {
    pub pid: String,
    pub email: String,
    pub name: String,
    pub password_hash: String,
    pub email_verified_at: Option<u64>,
    pub verification: TokenSlot,
    pub reset: TokenSlot,
    pub magic_link: TokenSlot,
}

impl View for User {
    type V = UserView;

    open spec fn view(&self) -> UserView {
        UserView {
            pid: self.pid@,
            email: self.email@,
            name: self.name@,
            password_hash: self.password_hash@,
            email_verified_at: self.email_verified_at,
            verification: self.verification@,
            reset: self.reset@,
            magic_link: self.magic_link@,
        }
    }
}

impl DeepView for User {
    type V = UserView;

    open spec fn deep_view(&self) -> UserView {
        self.view()
    }
}

impl Clone for User {
    fn clone(&self) -> (r: Self)
        ensures
            r@ == self@,
    {
        User {
            pid: self.pid.clone(),
            email: self.email.clone(),
            name: self.name.clone(),
            password_hash: self.password_hash.clone(),
            email_verified_at: self.email_verified_at,
            verification: match &self.verification {
                TokenSlot::Absent => TokenSlot::Absent,
                TokenSlot::Pending { token, stamp } => TokenSlot::Pending {
                    token: token.clone(),
                    stamp: *stamp,
                },
            },
            reset: match &self.reset {
                TokenSlot::Absent => TokenSlot::Absent,
                TokenSlot::Pending { token, stamp } => TokenSlot::Pending {
                    token: token.clone(),
                    stamp: *stamp,
                },
            },
            magic_link: match &self.magic_link {
                TokenSlot::Absent => TokenSlot::Absent,
                TokenSlot::Pending { token, stamp } => TokenSlot::Pending {
                    token: token.clone(),
                    stamp: *stamp,
                },
            },
        }
    }
}

/// Consuming a verification token: legal exactly when a token is
/// outstanding and the presented one equals it; the record then
/// becomes verified at `now` and the token is cleared. Anything else
/// leaves the record as it was.
pub open spec fn spec_consume_verification(u: UserView, token: Seq<char>, now: u64) -> Option<
    UserView,
> {
    match u.verification {
        TokenState::Pending { token: stored, .. } => if stored == token {
            Some(
                UserView {
                    email_verified_at: Some(now),
                    verification: TokenState::Absent,
                    ..u
                },
            )
        } else {
            None
        },
        TokenState::Absent => None,
    }
}

/// Consuming a magic-link token: legal exactly when a token is
/// outstanding, the presented one equals it, and `now` has not passed
/// the stamp plus the fixed TTL. The token is then cleared. A wrong
/// and an expired token are the same failure.
pub open spec fn spec_consume_magic_link(u: UserView, token: Seq<char>, now: u64) -> Option<
    UserView,
> {
    match u.magic_link {
        TokenState::Pending { token: stored, stamp } => if stored == token && now <= stamp
            + MAGIC_LINK_TTL_SECS {
            Some(UserView { magic_link: TokenState::Absent, ..u })
        } else {
            None
        },
        TokenState::Absent => None,
    }
}

/// Consuming a reset token with a freshly hashed password: legal
/// exactly when a reset token is outstanding and the presented one
/// equals it; the password hash is then replaced and the token cleared
/// in the same step.
pub open spec fn spec_consume_reset(u: UserView, token: Seq<char>, new_hash: Seq<char>) -> Option<
    UserView,
> {
    match u.reset {
        TokenState::Pending { token: stored, .. } => if stored == token {
            Some(UserView { password_hash: new_hash, reset: TokenState::Absent, ..u })
        } else {
            None
        },
        TokenState::Absent => None,
    }
}

/// Law: consuming a verification token with the exact token verifies
/// the record at that moment and clears the token; consuming again —
/// with the same, now-cleared, token or any other — is then refused.
pub proof fn lemma_verification_single_use(
    u: UserView,
    token: Seq<char>,
    now: u64,
    token2: Seq<char>,
    now2: u64,
)
    requires
        spec_consume_verification(u, token, now) is Some,
    ensures
        spec_consume_verification(u, token, now)->0.email_verified_at == Some(now),
        spec_consume_verification(u, token, now)->0.verification is Absent,
        spec_consume_verification(spec_consume_verification(u, token, now)->0, token2, now2)
            is None,
{
}

/// Law: a magic link issued at `t0` is honoured at every moment up to
/// `t0 + MAGIC_LINK_TTL_SECS` and refused at every later moment; and
/// it is single-use — once consumed, the same token is refused.
pub proof fn lemma_magic_link_window(u: UserView, token: Seq<char>, t0: u64, now: u64)
    requires
        u.magic_link == (TokenState::Pending { token, stamp: t0 }),
    ensures
        now <= t0 + MAGIC_LINK_TTL_SECS ==> spec_consume_magic_link(u, token, now) is Some,
        now > t0 + MAGIC_LINK_TTL_SECS ==> spec_consume_magic_link(u, token, now) is None,
        spec_consume_magic_link(u, token, now) matches Some(v) ==> v.magic_link is Absent
            && spec_consume_magic_link(v, token, now) is None,
{
}

/// Law: verification is monotonic — no consumption of any token kind
/// takes the verification timestamp away from a verified record.
pub proof fn lemma_verified_monotonic(
    u: UserView,
    token: Seq<char>,
    new_hash: Seq<char>,
    now: u64,
)
    requires
        u.email_verified_at is Some,
    ensures
        spec_consume_verification(u, token, now) matches Some(v) ==> v.email_verified_at is Some,
        spec_consume_magic_link(u, token, now) matches Some(v) ==> v.email_verified_at
            == u.email_verified_at,
        spec_consume_reset(u, token, new_hash) matches Some(v) ==> v.email_verified_at
            == u.email_verified_at,
{
}

impl User {
    /// Mint a session token carrying this record's public identifier,
    /// signed with `secret` and expiring `ttl` seconds after `now`.
    /// Minting always succeeds.
    pub fn generate_jwt(&self, secret: &str, now: u64, ttl: u64) -> (r: String)
        requires
            now + ttl <= u64::MAX,
        ensures
            r@ == crate::session::jwt_of(self@.pid, (now + ttl) as u64, secret@),
    {
        crate::session::issue(self.pid.as_str(), secret, now, ttl)
    }

    /// Check a raw password against this record's stored hash.
    pub fn verify_password(&self, password: &str) -> (r: bool)
        ensures
            r == hash_matches(self@.password_hash, password@),
    {
        hashing::verify_password(password, self.password_hash.as_str())
    }

    /// Issue (or re-issue) an email-verification token stamped `now`.
    /// Only an unverified record may get one; re-issuing while one is
    /// outstanding overwrites it, which is what a resend does.
    pub fn set_email_verification_sent(&mut self, now: u64)
        requires
            old(self)@.email_verified_at is None,
        ensures
            final(self)@ == (UserView { verification: final(self)@.verification, ..old(self)@ }),
            final(self)@.verification matches TokenState::Pending { token, stamp } && stamp == now
                && token.len() == EMAIL_VERIFICATION_TOKEN_LENGTH && (forall|i: int|
                0 <= i < token.len() ==> is_token_char(#[trigger] token[i])),
            old(self)@.wf() ==> final(self)@.wf(),
    {
        let token = generate_token(EMAIL_VERIFICATION_TOKEN_LENGTH);
        self.verification = TokenSlot::Pending { token, stamp: now };
    }

    /// Issue (or re-issue) a password-reset token stamped `now`.
    pub fn set_forgot_password_sent(&mut self, now: u64)
        ensures
            final(self)@ == (UserView { reset: final(self)@.reset, ..old(self)@ }),
            final(self)@.reset matches TokenState::Pending { token, stamp } && stamp == now
                && token.len() == RESET_TOKEN_LENGTH && (forall|i: int|
                0 <= i < token.len() ==> is_token_char(#[trigger] token[i])),
            old(self)@.wf() ==> final(self)@.wf(),
    {
        let token = generate_token(RESET_TOKEN_LENGTH);
        self.reset = TokenSlot::Pending { token, stamp: now };
    }

    /// Issue (or re-issue) a magic-link token stamped `now`. The link
    /// expires exactly `MAGIC_LINK_TTL_SECS` after `now`.
    pub fn create_magic_link(&mut self, now: u64)
        requires
            now + MAGIC_LINK_TTL_SECS <= u64::MAX,
        ensures
            final(self)@ == (UserView { magic_link: final(self)@.magic_link, ..old(self)@ }),
            final(self)@.magic_link matches TokenState::Pending { token, stamp } && stamp == now
                && token.len() == MAGIC_LINK_LENGTH && (forall|i: int|
                0 <= i < token.len() ==> is_token_char(#[trigger] token[i])),
            old(self)@.wf() ==> final(self)@.wf(),
    {
        let token = generate_token(MAGIC_LINK_LENGTH);
        self.magic_link = TokenSlot::Pending { token, stamp: now };
    }

    /// Mark the record verified at `now` and clear any outstanding
    /// verification token. Verification never reverts: the timestamp
    /// is present from here on.
    pub fn verified(&mut self, now: u64)
        ensures
            final(self)@ == (UserView {
                email_verified_at: Some(now),
                verification: TokenState::Absent,
                ..old(self)@
            }),
            final(self)@.wf() == (old(self)@.magic_link matches TokenState::Pending {
                stamp,
                ..
            } ==> stamp + MAGIC_LINK_TTL_SECS <= u64::MAX),
    {
        self.email_verified_at = Some(now);
        self.verification = TokenSlot::Absent;
    }

    /// Replace the password hash with a hash of `new_password` and
    /// clear any outstanding reset token, in one step. If hashing
    /// fails, nothing changes at all.
    pub fn reset_password(&mut self, new_password: &str) -> (r: Result<(), AuthError>)
        ensures
            r is Ok ==> final(self)@ == (UserView {
                password_hash: final(self)@.password_hash,
                reset: TokenState::Absent,
                ..old(self)@
            }) && hash_matches(final(self)@.password_hash, new_password@),
            r is Err ==> final(self)@ == old(self)@ && r->Err_0 == AuthError::HashFailure,
            old(self)@.wf() ==> final(self)@.wf(),
    {
        let new_hash = hashing::hash_password(new_password)?;
        self.password_hash = new_hash;
        self.reset = TokenSlot::Absent;
        Ok(())
    }

    /// The outstanding email-verification token, if any.
    pub fn email_verification_token(&self) -> (r: Option<String>)
        ensures
            match self@.verification {
                TokenState::Pending { token, .. } => r matches Some(t) && t@ == token,
                TokenState::Absent => r is None,
            },
    {
        self.verification.token()
    }

    /// When the outstanding email-verification token was issued.
    pub fn email_verification_sent_at(&self) -> (r: Option<u64>)
        ensures
            match self@.verification {
                TokenState::Pending { stamp, .. } => r == Some(stamp),
                TokenState::Absent => r is None,
            },
    {
        self.verification.stamp()
    }

    /// The outstanding password-reset token, if any.
    pub fn reset_token(&self) -> (r: Option<String>)
        ensures
            match self@.reset {
                TokenState::Pending { token, .. } => r matches Some(t) && t@ == token,
                TokenState::Absent => r is None,
            },
    {
        self.reset.token()
    }

    /// When the outstanding password-reset token was issued.
    pub fn reset_sent_at(&self) -> (r: Option<u64>)
        ensures
            match self@.reset {
                TokenState::Pending { stamp, .. } => r == Some(stamp),
                TokenState::Absent => r is None,
            },
    {
        self.reset.stamp()
    }

    /// The outstanding magic-link token, if any.
    pub fn magic_link_token(&self) -> (r: Option<String>)
        ensures
            match self@.magic_link {
                TokenState::Pending { token, .. } => r matches Some(t) && t@ == token,
                TokenState::Absent => r is None,
            },
    {
        self.magic_link.token()
    }

    /// The moment the outstanding magic link stops being honoured:
    /// its issuance stamp plus the fixed TTL.
    pub fn magic_link_expiration(&self) -> (r: Option<u64>)
        requires
            self@.wf(),
        ensures
            match self@.magic_link {
                TokenState::Pending { stamp, .. } => r == Some(
                    (stamp + MAGIC_LINK_TTL_SECS) as u64,
                ),
                TokenState::Absent => r is None,
            },
    {
        match &self.magic_link {
            TokenSlot::Pending { stamp, .. } => Some(*stamp + MAGIC_LINK_TTL_SECS),
            TokenSlot::Absent => None,
        }
    }

    /// Consume a presented verification token. On the exact match the
    /// record becomes verified at `now` and the token is cleared; any
    /// other outcome is `InvalidToken` and the record is untouched.
    pub fn consume_verification(&mut self, token: &str, now: u64) -> (r: Result<(), AuthError>)
        ensures
            r is Ok <==> spec_consume_verification(old(self)@, token@, now) is Some,
            r is Ok ==> Some(final(self)@) == spec_consume_verification(old(self)@, token@, now),
            r is Err ==> final(self)@ == old(self)@ && r->Err_0 == AuthError::InvalidToken,
            old(self)@.wf() ==> final(self)@.wf(),
    {
        if self.verification.matches(token) {
            self.email_verified_at = Some(now);
            self.verification = TokenSlot::Absent;
            Ok(())
        } else {
            Err(AuthError::InvalidToken)
        }
    }

    /// Consume a presented magic-link token. On the exact match within
    /// the TTL window the token is cleared; a wrong or an expired token
    /// is the same `InvalidToken`, with the record untouched.
    pub fn consume_magic_link(&mut self, token: &str, now: u64) -> (r: Result<(), AuthError>)
        requires
            old(self)@.wf(),
        ensures
            r is Ok <==> spec_consume_magic_link(old(self)@, token@, now) is Some,
            r is Ok ==> Some(final(self)@) == spec_consume_magic_link(old(self)@, token@, now),
            r is Err ==> final(self)@ == old(self)@ && r->Err_0 == AuthError::InvalidToken,
            final(self)@.wf(),
    {
        let fresh = match &self.magic_link {
            TokenSlot::Pending { stamp, .. } => now <= *stamp + MAGIC_LINK_TTL_SECS,
            TokenSlot::Absent => false,
        };
        if fresh && self.magic_link.matches(token) {
            self.magic_link = TokenSlot::Absent;
            Ok(())
        } else {
            Err(AuthError::InvalidToken)
        }
    }

    /// Consume a presented reset token together with the new password.
    /// On the exact match the password hash is replaced and the token
    /// cleared in the same step; a hash failure leaves the token (and
    /// everything else) intact, so no half-done state can exist.
    pub fn consume_reset(&mut self, token: &str, new_password: &str) -> (r: Result<
        (),
        AuthError,
    >)
        ensures
            r is Ok ==> spec_consume_reset(old(self)@, token@, final(self)@.password_hash) == Some(
                final(self)@,
            ) && hash_matches(final(self)@.password_hash, new_password@),
            r is Err ==> final(self)@ == old(self)@ && (r->Err_0 == AuthError::InvalidToken || r
                ->Err_0 == AuthError::HashFailure),
            r == Err::<(), AuthError>(AuthError::InvalidToken) <==> !(old(self)@.reset matches
                TokenState::Pending { token: stored, .. } && stored == token@),
            old(self)@.wf() ==> final(self)@.wf(),
    {
        if self.reset.matches(token) {
            self.reset_password(new_password)
        } else {
            Err(AuthError::InvalidToken)
        }
    }
}

} // verus!
