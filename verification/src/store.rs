use vstd::prelude::*;

use crate::errors::AuthError;
use crate::hashing;
use crate::hashing::hash_matches;
use crate::tokens::{
    generate_pid, TokenSlot, TokenState, EMAIL_VERIFICATION_TOKEN_LENGTH, MAGIC_LINK_LENGTH,
    MAGIC_LINK_TTL_SECS, RESET_TOKEN_LENGTH,
};
use crate::users::{
    spec_consume_magic_link, spec_consume_reset, spec_consume_verification, RegisterParams, User,
    UserView,
};

verus! {

/// Whether some record in `s` carries exactly this email.
pub open spec fn has_email(s: Seq<UserView>, email: Seq<char>) -> bool {
    exists|i: int| 0 <= i < s.len() && (#[trigger] s[i]).email == email
}

/// Whether some record in `s` carries exactly this public identifier.
pub open spec fn has_pid(s: Seq<UserView>, pid: Seq<char>) -> bool {
    exists|i: int| 0 <= i < s.len() && (#[trigger] s[i]).pid == pid
}

/// Whether some record in `s` has this verification token outstanding.
pub open spec fn has_verification_token(s: Seq<UserView>, token: Seq<char>) -> bool {
    exists|i: int|
        0 <= i < s.len() && ((#[trigger] s[i]).verification matches TokenState::Pending {
            token: t,
            ..
        } && t == token)
}

/// Whether some record in `s` has this reset token outstanding.
pub open spec fn has_reset_token(s: Seq<UserView>, token: Seq<char>) -> bool {
    exists|i: int|
        0 <= i < s.len() && ((#[trigger] s[i]).reset matches TokenState::Pending { token: t, .. }
            && t == token)
}

/// Whether some record in `s` has this magic-link token outstanding,
/// expired or not.
pub open spec fn has_magic_link_token(s: Seq<UserView>, token: Seq<char>) -> bool {
    exists|i: int|
        0 <= i < s.len() && ((#[trigger] s[i]).magic_link matches TokenState::Pending {
            token: t,
            ..
        } && t == token)
}

/// Store well-formedness over the record sequence: emails are pairwise
/// distinct, public identifiers are pairwise distinct, and every
/// record is well-formed.
pub open spec fn wf_seq(s: Seq<UserView>) -> bool {
    &&& (forall|i: int, j: int|
        #![trigger s[i].email, s[j].email]
        0 <= i < j < s.len() ==> s[i].email != s[j].email)
    &&& (forall|i: int, j: int|
        #![trigger s[i].pid, s[j].pid]
        0 <= i < j < s.len() ==> s[i].pid != s[j].pid)
    &&& (forall|i: int| 0 <= i < s.len() ==> (#[trigger] s[i]).wf())
}

/// Appending a well-formed record whose email and public identifier
/// are fresh keeps the store well-formed.
pub proof fn lemma_wf_push(s: Seq<UserView>, u: UserView)
    requires
        wf_seq(s),
        !has_email(s, u.email),
        !has_pid(s, u.pid),
        u.wf(),
    ensures
        wf_seq(s.push(u)),
{
    let post = s.push(u);
    assert forall|i: int, j: int|
        #![trigger post[i].email, post[j].email]
        0 <= i < j < post.len() implies post[i].email != post[j].email by {
        if j < s.len() {
            assert(s[i].email != s[j].email);
        } else {
            assert(!(0 <= i < s.len() && s[i].email == u.email));
        }
    }
    assert forall|i: int, j: int|
        #![trigger post[i].pid, post[j].pid]
        0 <= i < j < post.len() implies post[i].pid != post[j].pid by {
        if j < s.len() {
            assert(s[i].pid != s[j].pid);
        } else {
            assert(!(0 <= i < s.len() && s[i].pid == u.pid));
        }
    }
    assert forall|i: int| 0 <= i < post.len() implies (#[trigger] post[i]).wf() by {
        if i < s.len() {
            assert(s[i].wf());
        }
    }
}

/// Law: once a record enters the store, the store has its email — so
/// creation's own contract refuses a second registration under the
/// same email with `DuplicateEmail` and, failing, leaves every stored
/// record exactly as it was.
pub proof fn lemma_duplicate_email_refused(s: Seq<UserView>, u: UserView)
    ensures
        has_email(s.push(u), u.email),
{
    assert(s.push(u)[s.len() as int].email == u.email);
}

/// In a well-formed store two positions carrying the same email are
/// the same position.
pub proof fn lemma_email_unique(s: Seq<UserView>, i: int, j: int)
    requires
        wf_seq(s),
        0 <= i < s.len(),
        0 <= j < s.len(),
        s[i].email == s[j].email,
    ensures
        i == j,
{
    if i < j {
        assert(s[i].email != s[j].email);
    } else if j < i {
        assert(s[j].email != s[i].email);
    }
}

/// Replacing one record with a well-formed one that keeps its email
/// and public identifier keeps the store well-formed.
pub proof fn lemma_wf_update(s: Seq<UserView>, k: int, u: UserView)
    requires
        wf_seq(s),
        0 <= k < s.len(),
        u.email == s[k].email,
        u.pid == s[k].pid,
        u.wf(),
    ensures
        wf_seq(s.update(k, u)),
{
    let post = s.update(k, u);
    assert forall|i: int, j: int|
        #![trigger post[i].email, post[j].email]
        0 <= i < j < post.len() implies post[i].email != post[j].email by {
        assert(s[i].email != s[j].email);
    }
    assert forall|i: int, j: int|
        #![trigger post[i].pid, post[j].pid]
        0 <= i < j < post.len() implies post[i].pid != post[j].pid by {
        assert(s[i].pid != s[j].pid);
    }
    assert forall|i: int| 0 <= i < post.len() implies (#[trigger] post[i]).wf() by {
        assert(i == k || s[i].wf());
    }
}

/// The records the application knows, keyed by unique email and unique
/// public identifier. This is the data-access layer the flows go
/// through: typed create, find and update operations on whole records,
/// each one atomic.
pub struct UserStore {
    users: Vec<User>,
}

impl View for UserStore {
    type V = Seq<UserView>;

    closed spec fn view(&self) -> Seq<UserView> {
        self.users.deep_view()
    }
}

impl UserStore {
    /// Store well-formedness; see `wf_seq`.
    pub open spec fn wf(&self) -> bool {
        wf_seq(self@)
    }

    /// An empty store.
    pub fn new() -> (r: Self)
        ensures
            r@ =~= Seq::<UserView>::empty(),
            r.wf(),
    {
        let store = UserStore { users: Vec::new() };
        proof {
            assert(store@ =~= Seq::<UserView>::empty());
        }
        store
    }

    /// How many records the store holds.
    pub fn len(&self) -> (r: usize)
        ensures
            r == self@.len(),
    {
        self.users.len()
    }

    /// Drop every record; the administrative bulk reset.
    pub fn truncate(&mut self)
        ensures
            final(self)@ =~= Seq::<UserView>::empty(),
            final(self).wf(),
    {
        self.users = Vec::new();
    }

    fn user_at(&mut self, i: usize) -> (u: &mut User)
        requires
            i < old(self)@.len(),
        ensures
            *u == old(self).users@[i as int],
            u@ == old(self)@[i as int],
            final(self).users@ == old(self).users@.update(i as int, *final(u)),
            final(self)@ =~= old(self)@.update(i as int, final(u)@),
    {
        &mut self.users[i]
    }

    fn position_by_email(&self, email: &str) -> (r: Option<usize>)
        ensures
            r matches Some(i) ==> i < self@.len() && self@[i as int].email == email@,
            r is None ==> !has_email(self@, email@),
    {
        let wanted = String::from_str(email);
        let mut i: usize = 0;
        while i < self.users.len()
            invariant
                i <= self.users.len(),
                wanted@ == email@,
                self@.len() == self.users.len(),
                forall|j: int| 0 <= j < i ==> (#[trigger] self@[j]).email != email@,
            decreases self.users.len() - i,
        {
            if self.users[i].email == wanted {
                return Some(i);
            }
            i += 1;
        }
        None
    }

    fn position_by_pid(&self, pid: &str) -> (r: Option<usize>)
        ensures
            r matches Some(i) ==> i < self@.len() && self@[i as int].pid == pid@,
            r is None ==> !has_pid(self@, pid@),
    {
        let wanted = String::from_str(pid);
        let mut i: usize = 0;
        while i < self.users.len()
            invariant
                i <= self.users.len(),
                wanted@ == pid@,
                self@.len() == self.users.len(),
                forall|j: int| 0 <= j < i ==> (#[trigger] self@[j]).pid != pid@,
            decreases self.users.len() - i,
        {
            if self.users[i].pid == wanted {
                return Some(i);
            }
            i += 1;
        }
        None
    }

    /// Create a record from the registration parameters: hash the
    /// password, draw a fresh public identifier, and insert. A second
    /// record under an email already present is refused with
    /// `DuplicateEmail` and the store is left exactly as it was.
    pub fn create_with_password(&mut self, params: &RegisterParams) -> (r: Result<User, AuthError>)
        requires
            old(self).wf(),
        ensures
            final(self).wf(),
            r matches Ok(u) ==> {
                &&& !has_email(old(self)@, params.email@)
                &&& final(self)@ =~= old(self)@.push(u@)
                &&& u@.email == params.email@
                &&& u@.name == params.name@
                &&& u@.email_verified_at is None
                &&& u@.verification is Absent
                &&& u@.reset is Absent
                &&& u@.magic_link is Absent
                &&& hash_matches(u@.password_hash, params.password@)
                &&& u@.pid.len() == 36
            },
            r is Err ==> final(self)@ == old(self)@,
            r == Err::<User, AuthError>(AuthError::DuplicateEmail) <==> has_email(
                old(self)@,
                params.email@,
            ),
            r is Err ==> (r->Err_0 == AuthError::DuplicateEmail || r->Err_0
                == AuthError::HashFailure || r->Err_0 == AuthError::PersistenceFailure),
    {
        if self.position_by_email(params.email.as_str()).is_some() {
            return Err(AuthError::DuplicateEmail);
        }
        let password_hash = match hashing::hash_password(params.password.as_str()) {
            Ok(h) => h,
            Err(_) => {
                return Err(AuthError::HashFailure);
            },
        };
        let pid = generate_pid();
        if self.position_by_pid(pid.as_str()).is_some() {
            // A drawn identifier collided with a stored one: surface it
            // as the storage layer's unique-constraint refusal.
            return Err(AuthError::PersistenceFailure);
        }
        let user = User {
            pid,
            email: params.email.clone(),
            name: params.name.clone(),
            password_hash,
            email_verified_at: None,
            verification: TokenSlot::Absent,
            reset: TokenSlot::Absent,
            magic_link: TokenSlot::Absent,
        };
        let stored = user.clone();
        self.users.push(stored);
        proof {
            assert(self@ =~= old(self)@.push(user@));
            lemma_wf_push(old(self)@, user@);
        }
        Ok(user)
    }

    /// Case-exact lookup by email; a miss is the normal `NotFound`.
    pub fn find_by_email(&self, email: &str) -> (r: Result<User, AuthError>)
        ensures
            r matches Ok(u) ==> exists|i: int|
                0 <= i < self@.len() && #[trigger] self@[i] == u@ && u@.email == email@,
            r is Err <==> !has_email(self@, email@),
            r is Err ==> r->Err_0 == AuthError::NotFound,
    {
        match self.position_by_email(email) {
            Some(i) => Ok(self.users[i].clone()),
            None => Err(AuthError::NotFound),
        }
    }

    /// Case-exact lookup by public identifier; a miss is the normal
    /// `NotFound`.
    pub fn find_by_pid(&self, pid: &str) -> (r: Result<User, AuthError>)
        ensures
            r matches Ok(u) ==> exists|i: int|
                0 <= i < self@.len() && #[trigger] self@[i] == u@ && u@.pid == pid@,
            r is Err <==> !has_pid(self@, pid@),
            r is Err ==> r->Err_0 == AuthError::NotFound,
    {
        match self.position_by_pid(pid) {
            Some(i) => Ok(self.users[i].clone()),
            None => Err(AuthError::NotFound),
        }
    }

    fn position_by_verification_token(&self, token: &str) -> (r: Option<usize>)
        ensures
            r matches Some(i) ==> i < self@.len() && (self@[i as int].verification matches
                TokenState::Pending { token: t, .. } && t == token@),
            r is None ==> !has_verification_token(self@, token@),
    {
        let mut i: usize = 0;
        while i < self.users.len()
            invariant
                i <= self.users.len(),
                self@.len() == self.users.len(),
                forall|j: int|
                    0 <= j < i ==> !((#[trigger] self@[j]).verification matches
                        TokenState::Pending { token: t, .. } && t == token@),
            decreases self.users.len() - i,
        {
            if self.users[i].verification.matches(token) {
                return Some(i);
            }
            i += 1;
        }
        None
    }

    fn position_by_reset_token(&self, token: &str) -> (r: Option<usize>)
        ensures
            r matches Some(i) ==> i < self@.len() && (self@[i as int].reset matches
                TokenState::Pending { token: t, .. } && t == token@),
            r is None ==> !has_reset_token(self@, token@),
    {
        let mut i: usize = 0;
        while i < self.users.len()
            invariant
                i <= self.users.len(),
                self@.len() == self.users.len(),
                forall|j: int|
                    0 <= j < i ==> !((#[trigger] self@[j]).reset matches TokenState::Pending {
                        token: t,
                        ..
                    } && t == token@),
            decreases self.users.len() - i,
        {
            if self.users[i].reset.matches(token) {
                return Some(i);
            }
            i += 1;
        }
        None
    }

    fn position_by_magic_link_token(&self, token: &str) -> (r: Option<usize>)
        ensures
            r matches Some(i) ==> i < self@.len() && (self@[i as int].magic_link matches
                TokenState::Pending { token: t, .. } && t == token@) && (forall|j: int|
                0 <= j < i ==> !((#[trigger] self@[j]).magic_link matches TokenState::Pending {
                    token: t,
                    ..
                } && t == token@)),
            r is None ==> !has_magic_link_token(self@, token@),
    {
        let mut i: usize = 0;
        while i < self.users.len()
            invariant
                i <= self.users.len(),
                self@.len() == self.users.len(),
                forall|j: int|
                    0 <= j < i ==> !((#[trigger] self@[j]).magic_link matches TokenState::Pending {
                        token: t,
                        ..
                    } && t == token@),
            decreases self.users.len() - i,
        {
            if self.users[i].magic_link.matches(token) {
                return Some(i);
            }
            i += 1;
        }
        None
    }

    /// The registration service: create the record and immediately
    /// issue its email-verification token, stamped `now`, for the
    /// caller to send out. A duplicate email is refused with
    /// `DuplicateEmail` and nothing changes.
    pub fn register(&mut self, params: &RegisterParams, now: u64) -> (r: Result<User, AuthError>)
        requires
            old(self).wf(),
        ensures
            final(self).wf(),
            r matches Ok(u) ==> {
                &&& !has_email(old(self)@, params.email@)
                &&& final(self)@ =~= old(self)@.push(u@)
                &&& u@.email == params.email@
                &&& u@.name == params.name@
                &&& u@.email_verified_at is None
                &&& (u@.verification matches TokenState::Pending { token, stamp } && stamp == now
                    && token.len() == EMAIL_VERIFICATION_TOKEN_LENGTH)
                &&& u@.reset is Absent
                &&& u@.magic_link is Absent
                &&& hash_matches(u@.password_hash, params.password@)
            },
            r is Err ==> final(self)@ == old(self)@,
            r == Err::<User, AuthError>(AuthError::DuplicateEmail) <==> has_email(
                old(self)@,
                params.email@,
            ),
            r is Err ==> (r->Err_0 == AuthError::DuplicateEmail || r->Err_0
                == AuthError::HashFailure || r->Err_0 == AuthError::PersistenceFailure),
    {
        let created = self.create_with_password(params)?;
        let i = self.users.len() - 1;
        let u = self.user_at(i);
        u.set_email_verification_sent(now);
        let out = self.users[i].clone();
        proof {
            lemma_wf_update(old(self)@.push(created@), i as int, out@);
            assert(final(self)@ =~= old(self)@.push(out@));
        }
        Ok(out)
    }

    /// Consume a presented email-verification token: the record
    /// carrying exactly this token becomes verified at `now` and the
    /// token is cleared. Any other outcome, including no record
    /// carrying the token, is `InvalidToken` with nothing changed.
    pub fn verify_email(&mut self, token: &str, now: u64) -> (r: Result<(), AuthError>)
        requires
            old(self).wf(),
        ensures
            final(self).wf(),
            r is Ok <==> has_verification_token(old(self)@, token@),
            r is Err ==> final(self)@ == old(self)@ && r->Err_0 == AuthError::InvalidToken,
            r is Ok ==> exists|i: int|
                {
                    &&& 0 <= i < old(self)@.len()
                    &&& spec_consume_verification(#[trigger] old(self)@[i], token@, now) is Some
                    &&& final(self)@ =~= old(self)@.update(
                        i,
                        spec_consume_verification(old(self)@[i], token@, now)->0,
                    )
                },
    {
        let i = match self.position_by_verification_token(token) {
            Some(i) => i,
            None => return Err(AuthError::InvalidToken),
        };
        let u = self.user_at(i);
        let res = u.consume_verification(token, now);
        proof {
            let k = i as int;
            assert(res is Ok);
            lemma_wf_update(old(self)@, k, self@[k]);
            assert(spec_consume_verification(old(self)@[k], token@, now) is Some);
            assert(self@ =~= old(self)@.update(
                k,
                spec_consume_verification(old(self)@[k], token@, now)->0,
            ));
        }
        Ok(())
    }

    /// The forgot-password request: if a record carries this email, a
    /// reset token stamped `now` is issued on it and the updated
    /// record is handed back for the caller to mail. An unknown email
    /// changes nothing and reports nothing beyond `None`, so the
    /// response cannot reveal which accounts exist.
    pub fn forgot_password(&mut self, email: &str, now: u64) -> (r: Option<User>)
        requires
            old(self).wf(),
        ensures
            final(self).wf(),
            r is Some <==> has_email(old(self)@, email@),
            r is None ==> final(self)@ == old(self)@,
            r matches Some(u) ==> exists|i: int|
                {
                    &&& 0 <= i < old(self)@.len()
                    &&& (#[trigger] old(self)@[i]).email == email@
                    &&& u@ == (UserView { reset: u@.reset, ..old(self)@[i] })
                    &&& (u@.reset matches TokenState::Pending { token, stamp } && stamp == now
                        && token.len() == RESET_TOKEN_LENGTH)
                    &&& final(self)@ =~= old(self)@.update(i, u@)
                },
    {
        let i = match self.position_by_email(email) {
            Some(i) => i,
            None => return None,
        };
        let u = self.user_at(i);
        u.set_forgot_password_sent(now);
        let out = self.users[i].clone();
        proof {
            lemma_wf_update(old(self)@, i as int, out@);
            assert(final(self)@ =~= old(self)@.update(i as int, out@));
        }
        Some(out)
    }

    /// Consume a presented reset token together with the new password:
    /// on the record carrying exactly this token the password hash is
    /// replaced and the token cleared in one step. A missing token is
    /// `InvalidToken`; a hasher fault is `HashFailure` and leaves the
    /// token — and everything else — exactly as it was.
    pub fn reset_password_by_token(&mut self, token: &str, new_password: &str) -> (r: Result<
        (),
        AuthError,
    >)
        requires
            old(self).wf(),
        ensures
            final(self).wf(),
            r == Err::<(), AuthError>(AuthError::InvalidToken) <==> !has_reset_token(
                old(self)@,
                token@,
            ),
            r is Err ==> final(self)@ == old(self)@ && (r->Err_0 == AuthError::InvalidToken || r
                ->Err_0 == AuthError::HashFailure),
            r is Ok ==> exists|i: int|
                {
                    &&& 0 <= i < old(self)@.len()
                    &&& ((#[trigger] old(self)@[i]).reset matches TokenState::Pending {
                        token: t,
                        ..
                    } && t == token@)
                    &&& hash_matches(final(self)@[i].password_hash, new_password@)
                    &&& final(self)@ =~= old(self)@.update(
                        i,
                        (UserView {
                            password_hash: final(self)@[i].password_hash,
                            reset: TokenState::Absent,
                            ..old(self)@[i]
                        }),
                    )
                },
    {
        let i = match self.position_by_reset_token(token) {
            Some(i) => i,
            None => return Err(AuthError::InvalidToken),
        };
        let u = self.user_at(i);
        let res = u.consume_reset(token, new_password);
        match res {
            Ok(()) => {
                proof {
                    let k = i as int;
                    lemma_wf_update(old(self)@, k, self@[k]);
                    assert(final(self)@ =~= old(self)@.update(
                        k,
                        (UserView {
                            password_hash: self@[k].password_hash,
                            reset: TokenState::Absent,
                            ..old(self)@[k]
                        }),
                    ));
                }
                Ok(())
            },
            Err(e) => {
                proof {
                    assert(e == AuthError::HashFailure);
                    assert(final(self)@ =~= old(self)@);
                }
                Err(e)
            },
        }
    }

    /// The magic-link request: if a record carries this email, a
    /// magic-link token stamped `now` is issued on it and the updated
    /// record is handed back for the caller to mail. An unknown email
    /// changes nothing, again so that the response cannot reveal which
    /// accounts exist.
    pub fn magic_link_request(&mut self, email: &str, now: u64) -> (r: Option<User>)
        requires
            old(self).wf(),
            now + MAGIC_LINK_TTL_SECS <= u64::MAX,
        ensures
            final(self).wf(),
            r is Some <==> has_email(old(self)@, email@),
            r is None ==> final(self)@ == old(self)@,
            r matches Some(u) ==> exists|i: int|
                {
                    &&& 0 <= i < old(self)@.len()
                    &&& (#[trigger] old(self)@[i]).email == email@
                    &&& u@ == (UserView { magic_link: u@.magic_link, ..old(self)@[i] })
                    &&& (u@.magic_link matches TokenState::Pending { token, stamp } && stamp == now
                        && token.len() == MAGIC_LINK_LENGTH)
                    &&& final(self)@ =~= old(self)@.update(i, u@)
                },
    {
        let i = match self.position_by_email(email) {
            Some(i) => i,
            None => return None,
        };
        let u = self.user_at(i);
        u.create_magic_link(now);
        let out = self.users[i].clone();
        proof {
            lemma_wf_update(old(self)@, i as int, out@);
            assert(final(self)@ =~= old(self)@.update(i as int, out@));
        }
        Some(out)
    }

    /// Consume a presented magic-link token: on the first record
    /// carrying exactly this token, and only within the token's TTL
    /// window, the token is cleared and the record handed back. A
    /// wrong token and an expired one are the same `InvalidToken`,
    /// with nothing changed.
    pub fn consume_magic_link(&mut self, token: &str, now: u64) -> (r: Result<User, AuthError>)
        requires
            old(self).wf(),
        ensures
            final(self).wf(),
            r is Err ==> final(self)@ == old(self)@ && r->Err_0 == AuthError::InvalidToken,
            r is Ok <==> exists|i: int|
                {
                    &&& 0 <= i < old(self)@.len()
                    &&& spec_consume_magic_link(#[trigger] old(self)@[i], token@, now) is Some
                    &&& (forall|j: int|
                        0 <= j < i ==> !((#[trigger] old(self)@[j]).magic_link matches
                            TokenState::Pending { token: t, .. } && t == token@))
                },
            r matches Ok(u) ==> exists|i: int|
                {
                    &&& 0 <= i < old(self)@.len()
                    &&& spec_consume_magic_link(#[trigger] old(self)@[i], token@, now) == Some(u@)
                    &&& final(self)@ =~= old(self)@.update(i, u@)
                },
    {
        let i = match self.position_by_magic_link_token(token) {
            Some(i) => i,
            None => return Err(AuthError::InvalidToken),
        };
        let u = self.user_at(i);
        let res = u.consume_magic_link(token, now);
        match res {
            Ok(()) => {
                let out = self.users[i].clone();
                proof {
                    lemma_wf_update(old(self)@, i as int, out@);
                    assert(final(self)@ =~= old(self)@.update(i as int, out@));
                }
                Ok(out)
            },
            Err(_) => {
                proof {
                    assert(final(self)@ =~= old(self)@);
                }
                Err(AuthError::InvalidToken)
            },
        }
    }

    /// The resend-verification request. On an unverified record with
    /// this email a fresh verification token stamped `now` is issued —
    /// exactly one per call — and the updated record handed back for
    /// the caller to mail. On an already-verified record nothing is
    /// issued and nothing changes: `Ok(None)` says the one mail to
    /// send is none at all. An unknown email is the normal `NotFound`.
    pub fn resend_verification(&mut self, email: &str, now: u64) -> (r: Result<
        Option<User>,
        AuthError,
    >)
        requires
            old(self).wf(),
        ensures
            final(self).wf(),
            r is Err <==> !has_email(old(self)@, email@),
            r is Err ==> final(self)@ == old(self)@ && r->Err_0 == AuthError::NotFound,
            r == Ok::<Option<User>, AuthError>(None) <==> exists|i: int|
                0 <= i < old(self)@.len() && (#[trigger] old(self)@[i]).email == email@ && old(
                    self,
                )@[i].email_verified_at is Some,
            r == Ok::<Option<User>, AuthError>(None) ==> final(self)@ == old(self)@,
            r matches Ok(Some(u)) ==> exists|i: int|
                {
                    &&& 0 <= i < old(self)@.len()
                    &&& (#[trigger] old(self)@[i]).email == email@
                    &&& old(self)@[i].email_verified_at is None
                    &&& u@ == (UserView { verification: u@.verification, ..old(self)@[i] })
                    &&& (u@.verification matches TokenState::Pending { token, stamp } && stamp
                        == now && token.len() == EMAIL_VERIFICATION_TOKEN_LENGTH)
                    &&& final(self)@ =~= old(self)@.update(i, u@)
                },
    {
        let i = match self.position_by_email(email) {
            Some(i) => i,
            None => return Err(AuthError::NotFound),
        };
        if self.users[i].email_verified_at.is_some() {
            return Ok(None);
        }
        proof {
            assert forall|j: int|
                0 <= j < self@.len() && (#[trigger] self@[j]).email == email@ implies self@[j].email_verified_at is None by {
                lemma_email_unique(self@, i as int, j);
            }
        }
        let u = self.user_at(i);
        u.set_email_verification_sent(now);
        let out = self.users[i].clone();
        proof {
            lemma_wf_update(old(self)@, i as int, out@);
            assert(final(self)@ =~= old(self)@.update(i as int, out@));
        }
        Ok(Some(out))
    }
}

} // verus!
