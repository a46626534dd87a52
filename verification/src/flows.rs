use vstd::prelude::*;

use crate::errors::AuthError;
use crate::hashing::hash_matches;
use crate::session;
use crate::session::jwt_of;
use crate::store::{has_pid, lemma_email_unique, UserStore};
use crate::tokens::TokenState;
use crate::users::spec_consume_magic_link;
use crate::views::{CurrentResponse, LoginResponse};

verus! {

/// The login flow: look the account up by email, check the password
/// against the stored hash, and mint a session token. Login succeeds
/// exactly when some record carries the email and its hash matches
/// the password; an unknown email and a wrong password are one and
/// the same `Unauthorized`, so the response cannot reveal which
/// accounts exist.
pub fn login(
    store: &UserStore,
    email: &str,
    password: &str,
    secret: &str,
    now: u64,
    ttl: u64,
) -> (r: Result<LoginResponse, AuthError>)
    requires
        store.wf(),
        now + ttl <= u64::MAX,
    ensures
        r matches Ok(resp) ==> exists|i: int|
            {
                &&& 0 <= i < store@.len()
                &&& (#[trigger] store@[i]).email == email@
                &&& hash_matches(store@[i].password_hash, password@)
                &&& resp.pid@ == store@[i].pid
                &&& resp.name@ == store@[i].name
                &&& resp.email@ == store@[i].email
                &&& resp.is_verified == (store@[i].email_verified_at is Some)
                &&& resp.token@ == jwt_of(store@[i].pid, (now + ttl) as u64, secret@)
            },
        r is Err <==> !(exists|i: int|
            0 <= i < store@.len() && (#[trigger] store@[i]).email == email@ && hash_matches(
                store@[i].password_hash,
                password@,
            )),
        r is Err ==> r->Err_0 == AuthError::Unauthorized,
{
    let user = match store.find_by_email(email) {
        Ok(u) => u,
        Err(_) => {
            proof {
                if exists|i: int|
                    0 <= i < store@.len() && (#[trigger] store@[i]).email == email@
                        && hash_matches(store@[i].password_hash, password@) {
                    let i = choose|i: int|
                        0 <= i < store@.len() && (#[trigger] store@[i]).email == email@
                            && hash_matches(store@[i].password_hash, password@);
                    assert(crate::store::has_email(store@, email@));
                }
            }
            return Err(AuthError::Unauthorized);
        },
    };
    if !user.verify_password(password) {
        proof {
            let k = choose|k: int|
                0 <= k < store@.len() && #[trigger] store@[k] == user@ && user@.email == email@;
            if exists|j: int|
                0 <= j < store@.len() && (#[trigger] store@[j]).email == email@ && hash_matches(
                    store@[j].password_hash,
                    password@,
                ) {
                let j = choose|j: int|
                    0 <= j < store@.len() && (#[trigger] store@[j]).email == email@
                        && hash_matches(store@[j].password_hash, password@);
                lemma_email_unique(store@, k, j);
            }
        }
        return Err(AuthError::Unauthorized);
    }
    let token = user.generate_jwt(secret, now, ttl);
    Ok(LoginResponse::new(&user, &token))
}

/// The authenticated "who am I" flow: validate the bearer session
/// token at the moment `now` and look the account up by the public
/// identifier the token carries. A bad, expired or unmatched token is
/// `Unauthorized`; a valid token of a stored account always succeeds.
pub fn current_user(store: &UserStore, token: &String, secret: &str, now: u64) -> (r: Result<
    CurrentResponse,
    AuthError,
>)
    requires
        store.wf(),
    ensures
        r matches Ok(resp) ==> resp.token@ == token@ && exists|i: int|
            0 <= i < store@.len() && (#[trigger] store@[i]).pid == resp.pid@ && resp.name@
                == store@[i].name && resp.email@ == store@[i].email,
        forall|pid: Seq<char>, exp: u64|
            token@ == jwt_of(pid, exp, secret@) && now <= exp && has_pid(store@, pid) ==> r is Ok,
        r is Err ==> r->Err_0 == AuthError::Unauthorized,
{
    let pid = match session::validate(token.as_str(), secret, now) {
        Some(p) => p,
        None => return Err(AuthError::Unauthorized),
    };
    let user = match store.find_by_pid(pid.as_str()) {
        Ok(u) => u,
        Err(_) => {
            proof {
                assert forall|p: Seq<char>, exp: u64|
                    token@ == jwt_of(p, exp, secret@) && now <= exp implies !has_pid(
                    store@,
                    p,
                ) by {
                    assert(pid@ == p);
                }
            }
            return Err(AuthError::Unauthorized);
        },
    };
    Ok(CurrentResponse::new(&user, token))
}

/// The passwordless login flow: consume the presented magic-link
/// token — single-use, and only within its TTL window — and mint a
/// session token for the record that carried it. Login succeeds
/// exactly when the first record carrying the token would accept it;
/// a wrong and an expired link are the same `InvalidToken`, with the
/// store left as it was.
pub fn magic_link_login(
    store: &mut UserStore,
    token: &str,
    secret: &str,
    now: u64,
    ttl: u64,
) -> (r: Result<LoginResponse, AuthError>)
    requires
        old(store).wf(),
        now + ttl <= u64::MAX,
    ensures
        final(store).wf(),
        r is Err ==> final(store)@ == old(store)@ && r->Err_0 == AuthError::InvalidToken,
        r is Ok <==> exists|i: int|
            {
                &&& 0 <= i < old(store)@.len()
                &&& spec_consume_magic_link(#[trigger] old(store)@[i], token@, now) is Some
                &&& (forall|j: int|
                    0 <= j < i ==> !((#[trigger] old(store)@[j]).magic_link matches
                        TokenState::Pending { token: t, .. } && t == token@))
            },
        r matches Ok(resp) ==> exists|i: int|
            {
                &&& 0 <= i < old(store)@.len()
                &&& spec_consume_magic_link(#[trigger] old(store)@[i], token@, now) is Some
                &&& final(store)@ =~= old(store)@.update(
                    i,
                    spec_consume_magic_link(old(store)@[i], token@, now)->0,
                )
                &&& resp.pid@ == old(store)@[i].pid
                &&& resp.name@ == old(store)@[i].name
                &&& resp.email@ == old(store)@[i].email
                &&& resp.token@ == jwt_of(old(store)@[i].pid, (now + ttl) as u64, secret@)
            },
{
    let user = match store.consume_magic_link(token, now) {
        Ok(u) => u,
        Err(_) => return Err(AuthError::InvalidToken),
    };
    let jwt = user.generate_jwt(secret, now, ttl);
    let resp = LoginResponse::new(&user, &jwt);
    proof {
        let i = choose|i: int|
            {
                &&& 0 <= i < old(store)@.len()
                &&& spec_consume_magic_link(#[trigger] old(store)@[i], token@, now) == Some(user@)
                &&& final(store)@ =~= old(store)@.update(i, user@)
            };
        assert(spec_consume_magic_link(old(store)@[i], token@, now) is Some);
    }
    Ok(resp)
}

} // verus!
