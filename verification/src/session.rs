use vstd::prelude::*;

verus! {

/// The signed session token that `jsonwebtoken` produces for the
/// claims `{"exp": exp, "pid": pid}` under HS256 with `secret`. The
/// claim map is ordered, so the token is a function of these three
/// values alone.
pub uninterp spec fn jwt_of(pid: Seq<char>, exp: u64, secret: Seq<char>) -> Seq<char>;

/// Relies on `jsonwebtoken::encode` with `Header::default()` (HS256)
/// and `EncodingKey::from_secret`: it serializes the claim map (a
/// `serde_json::Map`, which keeps its keys sorted), base64url-encodes
/// header and claims, and signs them, deterministically in the inputs.
/// It cannot fail here: the key family is HMAC and matches the
/// header's algorithm, serializing this string/integer claim map
/// cannot error, and HMAC signing always succeeds, so the expect is
/// never reached.
#[verifier::external_body]
fn jwt_encode(pid: &str, exp: u64, secret: &str) -> (r: String)
    ensures
        r@ == jwt_of(pid@, exp, secret@),
{
    let mut claims = serde_json::Map::new();
    claims.insert("exp".to_string(), serde_json::Value::from(exp));
    claims.insert("pid".to_string(), serde_json::Value::from(pid));
    let key = jsonwebtoken::EncodingKey::from_secret(secret.as_bytes());
    let header = jsonwebtoken::Header::default();
    jsonwebtoken::encode(&header, &serde_json::Value::Object(claims), &key)
        .expect("HS256 encoding of a string/integer claim map cannot fail")
}

/// Relies on `jsonwebtoken::decode` with HS256 and signature
/// validation on (expiration is judged by the caller): a token that
/// `jsonwebtoken::encode` made from `{"exp": exp, "pid": pid}` with
/// the same secret decodes back to exactly those claims.
#[verifier::external_body]
fn jwt_decode(token: &str, secret: &str) -> (r: Option<(String, u64)>)
    ensures
        r is None ==> forall|pid: Seq<char>, exp: u64| token@ != jwt_of(pid, exp, secret@),
        r matches Some(c) ==> forall|pid: Seq<char>, exp: u64|
            token@ == jwt_of(pid, exp, secret@) ==> c.0@ == pid && c.1 == exp,
{
    let mut validation = jsonwebtoken::Validation::new(jsonwebtoken::Algorithm::HS256);
    validation.validate_exp = false;
    let key = jsonwebtoken::DecodingKey::from_secret(secret.as_bytes());
    let data = jsonwebtoken::decode::<serde_json::Value>(token, &key, &validation).ok()?;
    let pid = data.claims.get("pid").and_then(serde_json::Value::as_str)?.to_string();
    let exp = data.claims.get("exp").and_then(serde_json::Value::as_u64)?;
    Some((pid, exp))
}

/// Mint a session token for `pid`, signed with `secret` and expiring
/// `ttl` seconds after `now`. Minting always succeeds.
pub fn issue(pid: &str, secret: &str, now: u64, ttl: u64) -> (r: String)
    requires
        now + ttl <= u64::MAX,
    ensures
        r@ == jwt_of(pid@, (now + ttl) as u64, secret@),
{
    jwt_encode(pid, now + ttl, secret)
}

/// Validate a session token against `secret` at the moment `now` and
/// return the public identifier it carries. A token minted by `issue`
/// with the same secret is accepted exactly as long as its expiration
/// moment has not passed; past it, or under another secret, the token
/// is rejected.
pub fn validate(token: &str, secret: &str, now: u64) -> (r: Option<String>)
    ensures
        forall|pid: Seq<char>, exp: u64|
            token@ == jwt_of(pid, exp, secret@) && now <= exp ==> (r matches Some(p) && p@ == pid),
        forall|pid: Seq<char>, exp: u64|
            token@ == jwt_of(pid, exp, secret@) && now > exp ==> r is None,
{
    match jwt_decode(token, secret) {
        Some((pid, exp)) => {
            if now <= exp {
                Some(pid)
            } else {
                None
            }
        },
        None => None,
    }
}

} // verus!
