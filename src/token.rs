use vstd::prelude::*;

use std::collections::BTreeMap;

use crate::error::AppError;

verus! {

/// Lifetime of an issued token: seven days, in seconds.
pub const TOKEN_LIFETIME_SECONDS: usize = 604800;

/// Decoded payload of an authentication token: the caller's user id and the
/// token's validity window, as whole-second Unix timestamps.
#[derive(Debug)]
pub struct Claims {
    pub sub: String,
    pub exp: usize,
    pub iat: usize,
}

/// The token that jsonwebtoken's `encode` makes of the claims `{sub, exp, iat}`
/// under the default HS256 header and the HMAC key `secret`.
pub uninterp spec fn hs256_token(sub: Seq<char>, exp: int, iat: int, secret: Seq<char>) -> Seq<char>;

/// The claims `(sub, exp, iat)` that jsonwebtoken's `decode` reads from `token`
/// when its HS256 signature verifies under `secret`, its payload holds a
/// string `sub` and unsigned integers `exp` and `iat`, and it carries no `aud`
/// claim; `None` otherwise. Expiry is not compared here.
pub uninterp spec fn hs256_claims(token: Seq<char>, secret: Seq<char>) -> Option<(Seq<char>, int, int)>;

/// Relies on jsonwebtoken::encode with `Header::default()` (HS256) and
/// `EncodingKey::from_secret`: the signed token of the claims. With an HMAC key
/// and a string-keyed payload `encode` does not fail. A token so made decodes
/// under the same secret to the same claims.
#[verifier::external_body]
fn encode_hs256(claims: &Claims, secret: &str) -> (r: Option<String>)
    ensures
        r is Some,
        r matches Some(t) ==> t@ == hs256_token(claims.sub@, claims.exp as int, claims.iat as int, secret@),
        r matches Some(t) ==> hs256_claims(t@, secret@) == Some((claims.sub@, claims.exp as int, claims.iat as int)),
{
    let mut payload = BTreeMap::new();
    payload.insert("sub", serde_json::Value::from(claims.sub.as_str()));
    payload.insert("exp", serde_json::Value::from(claims.exp));
    payload.insert("iat", serde_json::Value::from(claims.iat));
    let key = jsonwebtoken::EncodingKey::from_secret(secret.as_bytes());
    jsonwebtoken::encode(&jsonwebtoken::Header::default(), &payload, &key).ok()
}

/// Relies on jsonwebtoken::decode with `Validation::new(Algorithm::HS256)`,
/// expiry left unchecked, and `DecodingKey::from_secret`: verifies the
/// signature and reads the `sub`, `exp` and `iat` claims.
#[verifier::external_body]
fn decode_hs256(token: &str, secret: &str) -> (r: Option<Claims>)
    ensures
        r matches Some(c) ==> hs256_claims(token@, secret@) == Some((c.sub@, c.exp as int, c.iat as int)),
        r is None ==> hs256_claims(token@, secret@) is None,
{
    let mut validation = jsonwebtoken::Validation::new(jsonwebtoken::Algorithm::HS256);
    validation.validate_exp = false;
    let key = jsonwebtoken::DecodingKey::from_secret(secret.as_bytes());
    let decoded = jsonwebtoken::decode::<BTreeMap<String, serde_json::Value>>(token, &key, &validation);
    let mut payload = decoded.ok()?.claims;
    let sub = serde_json::from_value(payload.remove("sub")?).ok()?;
    let exp = serde_json::from_value(payload.remove("exp")?).ok()?;
    let iat = serde_json::from_value(payload.remove("iat")?).ok()?;
    Some(Claims { sub, exp, iat })
}

/// Claims issued at `now` for `subject`, valid for `ttl` seconds.
pub open spec fn issued(c: Claims, subject: Seq<char>, now: int, ttl: int) -> bool {
    &&& c.sub@ == subject
    &&& c.iat as int == now
    &&& c.exp as int == now + ttl
}

/// Claims are accepted at `now` only while `now` is before their expiry.
pub open spec fn accepted_at(c: Claims, now: int) -> bool {
    now < c.exp as int
}

/// Relies on chrono's `From<SystemTime> for DateTime<Utc>` and
/// `DateTime::timestamp`: the current time as whole seconds since the Unix
/// epoch, negative for a clock set before it. Nothing is known of the value.
#[verifier::external_body]
pub(crate) fn current_timestamp() -> (r: i64) {
    chrono::DateTime::<chrono::Utc>::from(std::time::SystemTime::now()).timestamp()
}

/// Builds the claims of a token for `subject`, issued at `now` and valid for `ttl` seconds.
pub fn issue_claims(subject: &str, now: usize, ttl: usize) -> (r: Claims)
    requires
        now + ttl <= usize::MAX,
    ensures
        issued(r, subject@, now as int, ttl as int),
{
    Claims { sub: subject.to_owned(), exp: now + ttl, iat: now }
}

/// The verdict on decoded claims at time `now`: accepted before their expiry,
/// refused with "Invalid token" from the expiry second on.
pub fn check_claims(claims: Claims, now: i64) -> (r: Result<Claims, String>)
    ensures
        accepted_at(claims, now as int) ==> r == Ok::<Claims, String>(claims),
        !accepted_at(claims, now as int) ==> (r matches Err(m) && m@ == "Invalid token"@),
{
    if now >= 0 && now as u64 >= claims.exp as u64 {
        Err("Invalid token".to_owned())
    } else {
        Ok(claims)
    }
}

/// What verifying `token` under `secret` at time `now` yields: the decoded
/// claims while `now` is before their expiry, nothing otherwise.
pub open spec fn token_verdict(token: Seq<char>, secret: Seq<char>, now: int) -> Option<
    (Seq<char>, int, int),
> {
    match hs256_claims(token, secret) {
        Some(v) => if now < v.1 {
            Some(v)
        } else {
            None
        },
        None => None,
    }
}

/// Signs a token for `subject`, issued at `now` and valid for `ttl` seconds.
pub fn issue_token(subject: &str, secret: &str, now: usize, ttl: usize) -> (r: String)
    requires
        now + ttl <= usize::MAX,
    ensures
        r@ == hs256_token(subject@, now + ttl, now as int, secret@),
        hs256_claims(r@, secret@) == Some((subject@, now + ttl, now as int)),
        forall|at: int|
            #[trigger] token_verdict(r@, secret@, at) == if at < now + ttl {
                Some((subject@, now + ttl, now as int))
            } else {
                None
            },
{
    let claims = issue_claims(subject, now, ttl);
    encode_hs256(&claims, secret).unwrap()
}

/// Signs a seven-day token for `user_id` issued at `now`. A time before the
/// epoch, or an expiry past the integer range, cannot be written in the claims
/// and fails.
pub fn issue_token_at(user_id: &str, secret: &str, now: i64) -> (r: Result<String, AppError>)
    ensures
        (0 <= now && now + TOKEN_LIFETIME_SECONDS <= usize::MAX) <==> r is Ok,
        r matches Ok(t) ==> t@ == hs256_token(
            user_id@,
            now + TOKEN_LIFETIME_SECONDS,
            now as int,
            secret@,
        ),
        r matches Ok(t) ==> hs256_claims(t@, secret@) == Some(
            (user_id@, now + TOKEN_LIFETIME_SECONDS, now as int),
        ),
        r matches Err(e) ==> (e matches AppError::AuthError(m) && m@ == "Failed to generate token"@),
{
    if now < 0 || now as u64 > (usize::MAX - TOKEN_LIFETIME_SECONDS) as u64 {
        return Err(AppError::AuthError("Failed to generate token".to_owned()));
    }
    Ok(issue_token(user_id, secret, now as usize, TOKEN_LIFETIME_SECONDS))
}

/// Signs a seven-day token for `user_id`, issued now.
pub fn generate_jwt(user_id: &str, secret: &str) -> (r: Result<String, AppError>)
    ensures
        r matches Ok(t) ==> (hs256_claims(t@, secret@) matches Some(v) && v.0 == user_id@ && v.1
            == v.2 + TOKEN_LIFETIME_SECONDS),
        r matches Err(e) ==> (e matches AppError::AuthError(m) && m@ == "Failed to generate token"@),
{
    issue_token_at(user_id, secret, current_timestamp())
}

/// Verifies `token` under `secret` at time `now`: the signature and structure
/// must check, and `now` must be before the expiry. Any failure is "Invalid token".
pub fn verify_jwt_at(token: &str, secret: &str, now: i64) -> (r: Result<Claims, String>)
    ensures
        r matches Ok(c) ==> token_verdict(token@, secret@, now as int) == Some(
            (c.sub@, c.exp as int, c.iat as int),
        ),
        r is Err ==> token_verdict(token@, secret@, now as int) is None,
        r matches Err(m) ==> m@ == "Invalid token"@,
{
    match decode_hs256(token, secret) {
        Some(c) => check_claims(c, now),
        None => Err("Invalid token".to_owned()),
    }
}

/// Verifies `token` under `secret` at the current time.
pub fn verify_jwt(token: &str, secret: &str) -> (r: Result<Claims, String>)
    ensures
        r matches Ok(c) ==> hs256_claims(token@, secret@) == Some((c.sub@, c.exp as int, c.iat as int)),
        hs256_claims(token@, secret@) is None ==> r is Err,
        r matches Err(m) ==> m@ == "Invalid token"@,
{
    verify_jwt_at(token, secret, current_timestamp())
}

/// A token whose claims decode to `subject`, issued at `now` with lifetime
/// `ttl`, as `issue_token` makes them, verifies with that subject at every
/// time before `now + ttl` and fails at every time from then on.
pub proof fn lemma_issued_token_lifetime(
    token: Seq<char>,
    secret: Seq<char>,
    subject: Seq<char>,
    now: int,
    ttl: int,
    at: int,
)
    requires
        hs256_claims(token, secret) == Some((subject, now + ttl, now)),
    ensures
        token_verdict(token, secret, at) is Some <==> at < now + ttl,
        token_verdict(token, secret, at) matches Some(v) ==> v.0 == subject,
{
}

/// Verification fails whatever the time whenever the signature does not check
/// under the secret in use, or the token is malformed.
pub proof fn lemma_bad_signature_rejected(token: Seq<char>, secret: Seq<char>, at: int)
    requires
        hs256_claims(token, secret) is None,
    ensures
        token_verdict(token, secret, at) is None,
{
}

} // verus!
