use vstd::prelude::*;

verus! {

#[verifier::external_type_specification]
#[verifier::external_body]
pub struct ExJwtError(jsonwebtoken::errors::Error);

/// Seconds past `exp` for which a token is still accepted.
pub const LEEWAY_SECONDS: u64 = 30;

/// The signed payload of a bearer token.
#[derive(Debug, Clone)]
pub struct Claims {
    /// The account the token was issued to.
    pub sub: String,
    /// The issuing server.
    pub iss: String,
    /// Issued at, seconds since the epoch.
    pub iat: i64,
    /// Expiry, seconds since the epoch.
    pub exp: i64,
    /// A random identifier of this token.
    pub jti: String,
}

/// `iat + duration`, held to the range of `i64`.
pub open spec fn expiry(iat: i64, duration: i64) -> i64 {
    let e = iat + duration;
    if e > i64::MAX {
        i64::MAX
    } else if e < i64::MIN {
        i64::MIN
    } else {
        e as i64
    }
}

/// The compact token that jsonwebtoken's `encode` produces for a payload with
/// these claims, signed with HS256 under `secret`.
pub uninterp spec fn signed_token(
    sub: Seq<char>,
    iss: Seq<char>,
    iat: i64,
    exp: i64,
    jti: Seq<char>,
    secret: Seq<char>,
) -> Seq<char>;

/// The subject and expiry that jsonwebtoken's `decode` reads from `token`
/// when its HS256 signature verifies under `secret` and it names issuer `iss`,
/// the expiry not checked against any clock; `None` when decoding fails, when
/// the token names no issuer or another one, or when the payload has no
/// string `sub` or no integer `exp`.
pub uninterp spec fn token_claims(token: Seq<char>, iss: Seq<char>, secret: Seq<char>) -> Option<(Seq<char>, i64)>;

/// The subject that decoded claims yield at time `now`: the claims are
/// accepted until their expiry plus the leeway.
pub open spec fn accepted_subject(claims: Option<(Seq<char>, i64)>, now: i64) -> Option<Seq<char>> {
    match claims {
        Some((sub, exp)) => if now <= exp + LEEWAY_SECONDS {
            Some(sub)
        } else {
            None
        },
        None => None,
    }
}

/// Relies on chrono's `Utc::now().timestamp()`: the current time in whole
/// seconds since the epoch. Nothing is known of the value.
#[verifier::external_body]
pub(crate) fn now_timestamp() -> (r: i64) {
    chrono::Utc::now().timestamp()
}

/// Relies on uuid's `Uuid::new_v4` and its hyphenated text form, which is 36
/// characters long.
#[verifier::external_body]
pub(crate) fn new_uuid_string() -> (r: String)
    ensures
        r@.len() == 36,
{
    uuid::Uuid::new_v4().to_string()
}

/// Relies on jsonwebtoken's `encode` with the default (HS256) header and a
/// key made from the secret's bytes; the payload is the JSON object of the
/// five claims. With an HMAC key, encoding and signing cannot fail, and the
/// result is a non-empty `header.payload.signature` text. Decoding it under
/// the same secret and issuer verifies and reads the subject and expiry back,
/// unless the expiry is negative, which the required `exp` claim (a `u64`)
/// refuses. Decoding it under any other issuer is refused.
#[verifier::external_body]
fn sign_claims(c: &Claims, secret: &str) -> (r: Result<String, jsonwebtoken::errors::Error>)
    ensures
        r is Ok,
        r matches Ok(t) ==> t@ == signed_token(c.sub@, c.iss@, c.iat, c.exp, c.jti@, secret@),
        r matches Ok(t) ==> t@.len() > 0,
        r matches Ok(t) ==> (c.exp >= 0 ==> token_claims(t@, c.iss@, secret@) == Some((c.sub@, c.exp))),
        r matches Ok(t) ==> (c.exp < 0 ==> token_claims(t@, c.iss@, secret@) is None),
        r matches Ok(t) ==> (forall|y: Seq<char>| y != c.iss@ ==> (#[trigger] token_claims(t@, y, secret@)) is None),
{
    let payload = std::collections::BTreeMap::from([
        ("sub", serde_json::Value::from(c.sub.as_str())),
        ("iss", serde_json::Value::from(c.iss.as_str())),
        ("iat", serde_json::Value::from(c.iat)),
        ("exp", serde_json::Value::from(c.exp)),
        ("jti", serde_json::Value::from(c.jti.as_str())),
    ]);
    let key = jsonwebtoken::EncodingKey::from_secret(secret.as_bytes());
    jsonwebtoken::encode(&jsonwebtoken::Header::default(), &payload, &key)
}

/// Relies on jsonwebtoken's `decode` (HS256, key from the secret's bytes,
/// `iss` and `exp` required, the issuer equal to `iss`, `exp` not compared
/// with the clock): the payload's `sub` and `exp` when the token verifies and
/// both are there with those types.
#[verifier::external_body]
fn read_claims(token: &str, iss: &str, secret: &str) -> (r: Result<Option<(String, i64)>, jsonwebtoken::errors::Error>)
    ensures
        r matches Ok(Some((sub, exp))) ==> token_claims(token@, iss@, secret@) == Some((sub@, exp)),
        !(r matches Ok(Some(_))) ==> token_claims(token@, iss@, secret@) is None,
{
    let mut validation = jsonwebtoken::Validation::default();
    validation.validate_exp = false;
    validation.set_issuer(&[iss]);
    validation.set_required_spec_claims(&["exp", "iss"]);
    let key = jsonwebtoken::DecodingKey::from_secret(secret.as_bytes());
    let data = jsonwebtoken::decode::<std::collections::BTreeMap<String, serde_json::Value>>(token, &key, &validation)?;
    let sub = data.claims.get("sub").and_then(serde_json::Value::as_str);
    let exp = data.claims.get("exp").and_then(serde_json::Value::as_i64);
    Ok(sub.zip(exp).map(|(s, e)| (s.to_owned(), e)))
}

impl Claims {
    /// The claims of a token issued to `sub` by `iss` at `iat`, valid for
    /// `duration_seconds`.
    pub fn issue(sub: &str, iss: &str, iat: i64, duration_seconds: i64, jti: String) -> (r: Claims)
        ensures
            r.sub@ == sub@,
            r.iss@ == iss@,
            r.iat == iat,
            r.exp == expiry(iat, duration_seconds),
            r.jti == jti,
    {
        let exp: i64 = match iat.checked_add(duration_seconds) {
            Some(e) => e,
            None => if duration_seconds > 0 { i64::MAX } else { i64::MIN },
        };
        Claims { sub: sub.to_owned(), iss: iss.to_owned(), iat, exp, jti }
    }

    /// Fresh claims for `sub`: issued now, expiring `duration_seconds` later,
    /// with a random token id.
    pub fn new(sub: &str, iss: &str, duration_seconds: i64) -> (r: Claims)
        ensures
            r.sub@ == sub@,
            r.iss@ == iss@,
            r.exp == expiry(r.iat, duration_seconds),
            r.jti@.len() == 36,
    {
        let now = now_timestamp();
        Claims::issue(sub, iss, now, duration_seconds, new_uuid_string())
    }
}

/// The signed token for `claims` under `secret`.
pub fn encode(claims: &Claims, secret: &str) -> (r: Result<String, jsonwebtoken::errors::Error>)
    ensures
        r matches Ok(t) && t@ == signed_token(
            claims.sub@,
            claims.iss@,
            claims.iat,
            claims.exp,
            claims.jti@,
            secret@,
        ) && t@.len() > 0 && token_claims(t@, claims.iss@, secret@) == (if claims.exp >= 0 {
            Some((claims.sub@, claims.exp))
        } else {
            None
        }) && (forall|y: Seq<char>| y != claims.iss@ ==> (#[trigger] token_claims(t@, y, secret@)) is None),
{
    sign_claims(claims, secret)
}

/// The subject and expiry of a token that verifies under `secret` and names
/// issuer `iss`, its expiry not yet compared with any clock.
pub fn claims_of(token: &str, iss: &str, secret: &str) -> (r: Option<(String, i64)>)
    ensures
        match r {
            Some((sub, exp)) => token_claims(token@, iss@, secret@) == Some((sub@, exp)),
            None => token_claims(token@, iss@, secret@) is None,
        },
{
    match read_claims(token, iss, secret) {
        Ok(Some(c)) => Some(c),
        _ => None,
    }
}

/// The subject of decoded claims if they are still accepted at time `now`:
/// no later than the expiry plus the leeway.
pub fn accept(claims: Option<(String, i64)>, now: i64) -> (r: Option<String>)
    ensures
        match r {
            Some(s) => accepted_subject(
                match claims {
                    Some((sub, exp)) => Some((sub@, exp)),
                    None => None,
                },
                now,
            ) == Some(s@),
            None => accepted_subject(
                match claims {
                    Some((sub, exp)) => Some((sub@, exp)),
                    None => None,
                },
                now,
            ) is None,
        },
{
    match claims {
        Some((sub, exp)) => if (now as i128) <= (exp as i128) + (LEEWAY_SECONDS as i128) {
            Some(sub)
        } else {
            None
        },
        None => None,
    }
}

/// The account named by a bearer token at time `now`, or `None` when the
/// token does not verify (bad signature or format, other issuer, no subject
/// or expiry) or is expired past the leeway.
pub fn decode_at(token: &str, iss: &str, secret: &str, now: i64) -> (r: Option<String>)
    ensures
        match r {
            Some(s) => accepted_subject(token_claims(token@, iss@, secret@), now) == Some(s@),
            None => accepted_subject(token_claims(token@, iss@, secret@), now) is None,
        },
{
    accept(claims_of(token, iss, secret), now)
}

/// The account named by a bearer token now, or `None` when it does not
/// verify or has expired past the leeway.
pub fn decode(token: &str, iss: &str, secret: &str) -> (r: Option<String>)
    ensures
        r matches Some(s) ==> token_claims(token@, iss@, secret@) matches Some((sub, exp)) && s@ == sub,
        token_claims(token@, iss@, secret@) is None ==> r is None,
{
    decode_at(token, iss, secret, now_timestamp())
}

} // verus!
