//! The token service: issuing and verifying signed, time-bounded identity
//! tokens (HMAC-SHA256 compact tokens via jsonwebtoken). Verification is
//! stateless; the caller supplies the signing secret and the clock.

use vstd::prelude::*;
use crate::errors::AppError;

verus! {

/// The decoded payload of an identity token: an opaque subject and the
/// issue and expiry instants in epoch seconds. `expires_at > issued_at`
/// holds of every token this service issues.
#[derive(Debug, Clone, PartialEq, Eq)]
pub struct Claims {
    pub sub: String,
    pub exp: i64,
    pub iat: i64,
}

/// How long an issued token stays valid, in seconds (24 hours).
pub const TOKEN_LIFETIME_SECONDS: i64 = 86400;

/// The claims that signature-checked decoding recovers from a token under
/// a given secret: `None` when the token is malformed, carries another
/// algorithm, fails the signature check, or lacks one of the subject,
/// expiry or issue claims. A deterministic function of the two strings.
pub uninterp spec fn jwt_payload(token: Seq<char>, secret: Seq<char>) -> Option<
    (Seq<char>, int, int),
>;

/// A decimal digit as a character.
pub open spec fn spec_dec_digit(d: int) -> char {
    seq!['0', '1', '2', '3', '4', '5', '6', '7', '8', '9'][d]
}

/// The decimal representation of a non-negative integer.
pub open spec fn spec_udec(n: nat) -> Seq<char>
    decreases n,
{
    if n < 10 {
        seq![spec_dec_digit(n as int)]
    } else {
        spec_udec(n / 10) + seq![spec_dec_digit((n % 10) as int)]
    }
}

/// The decimal representation of an integer, with a leading '-' when
/// negative.
pub open spec fn spec_i64_dec(n: int) -> Seq<char> {
    if n < 0 {
        seq!['-'] + spec_udec((-n) as nat)
    } else {
        spec_udec(n as nat)
    }
}

/// Relies on the std Display implementation for i64: the decimal
/// representation of the value, with a leading '-' when negative.
#[verifier::external_body]
fn i64_to_string(n: i64) -> (s: String)
    ensures
        s@ == spec_i64_dec(n as int),
{
    n.to_string()
}

/// Relies on jsonwebtoken::encode with the default header (HS256): the
/// result is a non-empty compact token whose signature-checked decoding
/// under the same secret recovers exactly the claims given here. The
/// expiry must be non-negative, as the decoder reads the expiry claim as
/// an unsigned number. Signing always succeeds: HMAC-SHA256 accepts a
/// secret of any length, and serializing these claims cannot fail.
#[verifier::external_body]
fn jwt_encode(sub: &str, exp: i64, iat: i64, secret: &str) -> (r: Option<String>)
    requires
        0 <= exp,
    ensures
        r is Some,
        r matches Some(t) ==> t@.len() > 0 && jwt_payload(t@, secret@) == Some(
            (sub@, exp as int, iat as int),
        ),
{
    let key = jsonwebtoken::EncodingKey::from_secret(secret.as_bytes());
    let mut claims = serde_json::Map::new();
    claims.insert("sub".to_string(), serde_json::Value::from(sub));
    claims.insert("exp".to_string(), serde_json::Value::from(exp));
    claims.insert("iat".to_string(), serde_json::Value::from(iat));
    let payload = serde_json::Value::Object(claims);
    jsonwebtoken::encode(&jsonwebtoken::Header::default(), &payload, &key).ok()
}

/// Relies on jsonwebtoken::decode restricted to HS256 with time-based
/// validation turned off: it checks the token's structure and signature
/// against the secret and hands back the subject, expiry and issue claims,
/// erring on any malformed or mis-signed token. The expiry comparison is
/// done by the verified caller, so the result depends on the token and the
/// secret alone.
#[verifier::external_body]
fn jwt_decode(token: &str, secret: &str) -> (r: Option<(String, i64, i64)>)
    ensures
        r matches Some(c) ==> jwt_payload(token@, secret@) == Some((c.0@, c.1 as int, c.2 as int)),
        r is None ==> jwt_payload(token@, secret@) is None,
{
    let key = jsonwebtoken::DecodingKey::from_secret(secret.as_bytes());
    let mut validation = jsonwebtoken::Validation::new(jsonwebtoken::Algorithm::HS256);
    validation.validate_exp = false;
    validation.validate_aud = false;
    let data = jsonwebtoken::decode::<serde_json::Value>(token, &key, &validation).ok()?;
    let sub = data.claims.get("sub")?.as_str()?.to_string();
    let exp = data.claims.get("exp")?.as_i64()?;
    let iat = data.claims.get("iat")?.as_i64()?;
    Some((sub, exp, iat))
}

/// The outcome token verification is specified to produce at a given
/// instant: the decoded claims when the signature checks out, the subject
/// is non-empty and the token has not expired; nothing otherwise, with no
/// word on which check failed.
pub open spec fn spec_verify_jwt(token: Seq<char>, secret: Seq<char>, now: int) -> Option<
    (Seq<char>, int, int),
> {
    match jwt_payload(token, secret) {
        Some((sub, exp, iat)) => if sub.len() > 0 && now < exp {
            Some((sub, exp, iat))
        } else {
            None
        },
        None => None,
    }
}

/// Issues a token for a subject id: claims are the decimal subject,
/// `issued_at = now` and `expires_at = now + 24h`, signed with the secret.
/// Succeeds exactly when a secret is configured: an unconfigured (empty)
/// secret is surfaced as an internal failure rather than signing with it.
pub fn create_jwt(user_id: i64, secret: &str, now: i64) -> (r: Result<String, AppError>)
    requires
        0 <= now <= i64::MAX - TOKEN_LIFETIME_SECONDS,
    ensures
        r is Ok <==> secret@.len() > 0,
        r matches Ok(t) ==> t@.len() > 0 && jwt_payload(t@, secret@) == Some(
            (spec_i64_dec(user_id as int), now + TOKEN_LIFETIME_SECONDS, now as int),
        ),
        r matches Err(e) ==> e == AppError::InternalError,
{
    if secret.is_empty() {
        return Err(AppError::InternalError);
    }
    let sub = i64_to_string(user_id);
    let exp = now + TOKEN_LIFETIME_SECONDS;
    match jwt_encode(sub.as_str(), exp, now, secret) {
        Some(t) => Ok(t),
        None => Err(AppError::InternalError),
    }
}

/// Verifies a token at a given instant. Fails closed with one uniform
/// authorization error — malformed encoding, signature mismatch, expiry
/// and an empty subject are indistinguishable to the caller.
pub fn verify_jwt(token: &str, secret: &str, now: i64) -> (r: Result<Claims, AppError>)
    ensures
        r matches Ok(c) ==> spec_verify_jwt(token@, secret@, now as int) == Some(
            (c.sub@, c.exp as int, c.iat as int),
        ),
        r is Ok <==> spec_verify_jwt(token@, secret@, now as int) is Some,
        r matches Err(e) ==> e matches AppError::AuthorizationError(m) && m@ == "Invalid token"@,
{
    match jwt_decode(token, secret) {
        Some((sub, exp, iat)) => {
            if !sub.as_str().is_empty() && now < exp {
                Ok(Claims { sub, exp, iat })
            } else {
                Err(AppError::AuthorizationError("Invalid token".to_owned()))
            }
        },
        None => Err(AppError::AuthorizationError("Invalid token".to_owned())),
    }
}

/// Law: a token whose payload decodes to a non-empty subject verifies as
/// long as the clock has not reached its expiry, yielding exactly that
/// payload, and fails once the expiry horizon has passed.
pub proof fn lemma_issue_then_verify(
    token: Seq<char>,
    secret: Seq<char>,
    sub: Seq<char>,
    exp: int,
    iat: int,
    now: int,
)
    requires
        jwt_payload(token, secret) == Some((sub, exp, iat)),
        sub.len() > 0,
    ensures
        now < exp ==> spec_verify_jwt(token, secret, now) == Some((sub, exp, iat)),
        now >= exp ==> spec_verify_jwt(token, secret, now) is None,
{
}

} // verus!
