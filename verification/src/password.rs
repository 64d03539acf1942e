//! The credential hasher: the password strength policy, and one-way
//! hashing and verification of passwords on top of bcrypt.

use vstd::prelude::*;
use crate::errors::AppError;

verus! {

/// Whether a character has the Unicode uppercase property; decided by
/// `char::is_uppercase`.
pub uninterp spec fn upper_char(c: char) -> bool;

/// Whether a character has the Unicode lowercase property; decided by
/// `char::is_lowercase`.
pub uninterp spec fn lower_char(c: char) -> bool;

/// Whether a character counts as Unicode whitespace; decided by
/// `char::is_whitespace`.
pub uninterp spec fn space_char(c: char) -> bool;

/// An ASCII decimal digit.
pub open spec fn digit_char(c: char) -> bool {
    48 <= c as u32 <= 57
}

/// Relies on char::is_uppercase: the Unicode uppercase property of the
/// character alone.
#[verifier::external_body]
fn char_is_uppercase(c: char) -> (r: bool)
    ensures
        r == upper_char(c),
{
    c.is_uppercase()
}

/// Relies on char::is_lowercase: the Unicode lowercase property of the
/// character alone.
#[verifier::external_body]
fn char_is_lowercase(c: char) -> (r: bool)
    ensures
        r == lower_char(c),
{
    c.is_lowercase()
}

/// Relies on char::is_whitespace: the Unicode whitespace property of the
/// character alone.
#[verifier::external_body]
fn char_is_whitespace(c: char) -> (r: bool)
    ensures
        r == space_char(c),
{
    c.is_whitespace()
}

/// The strength policy: at least eight characters, no whitespace, and at
/// least one uppercase letter, one lowercase letter and one decimal digit.
pub open spec fn spec_password_strong(s: Seq<char>) -> bool {
    &&& s.len() >= 8
    &&& forall|i: int| 0 <= i < s.len() ==> !space_char(#[trigger] s[i])
    &&& exists|i: int| 0 <= i < s.len() && upper_char(#[trigger] s[i])
    &&& exists|i: int| 0 <= i < s.len() && lower_char(#[trigger] s[i])
    &&& exists|i: int| 0 <= i < s.len() && digit_char(#[trigger] s[i])
}

/// Decides the strength policy for a plaintext password.
pub fn is_password_valid(s: &str) -> (r: bool)
    ensures
        r == spec_password_strong(s@),
{
    let n = s.unicode_len();
    let mut has_space = false;
    let mut has_upper = false;
    let mut has_lower = false;
    let mut has_digit = false;
    let mut i: usize = 0;
    while i < n
        invariant
            i <= n,
            n == s@.len(),
            has_space == exists|j: int| 0 <= j < i && space_char(#[trigger] s@[j]),
            has_upper == exists|j: int| 0 <= j < i && upper_char(#[trigger] s@[j]),
            has_lower == exists|j: int| 0 <= j < i && lower_char(#[trigger] s@[j]),
            has_digit == exists|j: int| 0 <= j < i && digit_char(#[trigger] s@[j]),
        decreases n - i,
    {
        let c = s.get_char(i);
        has_space = has_space || char_is_whitespace(c);
        has_upper = has_upper || char_is_uppercase(c);
        has_lower = has_lower || char_is_lowercase(c);
        has_digit = has_digit || { let v = c as u32; 48 <= v && v <= 57 };
        i = i + 1;
    }
    !has_space && has_upper && has_lower && has_digit && n >= 8
}

/// What `bcrypt::verify` decides for a password and a stored hash: `None`
/// when the stored hash is not a well-formed bcrypt string, otherwise
/// whether the hash was derived from the password. A deterministic
/// function of the two strings alone.
pub uninterp spec fn bcrypt_verifies(password: Seq<char>, hash: Seq<char>) -> Option<bool>;

/// Relies on bcrypt::hash with DEFAULT_COST: the result is a 60-character
/// hash string that bcrypt::verify parses and matches against the same
/// password. The salt is drawn from the OS, so nothing more is stated of
/// the value; `None` only on failure of the OS randomness source.
#[verifier::external_body]
fn bcrypt_hash(password: &str) -> (r: Option<String>)
    ensures
        r matches Some(h) ==> h@.len() == 60 && bcrypt_verifies(password@, h@) == Some(true),
{
    bcrypt::hash(password, bcrypt::DEFAULT_COST).ok()
}

/// Relies on bcrypt::verify: it re-derives the hash from the password and
/// the salt embedded in the stored string and compares; it errors exactly
/// when the stored string is not a well-formed bcrypt hash.
#[verifier::external_body]
fn bcrypt_verify(password: &str, hash: &str) -> (r: Option<bool>)
    ensures
        r == bcrypt_verifies(password@, hash@),
{
    bcrypt::verify(password, hash).ok()
}

/// The outcome `verify_password` is specified to produce: fail closed on a
/// malformed stored hash, otherwise report the match.
pub open spec fn spec_verify_password(password: Seq<char>, hash: Seq<char>) -> Result<
    bool,
    AppError,
> {
    match bcrypt_verifies(password, hash) {
        Some(b) => Ok(b),
        None => Err(AppError::InternalError),
    }
}

/// One-way hash of a plaintext password. Fails only on catastrophic
/// library failure, never on the content of the input.
pub fn hash_password(password: &str) -> (r: Result<String, AppError>)
    ensures
        r matches Ok(h) ==> h@.len() == 60 && bcrypt_verifies(password@, h@) == Some(true),
        r matches Err(e) ==> e == AppError::InternalError,
{
    match bcrypt_hash(password) {
        Some(h) => Ok(h),
        None => Err(AppError::InternalError),
    }
}

/// Checks a plaintext password against a stored hash. Fails closed: a
/// malformed stored hash is an error, never a successful match.
pub fn verify_password(password: &str, hash: &str) -> (r: Result<bool, AppError>)
    ensures
        r == spec_verify_password(password@, hash@),
{
    match bcrypt_verify(password, hash) {
        Some(b) => Ok(b),
        None => Err(AppError::InternalError),
    }
}

/// Law: a stored hash produced by `hash_password` for a password verifies
/// that same password — `verify_password` on the pair is `Ok(true)`.
pub proof fn lemma_hash_verify_round_trip(password: Seq<char>, stored: Seq<char>)
    requires
        bcrypt_verifies(password, stored) == Some(true),
    ensures
        spec_verify_password(password, stored) == Ok::<bool, AppError>(true),
{
}

} // verus!
