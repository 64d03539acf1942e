//! Account data and the shape constraints on registration and login
//! input. Timestamps are carried as epoch seconds; the stored password is
//! the opaque hash, never the plaintext.

use vstd::prelude::*;
use crate::errors::AppError;
use crate::password::spec_password_strong;

verus! {

/// A stored account row.
#[derive(Debug, Clone, PartialEq, Eq)]
pub struct User {
    pub id: i64,
    pub username: String,
    pub password: String,
    pub email: String,
    pub created_at: i64,
    pub updated_at: i64,
}

/// What of an account a client may see — no password hash.
#[derive(Debug, Clone, PartialEq, Eq)]
pub struct UserResponse {
    pub id: i64,
    pub username: String,
    pub email: String,
    pub created_at: i64,
}

impl From<User> for UserResponse {
    fn from(user: User) -> (r: UserResponse) {
        UserResponse {
            id: user.id,
            username: user.username,
            email: user.email,
            created_at: user.created_at,
        }
    }
}

impl vstd::std_specs::convert::FromSpecImpl<User> for UserResponse {
    open spec fn obeys_from_spec() -> bool {
        true
    }

    open spec fn from_spec(user: User) -> Self {
        UserResponse {
            id: user.id,
            username: user.username,
            email: user.email,
            created_at: user.created_at,
        }
    }
}

/// A registration request body.
#[derive(Debug, Clone, PartialEq, Eq)]
pub struct CreateUserRequest {
    pub username: String,
    pub email: String,
    pub password: String,
}

/// A login request body.
#[derive(Debug, Clone, PartialEq, Eq)]
pub struct LoginRequest {
    pub email: String,
    pub password: String,
}

/// Whether a string is accepted as an e-mail address; decided by the
/// validator crate's HTML5 e-mail check.
pub uninterp spec fn email_accepted(s: Seq<char>) -> bool;

/// Relies on validator's ValidateEmail for &str: acceptance by the HTML5
/// e-mail grammar, a deterministic function of the string alone. An empty
/// string, or one with no '@', is never accepted.
#[verifier::external_body]
fn str_is_email(s: &str) -> (r: bool)
    ensures
        r == email_accepted(s@),
        s@.len() == 0 ==> !r,
        !s@.contains('@') ==> !r,
{
    validator::ValidateEmail::validate_email(&s)
}

/// The length constraint on a username.
pub open spec fn spec_username_ok(username: Seq<char>) -> bool {
    5 <= username.len() <= 50
}

/// A registration is well-formed when all three fields pass their checks.
pub open spec fn spec_valid_registration(
    username: Seq<char>,
    email: Seq<char>,
    password: Seq<char>,
) -> bool {
    spec_username_ok(username) && email_accepted(email) && spec_password_strong(password)
}

/// The field-level detail reported for an ill-formed registration: the
/// first failing field, checked in declaration order.
pub open spec fn spec_validation_message(
    username: Seq<char>,
    email: Seq<char>,
    password: Seq<char>,
) -> Seq<char> {
    if !spec_username_ok(username) {
        "Username must be 5 to 50 characters"@
    } else if !email_accepted(email) {
        "Email is invalid"@
    } else if !spec_password_strong(password) {
        "Password must be at least 8 characters with an uppercase letter, a lowercase letter, a digit and no whitespace"@
    } else {
        Seq::empty()
    }
}

impl CreateUserRequest {
    /// Checks the shape constraints: username length, e-mail grammar and
    /// password strength. Rejections carry the first failing field's
    /// detail, which is safe to show a client.
    pub fn validate(&self) -> (r: Result<(), AppError>)
        ensures
            r is Ok <==> spec_valid_registration(self.username@, self.email@, self.password@),
            r matches Err(e) ==> (e matches AppError::ValidationError(m) && m@
                == spec_validation_message(self.username@, self.email@, self.password@)),
    {
        let ulen = self.username.as_str().unicode_len();
        if ulen < 5 || ulen > 50 {
            return Err(
                AppError::ValidationError("Username must be 5 to 50 characters".to_owned()),
            );
        }
        if !str_is_email(self.email.as_str()) {
            return Err(AppError::ValidationError("Email is invalid".to_owned()));
        }
        if !crate::password::is_password_valid(self.password.as_str()) {
            return Err(
                AppError::ValidationError(
                    "Password must be at least 8 characters with an uppercase letter, a lowercase letter, a digit and no whitespace".to_owned(),
                ),
            );
        }
        Ok(())
    }
}

} // verus!
