//! The account service: registration and login decisions. Storage is a
//! collaborator — lookup and insert outcomes arrive as plain values and
//! the decisions here are pure, so every path is checked.

use vstd::prelude::*;
use crate::errors::{AppError, StorageFailure, map_storage_failure};
use crate::jwt::{TOKEN_LIFETIME_SECONDS, create_jwt, jwt_payload, spec_i64_dec};
use crate::password::{bcrypt_verifies, hash_password, verify_password};
use crate::user::{CreateUserRequest, User, spec_valid_registration, spec_validation_message};

verus! {

pub struct UserService;

/// A registration ready to persist: the request's identity fields and the
/// one-way hash that replaces the plaintext password.
#[derive(Debug, Clone, PartialEq, Eq)]
pub struct NewUser {
    pub username: String,
    pub email: String,
    pub password_hash: String,
}

/// The one failure both bad-credential cases share: an authentication
/// error whose message never says whether the account exists.
pub open spec fn spec_invalid_credentials(r: Result<String, AppError>) -> bool {
    r matches Err(e) && e matches AppError::AuthenticationError(m) && m@
        == "Invalid credentials"@
}

impl UserService {
    /// The registration decision, given the request and the two
    /// uniqueness lookups (e-mail checked before username, as the
    /// conflict detail depends on it). On success the plaintext is
    /// replaced by a hash that verifies it.
    pub fn create_user(request: &CreateUserRequest, email_exists: bool, username_exists: bool) -> (r:
        Result<NewUser, AppError>)
        ensures
            !spec_valid_registration(request.username@, request.email@, request.password@) ==> (
            r matches Err(e) && e matches AppError::ValidationError(m) && m@
                == spec_validation_message(request.username@, request.email@, request.password@)),
            spec_valid_registration(request.username@, request.email@, request.password@)
                && email_exists ==> (r matches Err(e) && e matches AppError::ConflictError(m) && m@
                == "Email already exist"@),
            spec_valid_registration(request.username@, request.email@, request.password@)
                && !email_exists && username_exists ==> (r matches Err(e) && e
                matches AppError::ConflictError(m) && m@ == "Username already exist"@),
            spec_valid_registration(request.username@, request.email@, request.password@)
                && !email_exists && !username_exists ==> match r {
                Ok(nu) => nu.username == request.username && nu.email == request.email
                    && nu.password_hash@.len() == 60 && bcrypt_verifies(
                    request.password@,
                    nu.password_hash@,
                ) == Some(true),
                Err(e) => e == AppError::InternalError,
            },
    {
        match request.validate() {
            Err(e) => Err(e),
            Ok(()) => {
                if email_exists {
                    Err(AppError::ConflictError("Email already exist".to_owned()))
                } else if username_exists {
                    Err(AppError::ConflictError("Username already exist".to_owned()))
                } else {
                    match hash_password(request.password.as_str()) {
                        Ok(h) => Ok(
                            NewUser {
                                username: request.username.clone(),
                                email: request.email.clone(),
                                password_hash: h,
                            },
                        ),
                        Err(e) => Err(e),
                    }
                }
            },
        }
    }

    /// Folds the storage insert outcome into the registration result: a
    /// duplicate-key rejection that slipped past the pre-checks is still a
    /// conflict, never an opaque database failure.
    pub fn complete_registration(insert_result: Result<(), StorageFailure>) -> (r: Result<
        String,
        AppError,
    >)
        ensures
            insert_result is Ok ==> (r matches Ok(m) && m@ == "Success creating user"@),
            insert_result == Err::<(), StorageFailure>(StorageFailure::RowAbsent) ==> (r matches Err(e)
                && e matches AppError::NotFoundError(m) && m@ == "Resource not found"@),
            insert_result == Err::<(), StorageFailure>(StorageFailure::UniqueViolation) ==> (r
                matches Err(e) && e matches AppError::ConflictError(m) && m@
                == "Resource already exists"@),
            insert_result == Err::<(), StorageFailure>(StorageFailure::Other) ==> r == Err::<
                String,
                AppError,
            >(AppError::DatabaseError),
    {
        match insert_result {
            Ok(()) => Ok("Success creating user".to_owned()),
            Err(f) => Err(map_storage_failure(f)),
        }
    }

    /// The login decision, given the account the e-mail lookup found (if
    /// any). An absent account and a failed password check produce the
    /// same error; a successful check against a configured secret always
    /// issues a token for the account id.
    pub fn authenticate_user(user: Option<&User>, password: &str, secret: &str, now: i64) -> (r:
        Result<String, AppError>)
        requires
            0 <= now <= i64::MAX - TOKEN_LIFETIME_SECONDS,
        ensures
            user is None ==> spec_invalid_credentials(r),
            user matches Some(u) ==> match bcrypt_verifies(password@, u.password@) {
                None => r == Err::<String, AppError>(AppError::InternalError),
                Some(false) => spec_invalid_credentials(r),
                Some(true) => (r is Ok <==> secret@.len() > 0) && match r {
                    Ok(t) => t@.len() > 0 && jwt_payload(t@, secret@)
                        == Some((spec_i64_dec(u.id as int), now + TOKEN_LIFETIME_SECONDS, now as int)),
                    Err(e) => e == AppError::InternalError,
                },
            },
    {
        match user {
            Option::None => Err(AppError::AuthenticationError("Invalid credentials".to_owned())),
            Option::Some(u) => {
                match verify_password(password, u.password.as_str()) {
                    Err(e) => Err(e),
                    Ok(false) => Err(
                        AppError::AuthenticationError("Invalid credentials".to_owned()),
                    ),
                    Ok(true) => create_jwt(u.id, secret, now),
                }
            },
        }
    }
}

/// Law: the failure for an unknown e-mail and the failure for a wrong
/// password are indistinguishable — same kind, same status, same code,
/// same message.
pub proof fn lemma_credential_failure_uniform(
    r1: Result<String, AppError>,
    r2: Result<String, AppError>,
)
    requires
        spec_invalid_credentials(r1),
        spec_invalid_credentials(r2),
    ensures
        (r1 matches Err(e1) && r2 matches Err(e2) && e1.spec_status() == e2.spec_status()
            && e1.spec_code() == e2.spec_code() && e1.spec_message() == e2.spec_message()),
{
}

} // verus!
