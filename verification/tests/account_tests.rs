use todo_auth::errors::{AppError, StorageFailure};
use todo_auth::jwt::verify_jwt;
use todo_auth::password::verify_password;
use todo_auth::user::{CreateUserRequest, User, UserResponse};
use todo_auth::user_service::UserService;

const NOW: i64 = 1_700_000_000;
const SECRET: &str = "server-secret";

fn alice_request() -> CreateUserRequest {
    CreateUserRequest {
        username: "alice01".to_string(),
        email: "alice@x.com".to_string(),
        password: "Abcdef12".to_string(),
    }
}

fn account_with_hash(id: i64, hash: String) -> User {
    User {
        id,
        username: "alice01".to_string(),
        password: hash,
        email: "alice@x.com".to_string(),
        created_at: NOW,
        updated_at: NOW,
    }
}

#[test]
fn registration_succeeds_and_stores_a_verifying_hash() {
    let new_user = UserService::create_user(&alice_request(), false, false).unwrap();
    assert_eq!(new_user.username, "alice01");
    assert_eq!(new_user.email, "alice@x.com");
    assert_ne!(new_user.password_hash, "Abcdef12");
    assert_eq!(verify_password("Abcdef12", &new_user.password_hash).unwrap(), true);
    let confirmation = UserService::complete_registration(Ok(())).unwrap();
    assert_eq!(confirmation, "Success creating user");
}

#[test]
fn duplicate_email_is_a_conflict() {
    let r = UserService::create_user(&alice_request(), true, false);
    assert_eq!(r.unwrap_err(), AppError::ConflictError("Email already exist".to_string()));
}

#[test]
fn duplicate_username_is_a_conflict() {
    let r = UserService::create_user(&alice_request(), false, true);
    assert_eq!(r.unwrap_err(), AppError::ConflictError("Username already exist".to_string()));
}

#[test]
fn invalid_registration_never_reaches_uniqueness_conflicts() {
    let mut request = alice_request();
    request.password = "weak".to_string();
    let r = UserService::create_user(&request, true, true);
    assert!(matches!(r.unwrap_err(), AppError::ValidationError(_)));
}

#[test]
fn insert_time_duplicate_is_remapped_to_conflict() {
    let r = UserService::complete_registration(Err(StorageFailure::UniqueViolation));
    assert_eq!(r.unwrap_err(), AppError::ConflictError("Resource already exists".to_string()));
    let r = UserService::complete_registration(Err(StorageFailure::Other));
    assert_eq!(r.unwrap_err(), AppError::DatabaseError);
}

#[test]
fn login_with_correct_password_issues_a_token_for_the_account() {
    let new_user = UserService::create_user(&alice_request(), false, false).unwrap();
    let account = account_with_hash(42, new_user.password_hash);
    let token = UserService::authenticate_user(Some(&account), "Abcdef12", SECRET, NOW).unwrap();
    assert!(!token.is_empty());
    let claims = verify_jwt(&token, SECRET, NOW).unwrap();
    assert_eq!(claims.sub, "42");
}

#[test]
fn wrong_password_and_unknown_email_fail_identically() {
    let new_user = UserService::create_user(&alice_request(), false, false).unwrap();
    let account = account_with_hash(42, new_user.password_hash);
    let wrong_password =
        UserService::authenticate_user(Some(&account), "Abcdef13", SECRET, NOW).unwrap_err();
    let unknown_email = UserService::authenticate_user(None, "Abcdef12", SECRET, NOW).unwrap_err();
    assert_eq!(wrong_password, unknown_email);
    assert_eq!(wrong_password, AppError::AuthenticationError("Invalid credentials".to_string()));
}

#[test]
fn valid_credentials_with_unconfigured_secret_fail_internally() {
    let new_user = UserService::create_user(&alice_request(), false, false).unwrap();
    let account = account_with_hash(42, new_user.password_hash);
    let r = UserService::authenticate_user(Some(&account), "Abcdef12", "", NOW);
    assert_eq!(r.unwrap_err(), AppError::InternalError);
}

#[test]
fn corrupt_stored_hash_is_an_internal_failure_not_a_login() {
    let account = account_with_hash(42, "garbage-hash".to_string());
    let r = UserService::authenticate_user(Some(&account), "Abcdef12", SECRET, NOW);
    assert_eq!(r.unwrap_err(), AppError::InternalError);
}

#[test]
fn registration_validation_reports_the_first_failing_field() {
    let mut request = alice_request();
    request.username = "abc".to_string();
    assert_eq!(
        request.validate().unwrap_err(),
        AppError::ValidationError("Username must be 5 to 50 characters".to_string())
    );

    let mut request = alice_request();
    request.email = "not-an-email".to_string();
    assert_eq!(
        request.validate().unwrap_err(),
        AppError::ValidationError("Email is invalid".to_string())
    );

    let mut request = alice_request();
    request.password = "short".to_string();
    assert!(matches!(request.validate().unwrap_err(), AppError::ValidationError(_)));

    assert!(alice_request().validate().is_ok());
}

#[test]
fn user_response_never_carries_the_password_hash() {
    let account = account_with_hash(42, "opaque".to_string());
    let response = UserResponse::from(account);
    assert_eq!(response.id, 42);
    assert_eq!(response.username, "alice01");
    assert_eq!(response.email, "alice@x.com");
    assert_eq!(response.created_at, NOW);
}

#[test]
fn empty_email_and_email_without_at_are_rejected() {
    let mut request = alice_request();
    request.email = "".to_string();
    assert!(request.validate().is_err());
    let mut request = alice_request();
    request.email = "alice.x.com".to_string();
    assert!(request.validate().is_err());
}
