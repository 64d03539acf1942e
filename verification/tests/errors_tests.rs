use todo_auth::errors::{
    classify_status, envelope_for_status, AppError, StatusClass, StorageFailure,
    map_storage_failure,
};

#[test]
fn each_kind_has_its_fixed_status_and_code() {
    let cases = [
        (AppError::ValidationError("v".to_string()), 400, "VALIDATION_ERROR"),
        (AppError::AuthenticationError("a".to_string()), 401, "UNAUTHORIZED"),
        (AppError::AuthorizationError("a".to_string()), 403, "FORBIDDEN"),
        (AppError::NotFoundError("n".to_string()), 404, "NOT_FOUND"),
        (AppError::ConflictError("c".to_string()), 409, "ALREADY_EXISTS"),
        (AppError::DatabaseError, 500, "DATABASE_ERROR"),
        (AppError::InternalError, 500, "INTERNAL_SERVER_ERROR"),
    ];
    for (err, status, code) in cases {
        assert_eq!(err.status(), status);
        assert_eq!(err.code(), code);
    }
}

#[test]
fn client_error_detail_is_surfaced_and_server_detail_is_not() {
    assert_eq!(
        AppError::ValidationError("username too short".to_string()).message(),
        "username too short"
    );
    assert_eq!(AppError::DatabaseError.message(), "Internal server error occurred");
    assert_eq!(AppError::InternalError.message(), "An internal server error occurred");
}

#[test]
fn describe_joins_code_and_message() {
    assert_eq!(
        AppError::NotFoundError("no such user".to_string()).describe(),
        "NOT_FOUND: no such user"
    );
    assert_eq!(
        AppError::DatabaseError.describe(),
        "DATABASE_ERROR: Internal server error occurred"
    );
}

#[test]
fn envelope_carries_code_message_and_status() {
    let e = AppError::ConflictError("Email already exist".to_string()).to_envelope();
    assert_eq!(e.status, 409);
    assert_eq!(e.code, "ALREADY_EXISTS");
    assert_eq!(e.message, "Email already exist");
}

#[test]
fn fallback_envelope_for_known_statuses() {
    let e = envelope_for_status(400, "bad body".to_string());
    assert_eq!((e.status, e.code.as_str(), e.message.as_str()), (400, "VALIDATION_ERROR", "bad body"));
    let e = envelope_for_status(404, "no such route".to_string());
    assert_eq!((e.status, e.code.as_str(), e.message.as_str()), (404, "NOT_FOUND", "no such route"));
    let e = envelope_for_status(405, "ignored".to_string());
    assert_eq!(
        (e.status, e.code.as_str(), e.message.as_str()),
        (405, "METHOD_NOT_ALLOWED", "Method not allowed for this endpoint")
    );
    let e = envelope_for_status(500, "driver detail".to_string());
    assert_eq!(
        (e.status, e.code.as_str(), e.message.as_str()),
        (500, "INTERNAL_SERVER_ERROR", "An internal server error occurred")
    );
}

#[test]
fn fallback_envelope_for_unknown_status() {
    let e = envelope_for_status(418, "ignored".to_string());
    assert_eq!((e.status, e.code.as_str(), e.message.as_str()), (418, "UNKNOWN_ERROR", "An error occurred"));
}

#[test]
fn statuses_classify_into_client_and_server_errors() {
    assert_eq!(classify_status(400), StatusClass::ClientError);
    assert_eq!(classify_status(499), StatusClass::ClientError);
    assert_eq!(classify_status(500), StatusClass::ServerError);
    assert_eq!(classify_status(599), StatusClass::ServerError);
    assert_eq!(classify_status(200), StatusClass::Other);
    assert_eq!(classify_status(302), StatusClass::Other);
}

#[test]
fn storage_failures_map_to_their_kinds() {
    assert_eq!(
        map_storage_failure(StorageFailure::RowAbsent),
        AppError::NotFoundError("Resource not found".to_string())
    );
    assert_eq!(
        map_storage_failure(StorageFailure::UniqueViolation),
        AppError::ConflictError("Resource already exists".to_string())
    );
    assert_eq!(map_storage_failure(StorageFailure::Other), AppError::DatabaseError);
}
