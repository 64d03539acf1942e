//! The error normalizer: a closed taxonomy of failure kinds, each with a
//! fixed HTTP status and symbolic code, and the uniform response envelope
//! that every non-2xx outcome is serialized into.

use vstd::prelude::*;

verus! {

/// The closed set of failure kinds. Internal failures are wrapped into the
/// nearest kind at the service boundary; `DatabaseError` and `InternalError`
/// carry no detail so that driver internals never reach a client.
#[derive(Debug, Clone, PartialEq, Eq)]
pub enum AppError {
    ValidationError(String),
    AuthenticationError(String),
    AuthorizationError(String),
    NotFoundError(String),
    ConflictError(String),
    DatabaseError,
    InternalError,
}

/// The uniform shape of every error response: a symbolic code, a
/// human-readable message, and the HTTP status it is served with.
#[derive(Debug, Clone, PartialEq, Eq)]
pub struct ErrorEnvelope {
    pub code: String,
    pub message: String,
    pub status: u16,
}

impl AppError {
    /// The HTTP status fixed for each kind.
    pub open spec fn spec_status(&self) -> u16 {
        match self {
            AppError::ValidationError(_) => 400,
            AppError::AuthenticationError(_) => 401,
            AppError::AuthorizationError(_) => 403,
            AppError::NotFoundError(_) => 404,
            AppError::ConflictError(_) => 409,
            AppError::DatabaseError => 500,
            AppError::InternalError => 500,
        }
    }

    /// The symbolic code fixed for each kind.
    pub open spec fn spec_code(&self) -> Seq<char> {
        match self {
            AppError::ValidationError(_) => "VALIDATION_ERROR"@,
            AppError::AuthenticationError(_) => "UNAUTHORIZED"@,
            AppError::AuthorizationError(_) => "FORBIDDEN"@,
            AppError::NotFoundError(_) => "NOT_FOUND"@,
            AppError::ConflictError(_) => "ALREADY_EXISTS"@,
            AppError::DatabaseError => "DATABASE_ERROR"@,
            AppError::InternalError => "INTERNAL_SERVER_ERROR"@,
        }
    }

    /// The message a client sees: caller-supplied detail for client errors,
    /// a generic sentence for server-side failures.
    pub open spec fn spec_message(&self) -> Seq<char> {
        match self {
            AppError::ValidationError(m) => m@,
            AppError::AuthenticationError(m) => m@,
            AppError::AuthorizationError(m) => m@,
            AppError::NotFoundError(m) => m@,
            AppError::ConflictError(m) => m@,
            AppError::DatabaseError => "Internal server error occurred"@,
            AppError::InternalError => "An internal server error occurred"@,
        }
    }

    pub fn status(&self) -> (s: u16)
        ensures
            s == self.spec_status(),
    {
        match self {
            AppError::ValidationError(_) => 400,
            AppError::AuthenticationError(_) => 401,
            AppError::AuthorizationError(_) => 403,
            AppError::NotFoundError(_) => 404,
            AppError::ConflictError(_) => 409,
            AppError::DatabaseError => 500,
            AppError::InternalError => 500,
        }
    }

    pub fn code(&self) -> (c: &'static str)
        ensures
            c@ == self.spec_code(),
    {
        match self {
            AppError::ValidationError(_) => "VALIDATION_ERROR",
            AppError::AuthenticationError(_) => "UNAUTHORIZED",
            AppError::AuthorizationError(_) => "FORBIDDEN",
            AppError::NotFoundError(_) => "NOT_FOUND",
            AppError::ConflictError(_) => "ALREADY_EXISTS",
            AppError::DatabaseError => "DATABASE_ERROR",
            AppError::InternalError => "INTERNAL_SERVER_ERROR",
        }
    }

    pub fn message(&self) -> (m: String)
        ensures
            m@ == self.spec_message(),
    {
        match self {
            AppError::ValidationError(m) => m.clone(),
            AppError::AuthenticationError(m) => m.clone(),
            AppError::AuthorizationError(m) => m.clone(),
            AppError::NotFoundError(m) => m.clone(),
            AppError::ConflictError(m) => m.clone(),
            AppError::DatabaseError => "Internal server error occurred".to_owned(),
            AppError::InternalError => "An internal server error occurred".to_owned(),
        }
    }

    /// One line for a log or an error chain: the symbolic code, a colon,
    /// and the message.
    pub fn describe(&self) -> (d: String)
        ensures
            d@ == self.spec_code() + ": "@ + self.spec_message(),
    {
        let mut d = self.code().to_owned();
        d.append(": ");
        d.append(self.message().as_str());
        d
    }

    /// Serializes a failure into the uniform envelope.
    pub fn to_envelope(&self) -> (e: ErrorEnvelope)
        ensures
            e.status == self.spec_status(),
            e.code@ == self.spec_code(),
            e.message@ == self.spec_message(),
    {
        ErrorEnvelope { code: self.code().to_owned(), message: self.message(), status: self.status() }
    }
}

/// How a status is logged: client errors and server errors are reported
/// distinctly, anything else passes silently.
#[derive(Debug, Clone, Copy, PartialEq, Eq, Structural)]
pub enum StatusClass {
    ClientError,
    ServerError,
    Other,
}

pub open spec fn spec_classify_status(status: u16) -> StatusClass {
    if 400 <= status <= 499 {
        StatusClass::ClientError
    } else if 500 <= status <= 599 {
        StatusClass::ServerError
    } else {
        StatusClass::Other
    }
}

pub fn classify_status(status: u16) -> (c: StatusClass)
    ensures
        c == spec_classify_status(status),
{
    if 400 <= status && status <= 499 {
        StatusClass::ClientError
    } else if 500 <= status && status <= 599 {
        StatusClass::ServerError
    } else {
        StatusClass::Other
    }
}

/// The code the transport-level fallback uses for a bare status.
pub open spec fn spec_fallback_code(status: u16) -> Seq<char> {
    if status == 400 {
        "VALIDATION_ERROR"@
    } else if status == 401 {
        "UNAUTHORIZED"@
    } else if status == 403 {
        "FORBIDDEN"@
    } else if status == 404 {
        "NOT_FOUND"@
    } else if status == 405 {
        "METHOD_NOT_ALLOWED"@
    } else if status == 409 {
        "ALREADY_EXISTS"@
    } else if status == 500 {
        "INTERNAL_SERVER_ERROR"@
    } else {
        "UNKNOWN_ERROR"@
    }
}

/// The message the transport-level fallback uses: whatever detail the
/// transport carried for the client-error kinds, a fixed sentence otherwise.
pub open spec fn spec_fallback_message(status: u16, detail: Seq<char>) -> Seq<char> {
    if status == 400 || status == 401 || status == 403 || status == 404 || status == 409 {
        detail
    } else if status == 405 {
        "Method not allowed for this endpoint"@
    } else if status == 500 {
        "An internal server error occurred"@
    } else {
        "An error occurred"@
    }
}

/// Transport-level fallback: when the framework itself produced a bare
/// status with no structured error, synthesize the matching envelope from
/// the status alone.
pub fn envelope_for_status(status: u16, detail: String) -> (e: ErrorEnvelope)
    ensures
        e.status == status,
        e.code@ == spec_fallback_code(status),
        e.message@ == spec_fallback_message(status, detail@),
{
    if status == 400 {
        ErrorEnvelope { code: "VALIDATION_ERROR".to_owned(), message: detail, status }
    } else if status == 401 {
        ErrorEnvelope { code: "UNAUTHORIZED".to_owned(), message: detail, status }
    } else if status == 403 {
        ErrorEnvelope { code: "FORBIDDEN".to_owned(), message: detail, status }
    } else if status == 404 {
        ErrorEnvelope { code: "NOT_FOUND".to_owned(), message: detail, status }
    } else if status == 405 {
        ErrorEnvelope {
            code: "METHOD_NOT_ALLOWED".to_owned(),
            message: "Method not allowed for this endpoint".to_owned(),
            status,
        }
    } else if status == 409 {
        ErrorEnvelope { code: "ALREADY_EXISTS".to_owned(), message: detail, status }
    } else if status == 500 {
        ErrorEnvelope {
            code: "INTERNAL_SERVER_ERROR".to_owned(),
            message: "An internal server error occurred".to_owned(),
            status,
        }
    } else {
        ErrorEnvelope { code: "UNKNOWN_ERROR".to_owned(), message: "An error occurred".to_owned(), status }
    }
}

/// What a storage call can signal beyond success, reduced to the three
/// outcomes the taxonomy distinguishes.
#[derive(Debug, Clone, Copy, PartialEq, Eq, Structural)]
pub enum StorageFailure {
    RowAbsent,
    UniqueViolation,
    Other,
}

/// Maps a storage failure to its taxonomy kind. A row that is absent is a
/// not-found outcome callers branch on, and a duplicate-key rejection at
/// insert time is a conflict; only the rest is an opaque database failure.
pub fn map_storage_failure(f: StorageFailure) -> (e: AppError)
    ensures
        f == StorageFailure::RowAbsent ==> (e matches AppError::NotFoundError(m) && m@
            == "Resource not found"@),
        f == StorageFailure::UniqueViolation ==> (e matches AppError::ConflictError(m) && m@
            == "Resource already exists"@),
        f == StorageFailure::Other ==> e == AppError::DatabaseError,
{
    match f {
        StorageFailure::RowAbsent => AppError::NotFoundError("Resource not found".to_owned()),
        StorageFailure::UniqueViolation => AppError::ConflictError(
            "Resource already exists".to_owned(),
        ),
        StorageFailure::Other => AppError::DatabaseError,
    }
}

} // verus!
