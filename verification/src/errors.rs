//! The uniform error taxonomy, its response statuses, and the classification
//! of storage failures.

use crate::utils::text::{has_prefix, join2, strip_prefix};
use vstd::prelude::*;
use vstd::string::*;

verus! {

/// The kind of a failure, which alone decides the response status.
#[derive(Clone, Copy, Debug, PartialEq, Eq, Structural)]
pub enum ErrorKind {
    NotFound,
    Unauthorized,
    Conflict,
    BadRequest,
    InternalServerError,
    DatabaseError,
    AWSError,
}

/// A failure of a request: its kind and the message shown to the caller.
#[derive(Debug, Clone, PartialEq, Eq)]
pub enum AppError {
    NotFound(String),
    Unauthorized(String),
    Conflict(String),
    BadRequest(String),
    InternalServerError(String),
    DatabaseError(String),
    AWSError(String),
}

/// The mathematical content of an `AppError`.
pub struct ErrorView {
    pub kind: ErrorKind,
    pub message: Seq<char>,
}

impl View for AppError {
    type V = ErrorView;

    open spec fn view(&self) -> ErrorView {
        match self {
            AppError::NotFound(m) => ErrorView { kind: ErrorKind::NotFound, message: m@ },
            AppError::Unauthorized(m) => ErrorView { kind: ErrorKind::Unauthorized, message: m@ },
            AppError::Conflict(m) => ErrorView { kind: ErrorKind::Conflict, message: m@ },
            AppError::BadRequest(m) => ErrorView { kind: ErrorKind::BadRequest, message: m@ },
            AppError::InternalServerError(m) => ErrorView {
                kind: ErrorKind::InternalServerError,
                message: m@,
            },
            AppError::DatabaseError(m) => ErrorView { kind: ErrorKind::DatabaseError, message: m@ },
            AppError::AWSError(m) => ErrorView { kind: ErrorKind::AWSError, message: m@ },
        }
    }
}

/// The body and status of the response that reports a failure.
#[derive(Debug, Clone, PartialEq, Eq)]
pub struct ErrorResponse {
    pub status: u16,
    pub error: String,
}

/// The response status that goes with each kind of failure.
pub open spec fn status_of(kind: ErrorKind) -> u16 {
    match kind {
        ErrorKind::NotFound => 404,
        ErrorKind::Unauthorized => 401,
        ErrorKind::Conflict => 409,
        ErrorKind::BadRequest => 400,
        ErrorKind::InternalServerError => 500,
        ErrorKind::DatabaseError => 500,
        ErrorKind::AWSError => 500,
    }
}

/// The words that introduce a failure of each kind when it is written out.
pub open spec fn label_of(kind: ErrorKind) -> Seq<char> {
    match kind {
        ErrorKind::NotFound => "Not Found: "@,
        ErrorKind::Unauthorized => "Unauthorized: "@,
        ErrorKind::Conflict => "Conflict: "@,
        ErrorKind::BadRequest => "Bad Request: "@,
        ErrorKind::InternalServerError => "Internal Server Error: "@,
        ErrorKind::DatabaseError => "Database Error: "@,
        ErrorKind::AWSError => "AWS Error: "@,
    }
}

impl AppError {
    /// A failure of the given kind with the given message.
    pub fn new(kind: ErrorKind, message: &str) -> (e: AppError)
        ensures
            e@ == (ErrorView { kind, message: message@ }),
    {
        let m = String::from_str(message);
        match kind {
            ErrorKind::NotFound => AppError::NotFound(m),
            ErrorKind::Unauthorized => AppError::Unauthorized(m),
            ErrorKind::Conflict => AppError::Conflict(m),
            ErrorKind::BadRequest => AppError::BadRequest(m),
            ErrorKind::InternalServerError => AppError::InternalServerError(m),
            ErrorKind::DatabaseError => AppError::DatabaseError(m),
            ErrorKind::AWSError => AppError::AWSError(m),
        }
    }

    /// The kind of this failure.
    pub fn kind(&self) -> (k: ErrorKind)
        ensures
            k == self@.kind,
    {
        match self {
            AppError::NotFound(_) => ErrorKind::NotFound,
            AppError::Unauthorized(_) => ErrorKind::Unauthorized,
            AppError::Conflict(_) => ErrorKind::Conflict,
            AppError::BadRequest(_) => ErrorKind::BadRequest,
            AppError::InternalServerError(_) => ErrorKind::InternalServerError,
            AppError::DatabaseError(_) => ErrorKind::DatabaseError,
            AppError::AWSError(_) => ErrorKind::AWSError,
        }
    }

    /// The message of this failure.
    pub fn message(&self) -> (m: String)
        ensures
            m@ == self@.message,
    {
        match self {
            AppError::NotFound(m) => m.clone(),
            AppError::Unauthorized(m) => m.clone(),
            AppError::Conflict(m) => m.clone(),
            AppError::BadRequest(m) => m.clone(),
            AppError::InternalServerError(m) => m.clone(),
            AppError::DatabaseError(m) => m.clone(),
            AppError::AWSError(m) => m.clone(),
        }
    }

    /// The response status of this failure.
    pub fn status(&self) -> (code: u16)
        ensures
            code == status_of(self@.kind),
    {
        match self {
            AppError::NotFound(_) => 404,
            AppError::Unauthorized(_) => 401,
            AppError::Conflict(_) => 409,
            AppError::BadRequest(_) => 400,
            AppError::InternalServerError(_) => 500,
            AppError::DatabaseError(_) => 500,
            AppError::AWSError(_) => 500,
        }
    }

    /// The failure written out: the label of its kind, then its message.
    pub fn describe(&self) -> (text: String)
        ensures
            text@ == label_of(self@.kind) + self@.message,
    {
        match self {
            AppError::NotFound(m) => join2("Not Found: ", m.as_str()),
            AppError::Unauthorized(m) => join2("Unauthorized: ", m.as_str()),
            AppError::Conflict(m) => join2("Conflict: ", m.as_str()),
            AppError::BadRequest(m) => join2("Bad Request: ", m.as_str()),
            AppError::InternalServerError(m) => join2("Internal Server Error: ", m.as_str()),
            AppError::DatabaseError(m) => join2("Database Error: ", m.as_str()),
            AppError::AWSError(m) => join2("AWS Error: ", m.as_str()),
        }
    }

    /// The response that reports this failure: the status of its kind and the
    /// message under the stable `error` field.
    pub fn error_response(&self) -> (response: ErrorResponse)
        ensures
            response.status == status_of(self@.kind),
            response.error@ == self@.message,
    {
        ErrorResponse { status: self.status(), error: self.message() }
    }
}

/// How a call to the relational store went wrong.
#[derive(Debug, Clone, PartialEq, Eq)]
pub enum StoreFailure {
    /// A row was asked for and none matched.
    RowNotFound,
    /// The store refused the statement and gave a structured error code.
    Rejected { code: String, message: String },
    /// The store could not be reached, or failed without a code.
    Unavailable { message: String },
}

/// Whether a structured error code belongs to the class of integrity
/// constraint violations (unique, foreign key, not-null, check).
pub open spec fn is_constraint_code(code: Seq<char>) -> bool {
    has_prefix(code, "23"@)
}

/// The failure that a storage failure surfaces as, where `conflict` is the
/// message for a violated constraint. A failure is judged by its structured
/// code and never by the words of its message.
pub open spec fn surfaced(failure: StoreFailure, conflict: Seq<char>) -> ErrorView {
    match failure {
        StoreFailure::RowNotFound => ErrorView {
            kind: ErrorKind::NotFound,
            message: "Resource not found"@,
        },
        StoreFailure::Rejected { code, message } => if is_constraint_code(code@) {
            ErrorView { kind: ErrorKind::Conflict, message: conflict }
        } else {
            ErrorView { kind: ErrorKind::DatabaseError, message: message@ }
        },
        StoreFailure::Unavailable { message } => ErrorView {
            kind: ErrorKind::DatabaseError,
            message: message@,
        },
    }
}

/// Classifies a storage failure: a missing row is `NotFound`, a violated
/// constraint is `Conflict` with the given message, anything else is a
/// `DatabaseError` that carries the store's own message.
pub fn map_store_failure(failure: &StoreFailure, conflict: &str) -> (e: AppError)
    ensures
        e@ == surfaced(*failure, conflict@),
{
    match failure {
        StoreFailure::RowNotFound => AppError::NotFound(String::from_str("Resource not found")),
        StoreFailure::Rejected { code, message } => {
            if strip_prefix(code.as_str(), "23").is_some() {
                AppError::Conflict(String::from_str(conflict))
            } else {
                AppError::DatabaseError(message.clone())
            }
        },
        StoreFailure::Unavailable { message } => AppError::DatabaseError(message.clone()),
    }
}

/// The kind that a storage failure surfaces as depends on its structured
/// code alone: two refusals with the same code surface as the same kind,
/// whatever their messages and whatever the conflict messages say, and that
/// kind is `Conflict` exactly for the codes of constraint violations.
pub proof fn lemma_classification_ignores_the_message(
    code: String,
    first: String,
    second: String,
    conflict: Seq<char>,
    other: Seq<char>,
)
    ensures
        surfaced(StoreFailure::Rejected { code, message: first }, conflict).kind == surfaced(
            StoreFailure::Rejected { code, message: second },
            other,
        ).kind,
        surfaced(StoreFailure::Rejected { code, message: first }, conflict).kind
            == ErrorKind::Conflict <==> is_constraint_code(code@),
{
}

/// A storage failure surfaces with one of three statuses: 404 for a missing
/// row, 409 for a violated constraint, 500 for anything else.
pub proof fn lemma_storage_failure_statuses(failure: StoreFailure, conflict: Seq<char>)
    ensures
        ({
            let status = status_of(surfaced(failure, conflict).kind);
            &&& failure is RowNotFound ==> status == 404
            &&& failure matches StoreFailure::Rejected { code, .. } ==> status == if is_constraint_code(
                code@,
            ) {
                409u16
            } else {
                500u16
            }
            &&& failure is Unavailable ==> status == 500
        }),
{
}

} // verus!
