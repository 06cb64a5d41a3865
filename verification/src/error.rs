//! Failures of the engine and of the services it talks to, and how severe
//! each one is.

use vstd::prelude::*;
use vstd::string::StringExecFns;
use crate::enums::LogLevel;

verus! {

/// What went wrong, as far as the engine needs to tell failures apart.
#[derive(Clone, Copy, Debug, PartialEq, Eq, Structural)]
pub enum ErrorKind {
    /// A network or marketplace hiccup that is expected to pass by itself.
    Transient,
    /// An answer arrived but could not be understood.
    Malformed,
    /// The engine was asked to do something its own rules forbid.
    Precondition,
    /// Automated operation cannot go on until the user steps in.
    Critical,
}

/// The structured error a marketplace call answers with.
#[derive(Clone, Debug, PartialEq, Eq)]
pub struct ErrorApiResponse {
    pub status_code: i64,
    pub error: String,
    pub messages: Vec<String>,
}

/// Status code with which the marketplace turns away a call whose
/// credentials are no longer valid.
pub const STATUS_UNAUTHORIZED: i64 = 401;

/// How a structured marketplace error is classified: a call turned away
/// for invalid credentials is critical, every other error is transient.
pub open spec fn api_error_kind(status_code: i64) -> ErrorKind {
    if status_code == STATUS_UNAUTHORIZED {
        ErrorKind::Critical
    } else {
        ErrorKind::Transient
    }
}

impl ErrorApiResponse {
    /// Classifies the error by its status code.
    pub fn kind(&self) -> (r: ErrorKind)
        ensures
            r == api_error_kind(self.status_code),
    {
        if self.status_code == STATUS_UNAUTHORIZED {
            ErrorKind::Critical
        } else {
            ErrorKind::Transient
        }
    }
}

/// Answer of a marketplace call that reached the server: either the payload
/// asked for or the server's structured error.
#[derive(Clone, Debug, PartialEq, Eq)]
pub enum ApiResult<T> {
    Success(T),
    Error(ErrorApiResponse),
}

/// A failure, with the component that raised it and the reason.
#[derive(Clone, Debug, PartialEq, Eq)]
pub struct AppError {
    pub component: String,
    pub cause: String,
    pub kind: ErrorKind,
    pub extra: Option<ErrorApiResponse>,
}

/// The severity a failure of the given kind is logged with.
pub open spec fn level_of(kind: ErrorKind) -> LogLevel {
    match kind {
        ErrorKind::Critical => LogLevel::Critical,
        ErrorKind::Transient => LogLevel::Warning,
        ErrorKind::Malformed => LogLevel::Error,
        ErrorKind::Precondition => LogLevel::Error,
    }
}

impl AppError {
    /// A failure raised by `component` for the reason `cause`.
    pub fn new(component: &str, cause: &str, kind: ErrorKind) -> (r: Self)
        ensures
            r.component@ == component@,
            r.cause@ == cause@,
            r.kind == kind,
            r.extra is None,
    {
        AppError {
            component: String::from_str(component),
            cause: String::from_str(cause),
            kind,
            extra: None,
        }
    }

    /// A failure that carries the marketplace's structured error along.
    pub fn new_api(component: &str, error: ErrorApiResponse, cause: &str, kind: ErrorKind) -> (r:
        Self)
        ensures
            r.component@ == component@,
            r.cause@ == cause@,
            r.kind == kind,
            r.extra == Some(error),
    {
        AppError {
            component: String::from_str(component),
            cause: String::from_str(cause),
            kind,
            extra: Some(error),
        }
    }

    /// Whether the failure halts automated operation.
    pub open spec fn critical(&self) -> bool {
        self.kind == ErrorKind::Critical
    }

    /// Decides [`AppError::critical`].
    pub fn is_critical(&self) -> (r: bool)
        ensures
            r == self.critical(),
    {
        match self.kind {
            ErrorKind::Critical => true,
            _ => false,
        }
    }

    /// The severity the failure is logged with.
    pub fn log_level(&self) -> (r: LogLevel)
        ensures
            r == level_of(self.kind),
            (r == LogLevel::Critical) == self.critical(),
    {
        match self.kind {
            ErrorKind::Critical => LogLevel::Critical,
            ErrorKind::Transient => LogLevel::Warning,
            ErrorKind::Malformed => LogLevel::Error,
            ErrorKind::Precondition => LogLevel::Error,
        }
    }
}

} // verus!
