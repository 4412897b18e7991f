//! Failure taxonomy and its mapping to HTTP status codes.
use vstd::prelude::*;

verus! {

/// Why a conditional write was refused.
#[derive(Clone, Copy, Debug, PartialEq, Eq, Structural)]
pub enum ConflictReason {
    /// Create-only write, but the key already holds a value.
    KeyExists,
    /// The supplied version differs from the stored one.
    VersionMismatch,
    /// Update-only or version-checked write, but the key holds nothing.
    KeyMissing,
}

/// Every way a request can fail.
#[derive(Clone, Copy, Debug, PartialEq, Eq, Structural)]
pub enum AppError {
    /// A malformed query parameter or an impossible slice; the store is not touched.
    ValidationError,
    /// The requested key holds no value.
    NotFound,
    /// An optimistic-concurrency precondition failed.
    Conflict(ConflictReason),
    /// The store failed to open, read or commit a transaction.
    StoreError,
    /// A stored envelope could not be decoded.
    InternalError,
}

/// The HTTP status code that reports `e`.
pub open spec fn status_of(e: AppError) -> u16 {
    match e {
        AppError::ValidationError => 400,
        AppError::NotFound => 404,
        AppError::Conflict(_) => 409,
        AppError::StoreError => 502,
        AppError::InternalError => 500,
    }
}

impl AppError {
    /// The HTTP status code that reports this error.
    pub fn status_code(&self) -> (r: u16)
        ensures
            r == status_of(*self),
    {
        match self {
            AppError::ValidationError => 400,
            AppError::NotFound => 404,
            AppError::Conflict(_) => 409,
            AppError::StoreError => 502,
            AppError::InternalError => 500,
        }
    }

    /// Whether the caller is at fault (a 4xx status) rather than the gateway.
    pub fn is_client_error(&self) -> (r: bool)
        ensures
            r == (400 <= status_of(*self) < 500),
    {
        let c = self.status_code();
        400 <= c && c < 500
    }
}

} // verus!
