//! The error classifier: maps low-level storage failures into a small
//! closed taxonomy consumed by callers. Callers never inspect
//! engine-specific failure detail directly; they only see this taxonomy.

use vstd::prelude::*;

verus! {

use vstd::string::StringExecFns;

/// The classified failure taxonomy handed to callers of the repositories.
///
/// `RecordAlreadyExists` and `RecordNotFound` are expected, recoverable
/// conditions (duplicate signup, unknown lookup key); `DatabaseError` and
/// `OperationCancelled` indicate an infrastructure problem. `DatabaseError`
/// carries the original failure detail for the caller to log.
#[derive(Debug, PartialEq)]
pub enum AppError {
    RecordAlreadyExists,
    RecordNotFound,
    DatabaseError(String),
    OperationCancelled,
}

/// The library's model of a raw storage-engine failure, as the storage
/// driver reports it: a uniqueness-constraint violation, an absent row on a
/// single-row read, or any other failure with its diagnostic text.
#[derive(Debug, PartialEq)]
pub enum StorageFailure {
    UniqueViolation(String),
    RowMissing,
    Other(String),
}

/// The library's model of the outcome of a unit of work dispatched to a
/// blocking executor: either the work itself failed, or the executor
/// cancelled it before completion.
#[derive(Debug, PartialEq)]
pub enum BlockingFailure {
    Failed(AppError),
    Cancelled,
}

impl AppError {
    /// Classifies a raw storage failure. The classification is total: every
    /// failure maps to exactly one kind, with `DatabaseError` as the
    /// catch-all that keeps the original detail.
    pub fn from_storage(failure: StorageFailure) -> (r: AppError)
        ensures
            r == match failure {
                StorageFailure::UniqueViolation(_) => AppError::RecordAlreadyExists,
                StorageFailure::RowMissing => AppError::RecordNotFound,
                StorageFailure::Other(detail) => AppError::DatabaseError(detail),
            },
    {
        match failure {
            StorageFailure::UniqueViolation(_) => AppError::RecordAlreadyExists,
            StorageFailure::RowMissing => AppError::RecordNotFound,
            StorageFailure::Other(detail) => AppError::DatabaseError(detail),
        }
    }

    /// Resolves the outcome of a cancelled or failed unit of work: a failure
    /// of the work itself passes through unchanged, and a cancellation by
    /// the executor surfaces as `OperationCancelled`, never as a partial
    /// result.
    pub fn from_blocking(failure: BlockingFailure) -> (r: AppError)
        ensures
            r == match failure {
                BlockingFailure::Failed(inner) => inner,
                BlockingFailure::Cancelled => AppError::OperationCancelled,
            },
    {
        match failure {
            BlockingFailure::Failed(inner) => inner,
            BlockingFailure::Cancelled => AppError::OperationCancelled,
        }
    }

    /// True for the kinds that indicate an infrastructure problem and should
    /// be logged with full detail by the caller; false for the expected,
    /// recoverable conditions.
    pub fn is_fault(&self) -> (r: bool)
        ensures
            r == (self is DatabaseError || self is OperationCancelled),
    {
        match self {
            AppError::DatabaseError(_) => true,
            AppError::OperationCancelled => true,
            AppError::RecordAlreadyExists => false,
            AppError::RecordNotFound => false,
        }
    }

    /// A human-readable description of the classified failure.
    pub fn message(&self) -> (r: String)
        ensures
            r@ == match self {
                AppError::RecordAlreadyExists => "This record violates a unique constraint"@,
                AppError::RecordNotFound => "This record does not exist"@,
                AppError::DatabaseError(detail) => "Database error: "@ + detail@,
                AppError::OperationCancelled => "The operation was cancelled"@,
            },
    {
        match self {
            AppError::RecordAlreadyExists => "This record violates a unique constraint".to_owned(),
            AppError::RecordNotFound => "This record does not exist".to_owned(),
            AppError::DatabaseError(detail) => "Database error: ".to_owned().concat(
                detail.as_str(),
            ),
            AppError::OperationCancelled => "The operation was cancelled".to_owned(),
        }
    }
}

} // verus!
