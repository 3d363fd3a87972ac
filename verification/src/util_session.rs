//! Classification of session-store failures.
//!
//! Session records live in an outside SQL store; reading and writing them
//! is plumbing. What is decided here is how each failure of that plumbing
//! is reported to the session layer, which distinguishes backend, decode
//! and encode errors.

use vstd::prelude::*;

verus! {

/// What went wrong while persisting or reading a session record.
#[derive(Clone, Copy, Debug, PartialEq, Eq, Structural)]
pub enum SessionError {
    /// The SQL store itself failed.
    Sqlite,
    /// The persisted data could not be read back as JSON by the store.
    SqliteInvalidJson,
    /// The record's data could not be written as JSON.
    JsonEncode,
    /// The record's data could not be read back from JSON.
    JsonDecode,
    /// The record's expiry moment could not be reconstructed.
    TimeDecode,
}

/// How the session layer classifies a failure.
#[derive(Clone, Copy, Debug, PartialEq, Eq, Structural)]
pub enum StoreErrorKind {
    Backend,
    Decode,
    Encode,
}

impl SessionError {
    /// The class each failure is reported under.
    pub open spec fn spec_store_error_kind(self) -> StoreErrorKind {
        match self {
            SessionError::Sqlite => StoreErrorKind::Backend,
            SessionError::SqliteInvalidJson => StoreErrorKind::Decode,
            SessionError::JsonEncode => StoreErrorKind::Encode,
            SessionError::JsonDecode => StoreErrorKind::Encode,
            SessionError::TimeDecode => StoreErrorKind::Encode,
        }
    }

    /// Reports this failure to the session layer: storage failures are
    /// backend errors, unreadable persisted JSON is a decode error, and
    /// every codec failure — encoding, decoding, or the expiry moment —
    /// is reported as an encode error.
    pub fn store_error_kind(&self) -> (r: StoreErrorKind)
        ensures
            r == self.spec_store_error_kind(),
    {
        match self {
            SessionError::Sqlite => StoreErrorKind::Backend,
            SessionError::SqliteInvalidJson => StoreErrorKind::Decode,
            SessionError::JsonEncode => StoreErrorKind::Encode,
            SessionError::JsonDecode => StoreErrorKind::Encode,
            SessionError::TimeDecode => StoreErrorKind::Encode,
        }
    }
}

} // verus!
