//! The error taxonomy of the record store.
//!
//! Every failure from the engine, the codec, or a lock is mapped into exactly
//! one of these variants; no operation panics or retries on its own.

use vstd::prelude::*;

verus! {

/// A failure of a record-store operation.
///
/// - `EngineError`: a relation or transaction failure from the underlying store.
/// - `CodecError`: an encode/decode failure of a record or key.
/// - `LockError`: the environment handle could not be acquired.
/// - `IndexUndefined`: a query named a field that was not registered at open time.
/// - `InvalidType`: a relation returned a value of unexpected shape (expected, found).
/// - `ValueError`: a referential inconsistency, such as an index entry pointing at
///   a missing primary record.
#[derive(Debug)]
pub enum MegadexDbError {
    EngineError(String),
    CodecError(String),
    LockError(String),
    IndexUndefined(String),
    InvalidType(String, String),
    ValueError(String),
}

impl PartialEq for MegadexDbError {
    fn eq(&self, other: &MegadexDbError) -> (r: bool) {
        match (self, other) {
            (MegadexDbError::EngineError(a), MegadexDbError::EngineError(b)) => *a == *b,
            (MegadexDbError::CodecError(a), MegadexDbError::CodecError(b)) => *a == *b,
            (MegadexDbError::LockError(a), MegadexDbError::LockError(b)) => *a == *b,
            (MegadexDbError::IndexUndefined(a), MegadexDbError::IndexUndefined(b)) => *a == *b,
            (MegadexDbError::InvalidType(a, b), MegadexDbError::InvalidType(c, d)) => *a == *c
                && *b == *d,
            (MegadexDbError::ValueError(a), MegadexDbError::ValueError(b)) => *a == *b,
            _ => false,
        }
    }
}

impl vstd::std_specs::cmp::PartialEqSpecImpl for MegadexDbError {
    open spec fn obeys_eq_spec() -> bool {
        true
    }

    open spec fn eq_spec(&self, other: &MegadexDbError) -> bool {
        match (self, other) {
            (MegadexDbError::EngineError(a), MegadexDbError::EngineError(b)) => a@ == b@,
            (MegadexDbError::CodecError(a), MegadexDbError::CodecError(b)) => a@ == b@,
            (MegadexDbError::LockError(a), MegadexDbError::LockError(b)) => a@ == b@,
            (MegadexDbError::IndexUndefined(a), MegadexDbError::IndexUndefined(b)) => a@ == b@,
            (MegadexDbError::InvalidType(a, b), MegadexDbError::InvalidType(c, d)) => a@ == c@
                && b@ == d@,
            (MegadexDbError::ValueError(a), MegadexDbError::ValueError(b)) => a@ == b@,
            _ => false,
        }
    }
}

impl MegadexDbError {
    /// A short label for the variant, usable where a caller wants to display
    /// the kind of failure.
    pub fn kind(&self) -> (r: String)
        ensures
            match self {
                MegadexDbError::EngineError(_) => r@ == "engine error"@,
                MegadexDbError::CodecError(_) => r@ == "codec error"@,
                MegadexDbError::LockError(_) => r@ == "lock error"@,
                MegadexDbError::IndexUndefined(_) => r@ == "index undefined"@,
                MegadexDbError::InvalidType(_, _) => r@ == "invalid type"@,
                MegadexDbError::ValueError(_) => r@ == "value error"@,
            },
    {
        match self {
            MegadexDbError::EngineError(_) => "engine error".to_owned(),
            MegadexDbError::CodecError(_) => "codec error".to_owned(),
            MegadexDbError::LockError(_) => "lock error".to_owned(),
            MegadexDbError::IndexUndefined(_) => "index undefined".to_owned(),
            MegadexDbError::InvalidType(_, _) => "invalid type".to_owned(),
            MegadexDbError::ValueError(_) => "value error".to_owned(),
        }
    }
}

} // verus!
