//! What can go wrong between a caller and the cache.

use vstd::prelude::*;

verus! {

/// Why an operation of the session store failed. Each variant carries the
/// message of the failure it reports.
#[derive(Debug, PartialEq, Eq)]
pub enum StoreError {
    /// The record could not be turned into bytes.
    Encode(String),
    /// Bytes that the backend returned could not be turned into a record.
    Decode(String),
    /// The command itself failed: the connection broke, or the backend
    /// rejected the command.
    Backend(String),
}

/// How a command failed at the backend.
#[derive(Clone, Copy, Debug, PartialEq, Eq, Structural)]
pub enum BackendErrorKind {
    /// There is no entry under the key.
    NotFound,
    /// There is an entry under the key already.
    AlreadyExists,
    /// Any other failure of the connection or the protocol.
    Other,
}

/// A failed command, as the connection reports it.
#[derive(Debug, PartialEq, Eq)]
pub struct BackendError {
    pub kind: BackendErrorKind,
    pub message: String,
}

} // verus!
