//! The error kinds that the container reports to its caller.

use vstd::prelude::*;

verus! {

/// Why a call was refused. A refused call returns exactly one of these and is
/// never retried by the container itself.
#[derive(Clone, Copy, Debug, PartialEq, Eq, Structural)]
pub enum ContractError {
    /// An ownership record already exists.
    AlreadyInitialized,
    /// The caller is not the identity that the operation is reserved for.
    Unauthorized,
    /// The deadline of a proposal was already reached when it was proposed.
    InvalidExpiry,
    /// There is no pending ownership transfer to accept.
    NoPendingTransfer,
    /// The pending ownership transfer was accepted too late.
    TransferExpired,
    /// The counter cannot be incremented within its range.
    Overflow,
    /// The stored container was created by code of another name.
    NameMismatch,
    /// The running code is not newer than what the container stores.
    VersionNotNewer,
    /// A record that the operation reads is missing from the store.
    StorageFailure,
    /// Funds were attached to a message that accepts none.
    NonPayable,
}

} // verus!
