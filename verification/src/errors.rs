//! Error vocabulary of the bridge, mirroring the taxonomy the peripheral
//! stack expects: setup-time validation failures, allocation failures, and
//! the recoverable or fatal transfer outcomes.

use vstd::prelude::*;

verus! {

/// Validation failure while building the initialization record, reported
/// before any kernel call is attempted.
#[derive(Clone, Copy, Debug, PartialEq, Eq, Structural)]
pub enum InitError {
    /// A driver or device name does not leave room for its nul terminator
    /// inside the fixed 128-byte field.
    NameTooLong,
    /// A driver or device name contains an interior nul byte and so cannot
    /// be passed as a C string.
    NameHasNul,
}

/// Failure of an endpoint allocation request: no free capability slot
/// satisfies the requested direction, transfer type and packet size, or the
/// address space of the requested direction is exhausted.
#[derive(Clone, Copy, Debug, PartialEq, Eq, Structural)]
pub enum AllocError {
    NoMatchingEndpoint,
}

/// Outcome vocabulary for control and data transfers.
///
/// `Stalled`, `WouldBlock` and `Disabled` are recoverable, expected during
/// normal protocol operation. `UnknownEndpoint` reports an address that was
/// never allocated. `Channel` is fatal: the kernel handle failed in a way
/// the protocol does not anticipate.
#[derive(Clone, Copy, Debug, PartialEq, Eq, Structural)]
pub enum TransferError {
    Stalled,
    WouldBlock,
    Disabled,
    UnknownEndpoint,
    Channel,
}

} // verus!
