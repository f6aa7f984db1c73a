use vstd::prelude::*;

verus! {

/// Failure reported by the bus transport. The `code` field carries through
/// whatever the transport reported, so a caller can still tell bus faults
/// apart after they have been wrapped.
#[derive(Clone, Copy, PartialEq, Eq, Structural, Debug)]
pub struct BusFault {
    pub code: u8,
}

/// Failure reported by the reset line. Kept distinct from [`BusFault`] so
/// that a reset-line problem is never mistaken for a bus problem.
#[derive(Clone, Copy, PartialEq, Eq, Structural, Debug)]
pub struct PinFault {
    pub code: u8,
}

/// Runtime errors of the driver, after initialization.
#[derive(Clone, Copy, PartialEq, Eq, Structural, Debug)]
pub enum Error {
    /// The destination buffer is too small for the command's parameter bytes.
    /// Nothing is written in that case; truncation is never silent.
    BufferTooSmall,
    /// The transport failed while a command or its data was being sent.
    CommandFailure(BusFault),
}

/// Errors during initialization. A failed `init` leaves the controller in an
/// unknown state: the caller must reset and run the whole sequence again.
#[derive(Clone, Copy, PartialEq, Eq, Structural, Debug)]
pub enum InitError {
    /// Driving the reset line failed.
    ResetLineFailure(PinFault),
    /// Sending a command over the bus failed.
    CommandFailure(BusFault),
}

} // verus!
