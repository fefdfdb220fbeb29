use vstd::prelude::*;

verus! {

/// Why a device operation failed.
#[derive(Clone, Copy, Debug, PartialEq, Eq, Structural)]
pub enum DeviceError {
    /// An underlying USB read or write failed or timed out.
    Transport,
    /// A caller-supplied value was outside its allowed range; no I/O was done.
    Validation,
    /// A response was too short to decode the requested fields.
    Protocol,
    /// Claiming an interface failed at session open, or release/reset failed
    /// at teardown.
    Lifecycle,
}

/// Returned by a transport implementation when a USB transfer fails or
/// times out. The session surfaces it as `DeviceError::Transport` (or
/// `DeviceError::Lifecycle` for claim, release and reset).
#[derive(Clone, Copy, Debug, PartialEq, Eq, Structural)]
pub struct TransportError;

} // verus!
