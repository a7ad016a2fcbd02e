//! The faults a transfer can end with.

use vstd::prelude::*;

verus! {

/// A fault reported by the hardware. The transfer logic does not interpret
/// these: a fault ends the transfer in flight and is handed to the caller as it
/// came.
#[derive(Clone, Copy, Debug, PartialEq, Eq, Structural)]
pub enum Error {
    /// A frame did not have the expected format.
    BadFrameFormat,
    /// A byte was received before the previous one had been read.
    Overrun,
    /// Another master drove the bus.
    ModeFault,
    /// The received checksum did not match.
    BadChecksum,
    /// The peripheral was used before it was set up.
    Uninitialized,
}

} // verus!
