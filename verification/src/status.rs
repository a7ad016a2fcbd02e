//! Reading the status flags of a peripheral: which fault they report, and
//! whether a received byte is waiting.

use vstd::prelude::*;
use crate::error::Error;

verus! {

/// The flags of a peripheral's status register that matter for a transfer.
#[derive(Clone, Copy, Debug, PartialEq, Eq, Structural)]
pub struct Status {
    /// A frame did not have the expected format.
    pub frame_error: bool,
    /// A received byte was lost because the previous one had not been read.
    pub overrun: bool,
    /// Another master drove the bus.
    pub mode_fault: bool,
    /// The received checksum did not match.
    pub crc_error: bool,
    /// A received byte is waiting in the data register.
    pub rx_not_empty: bool,
}

impl Status {
    /// The fault that these flags report, if any. Where several fault flags
    /// are set, a frame format error goes before an overrun, that before a
    /// mode fault, and that before a checksum error.
    pub open spec fn fault(self) -> Option<Error> {
        if self.frame_error {
            Some(Error::BadFrameFormat)
        } else if self.overrun {
            Some(Error::Overrun)
        } else if self.mode_fault {
            Some(Error::ModeFault)
        } else if self.crc_error {
            Some(Error::BadChecksum)
        } else {
            None
        }
    }

    /// The flags themselves if they report no fault, and the fault if they do.
    pub fn status(self) -> (r: Result<Status, Error>)
        ensures
            r == match self.fault() {
                Some(e) => Err::<Status, Error>(e),
                None => Ok::<Status, Error>(self),
            },
    {
        if self.frame_error {
            Err(Error::BadFrameFormat)
        } else if self.overrun {
            Err(Error::Overrun)
        } else if self.mode_fault {
            Err(Error::ModeFault)
        } else if self.crc_error {
            Err(Error::BadChecksum)
        } else {
            Ok(self)
        }
    }

    /// Whether a read of the peripheral finds a byte under these flags: the
    /// fault, if they report one; else whether a byte is waiting in the data
    /// register, which is then to be read, and only then.
    pub fn ready(self) -> (r: Result<bool, Error>)
        ensures
            r == match self.fault() {
                Some(e) => Err::<bool, Error>(e),
                None => Ok::<bool, Error>(self.rx_not_empty),
            },
    {
        match self.status() {
            Err(e) => Err(e),
            Ok(flags) => Ok(flags.rx_not_empty),
        }
    }
}

} // verus!
