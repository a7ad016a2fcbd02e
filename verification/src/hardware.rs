//! The interface to the peripheral itself.

use vstd::prelude::*;
use crate::error::Error;

verus! {

/// What the transfer logic needs from a peripheral: a way to push one byte out
/// and a way to ask for the byte that came back.
///
/// Nothing is promised about what an implementation returns, so everything
/// proved about a transfer holds for every answer the hardware may give.
pub trait SPIHardware {
    /// Read a data byte from the peripheral. Returns `Ok(None)` if no byte is
    /// ready yet. This method gets called while an interrupt is handled and
    /// must always clear the cause of the interrupt.
    fn read(&self) -> Result<Option<u8>, Error>;

    /// Write a data byte to the peripheral.
    fn write(&self, x: u8);
}

} // verus!
