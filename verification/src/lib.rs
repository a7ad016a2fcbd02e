//! Interrupt-driven byte transfers over a duplex serial peripheral, as a
//! verified state machine.
//!
//! A transfer is started by a [`SPI`] handle, which installs a [`Buffer`] into
//! the shared [`SPIHandler`] and pushes the first byte to the hardware. Every
//! received byte then raises an interrupt, and [`SPIHandler::handle_interrupt`]
//! moves the transfer on by one byte until the result lies in the handler's
//! single result slot, from where the handle collects it.
//!
//! Whoever may touch the hardware and the buffer is decided by that slot alone:
//! while a transfer is in flight the interrupt side owns both, otherwise the
//! handle does.
//!
//! The functions that talk to the hardware are stated over the state machine
//! of [`Transfer`], for whatever the hardware answers. What follows for whole
//! transfers is proved in [`laws`].

pub mod buffer;
pub mod error;
pub mod handler;
pub mod hardware;
pub mod laws;
pub mod status;
pub mod transfer;

pub use buffer::{Buffer, BufferView};
pub use error::Error;
pub use handler::{SPIHandler, SPI};
pub use hardware::SPIHardware;
pub use status::Status;
pub use transfer::Transfer;
