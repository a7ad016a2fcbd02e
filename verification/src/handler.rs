//! The shared transfer state, the interrupt side of a transfer, and the handle
//! that starts transfers and collects their results.

use vstd::prelude::*;
use core::marker::PhantomData;
use crate::buffer::{Buffer, BufferView};
use crate::error::Error;
use crate::hardware::SPIHardware;
use crate::transfer::Transfer;

verus! {

/// The state of one peripheral: the hardware, the buffer of the current
/// transfer, and the slot for its result.
///
/// When the slot is empty and bytes are left in the buffer, hardware and buffer
/// belong to the interrupt side, which alone fills the slot. In every other
/// state they belong to the [`SPI`] handle, which alone empties it.
pub struct SPIHandler<H> {
    hardware: Option<H>,
    buf: Buffer,
    result: Option<Result<(), Error>>,
}

/// A `SPI` can be obtained by calling `init` on a [`SPIHandler`].
///
/// It is the only way to start a transfer on a handler and to take the result
/// out of its slot.
pub struct SPI<H> {
    hardware: PhantomData<H>,
}

impl<H> View for SPIHandler<H> {
    type V = Transfer;

    closed spec fn view(&self) -> Transfer {
        Transfer { buffer: self.buf@, result: self.result }
    }
}

impl<H> SPIHandler<H> {
    /// The buffer's cursor lies inside it, and before `init` has run nothing
    /// was ever installed.
    #[verifier::type_invariant]
    spec fn inv(self) -> bool {
        &&& self@.wf()
        &&& self.hardware is None ==> self@ == Transfer::idle()
    }

    /// The hardware bound by `init`, if it has run.
    pub closed spec fn hardware(&self) -> Option<H> {
        self.hardware
    }

    /// Whether `init` has run.
    pub open spec fn initialized(&self) -> bool {
        self.hardware() is Some
    }

    /// A handler without hardware. No transfer can run on it before `init`.
    pub fn new() -> (handler: Self)
        ensures
            !handler.initialized(),
            handler@ == Transfer::idle(),
    {
        Self { hardware: None, buf: Buffer::empty(), result: None }
    }
}

impl<H: SPIHardware> SPIHandler<H> {
    /// Binds the hardware to this handler and returns the handle through which
    /// transfers are started. Can only be run once for a handler.
    pub fn init(&mut self, hardware: H) -> (spi: SPI<H>)
        requires
            !old(self).initialized(),
        ensures
            final(self).hardware() == Some(hardware),
            final(self)@ == old(self)@,
    {
        proof {
            use_type_invariant(&*self);
        }
        self.hardware = Some(hardware);
        SPI { hardware: PhantomData }
    }

    /// Applies to the transfer in flight what one interrupt brought: a
    /// received byte or a fault.
    ///
    /// A fault is put into the result slot and ends the transfer; the bytes
    /// received before stay in the buffer. A byte is stored if the buffer is
    /// read into, and the cursor moves on by one. If bytes are left then, the
    /// one under the cursor is returned for the hardware to send; if not,
    /// success is put into the result slot.
    pub fn step(&mut self, received: Result<u8, Error>) -> (push: Option<u8>)
        requires
            old(self)@.in_flight(),
        ensures
            final(self)@ == old(self)@.step(received),
            final(self)@.wf(),
            final(self).hardware() == old(self).hardware(),
            push == old(self)@.pushed(received),
    {
        proof {
            use_type_invariant(&*self);
        }
        match received {
            Err(e) => {
                self.result = Some(Err(e));
                None
            },
            Ok(b) => {
                let next = self.buf.advance(b);
                if next.is_none() {
                    self.result = Some(Ok(()));
                }
                next
            },
        }
    }

    /// Handles one interrupt of the peripheral: asks the hardware what came
    /// in, applies it to the transfer in flight as `step` does, and pushes the
    /// byte that `step` returns, if any, to the hardware.
    ///
    /// Returns what the hardware reported. `Ok(None)` says that the interrupt
    /// brought neither a byte nor a fault; nothing is changed then, and the
    /// caller has to treat it as fatal.
    ///
    /// Must only be called for an interrupt that a transfer in flight has
    /// caused.
    pub fn handle_interrupt(&mut self) -> (polled: Result<Option<u8>, Error>)
        requires
            old(self)@.in_flight(),
        ensures
            final(self).hardware() == old(self).hardware(),
            final(self)@.wf(),
            match polled {
                Ok(None) => final(self)@ == old(self)@,
                Ok(Some(b)) => final(self)@ == old(self)@.step(Ok(b)),
                Err(e) => final(self)@ == old(self)@.step(Err(e)),
            },
    {
        proof {
            use_type_invariant(&*self);
        }
        let polled = self.hardware.as_ref().unwrap().read();
        match polled {
            Err(e) => {
                self.step(Err(e));
            },
            Ok(None) => {},
            Ok(Some(b)) => {
                if let Some(next) = self.step(Ok(b)) {
                    self.hardware.as_ref().unwrap().write(next);
                }
            },
        }
        polled
    }

    /// Whether `init` has run.
    pub fn is_initialized(&self) -> (r: bool)
        ensures
            r == self.initialized(),
    {
        self.hardware.is_some()
    }

    /// Whether a transfer is under way, so that the next interrupt belongs to
    /// it and no other transfer may be started.
    pub fn in_flight(&self) -> (r: bool)
        ensures
            r == self@.in_flight(),
            r ==> self.initialized(),
            self@.wf(),
    {
        proof {
            use_type_invariant(self);
        }
        let empty = self.buf.is_empty();
        self.result.is_none() && !empty
    }

    /// The result in the slot, if the last transfer has ended and its result
    /// was not collected yet.
    pub fn result(&self) -> (r: Option<Result<(), Error>>)
        ensures
            r == self@.result,
    {
        self.result
    }
}

impl<H: SPIHardware> SPI<H> {
    /// Decides how the transfer of `buf` starts, and prepares `handler` for
    /// it.
    ///
    /// For a buffer with nothing left to transfer, nothing is changed and
    /// `None` is returned: the transfer is over before it began. For any other
    /// buffer a stale result is cleared from the slot and the buffer is
    /// installed, so that the transfer is in flight. Its first byte is
    /// returned: the transfer runs as soon as the hardware sends it.
    pub fn install(&mut self, handler: &mut SPIHandler<H>, buf: Buffer) -> (first: Option<u8>)
        requires
            old(handler).initialized(),
            !old(handler)@.in_flight(),
        ensures
            final(handler).hardware() == old(handler).hardware(),
            final(handler)@.wf(),
            buf@.is_empty() ==> first is None && final(handler)@ == old(handler)@,
            !buf@.is_empty() ==> first == Some(buf@.current()) && final(handler)@ == old(
                handler,
            )@.begin(buf@),
    {
        proof {
            use_type_invariant(&*handler);
        }
        if buf.is_empty() {
            return None;
        }
        let first = buf.current();
        handler.result = None;
        handler.buf = buf;
        Some(first)
    }

    /// Starts the transfer of `buf` on `handler`.
    ///
    /// For a buffer with nothing left to transfer the result is `Ok(())` at
    /// once: neither the handler nor the hardware is touched. For any other
    /// buffer the handler is prepared as `install` does and the first byte is
    /// pushed to the hardware. From then on the transfer belongs to the
    /// interrupt side, and `None` is returned: the result will be in the slot
    /// once the last byte has come back or a fault has occurred.
    ///
    /// A transfer that is under way cannot be cancelled, and no transfer may be
    /// started while another is in flight.
    pub fn begin(&mut self, handler: &mut SPIHandler<H>, buf: Buffer) -> (r: Option<
        Result<(), Error>,
    >)
        requires
            old(handler).initialized(),
            !old(handler)@.in_flight(),
        ensures
            final(handler).hardware() == old(handler).hardware(),
            final(handler)@.wf(),
            buf@.is_empty() ==> r == Some(Ok::<(), Error>(())) && final(handler)@ == old(
                handler,
            )@,
            !buf@.is_empty() ==> r is None && final(handler)@ == old(handler)@.begin(buf@),
    {
        match self.install(handler, buf) {
            None => Some(Ok(())),
            Some(first) => {
                // Control goes to the interrupt side with the first byte, whose
                // reception raises the first interrupt. This must be the last
                // operation on the handler.
                handler.hardware.as_ref().unwrap().write(first);
                None
            },
        }
    }

    /// Starts a transfer in which the bytes received overwrite `xs`, byte for
    /// byte. See `begin`.
    pub fn transmit(&mut self, handler: &mut SPIHandler<H>, xs: Vec<u8>) -> (r: Option<
        Result<(), Error>,
    >)
        requires
            old(handler).initialized(),
            !old(handler)@.in_flight(),
        ensures
            final(handler).hardware() == old(handler).hardware(),
            final(handler)@.wf(),
            xs@.len() == 0 ==> r == Some(Ok::<(), Error>(())) && final(handler)@ == old(
                handler,
            )@,
            xs@.len() > 0 ==> r is None && final(handler)@ == old(handler)@.begin(
                BufferView { data: xs@, start: 0, read: true },
            ),
    {
        self.begin(handler, Buffer::new(xs, true))
    }

    /// Starts a transfer that sends `xs` and discards the bytes received. See
    /// `begin`.
    pub fn write(&mut self, handler: &mut SPIHandler<H>, xs: Vec<u8>) -> (r: Option<
        Result<(), Error>,
    >)
        requires
            old(handler).initialized(),
            !old(handler)@.in_flight(),
        ensures
            final(handler).hardware() == old(handler).hardware(),
            final(handler)@.wf(),
            xs@.len() == 0 ==> r == Some(Ok::<(), Error>(())) && final(handler)@ == old(
                handler,
            )@,
            xs@.len() > 0 ==> r is None && final(handler)@ == old(handler)@.begin(
                BufferView { data: xs@, start: 0, read: false },
            ),
    {
        self.begin(handler, Buffer::new(xs, false))
    }

    /// Collects the result of the last transfer, if it has ended: takes the
    /// result out of the slot and the buffer's bytes out of the handler, which
    /// is left as it was before any transfer. While no result is in the slot,
    /// `None` is returned and nothing is changed.
    pub fn finish(&mut self, handler: &mut SPIHandler<H>) -> (r: Option<
        (Result<(), Error>, Vec<u8>),
    >)
        ensures
            final(handler).hardware() == old(handler).hardware(),
            match old(handler)@.result {
                None => r is None && final(handler)@ == old(handler)@,
                Some(result) => {
                    &&& r matches Some((res, data))
                    &&& res == result
                    &&& data@ == old(handler)@.buffer.data
                    &&& final(handler)@ == Transfer::idle()
                },
            },
    {
        proof {
            use_type_invariant(&*handler);
        }
        match handler.result {
            None => None,
            Some(result) => {
                handler.result = None;
                let mut buf = Buffer::empty();
                std::mem::swap(&mut handler.buf, &mut buf);
                Some((result, buf.into_data()))
            },
        }
    }
}

} // verus!
