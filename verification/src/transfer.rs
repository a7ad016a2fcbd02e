//! The transfer as a mathematical state machine: the buffer, the result slot,
//! and what one received byte or one fault does to them.

use vstd::prelude::*;
use crate::buffer::BufferView;
use crate::error::Error;

verus! {

/// The state that the handle and the interrupt side share, without the
/// hardware.
pub struct Transfer {
    /// The buffer installed by the last transfer that was started.
    pub buffer: BufferView,
    /// The single slot through which a result goes back to the handle.
    pub result: Option<Result<(), Error>>,
}

impl Transfer {
    /// The state before any transfer.
    pub open spec fn idle() -> Transfer {
        Transfer {
            buffer: BufferView { data: Seq::<u8>::empty(), start: 0, read: false },
            result: None,
        }
    }

    /// The buffer's cursor lies inside the buffer or at its end.
    pub open spec fn wf(self) -> bool {
        self.buffer.wf()
    }

    /// A transfer is under way: the slot is empty and bytes are left. In this
    /// state the interrupt side owns hardware and buffer; in every other state
    /// the handle does.
    pub open spec fn in_flight(self) -> bool {
        self.result is None && !self.buffer.is_empty()
    }

    /// The state right after a transfer of `buffer` has been started: a stale
    /// result is gone and `buffer` is installed.
    pub open spec fn begin(self, buffer: BufferView) -> Transfer {
        Transfer { buffer, result: None }
    }

    /// The state after one interrupt that brought `received`.
    ///
    /// A fault ends the transfer with that fault and leaves the buffer as it
    /// is. A byte goes into the buffer, and the transfer ends with success if
    /// it was the last one.
    pub open spec fn step(self, received: Result<u8, Error>) -> Transfer
        recommends
            self.wf(),
            self.in_flight(),
    {
        match received {
            Err(e) => Transfer { buffer: self.buffer, result: Some(Err(e)) },
            Ok(b) => {
                let buffer = self.buffer.receive(b);
                Transfer {
                    buffer,
                    result: if buffer.is_empty() {
                        Some(Ok(()))
                    } else {
                        None
                    },
                }
            },
        }
    }

    /// The byte pushed to the hardware by the interrupt that brought
    /// `received`: the one under the cursor after a received byte, as long as
    /// one is left, and none after a fault.
    pub open spec fn pushed(self, received: Result<u8, Error>) -> Option<u8>
        recommends
            self.wf(),
            self.in_flight(),
    {
        match received {
            Err(_) => None,
            Ok(b) => self.buffer.receive(b).next(),
        }
    }

    /// The state after the interrupts that brought `events`, in this order.
    pub open spec fn run(self, events: Seq<Result<u8, Error>>) -> Transfer
        decreases events.len(),
    {
        if events.len() == 0 {
            self
        } else {
            self.run(events.drop_last()).step(events.last())
        }
    }
}

} // verus!
