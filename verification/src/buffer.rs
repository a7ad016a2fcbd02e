//! The bytes of one transfer and the cursor that walks over them.

use vstd::prelude::*;

verus! {

/// The mathematical content of a [`Buffer`].
pub struct BufferView {
    /// All bytes of the region, those already transferred included.
    pub data: Seq<u8>,
    /// Index of the next byte to transfer.
    pub start: int,
    /// Whether received bytes overwrite the region.
    pub read: bool,
}

impl BufferView {
    /// Index one past the last byte of the region.
    pub open spec fn end(self) -> int {
        self.data.len() as int
    }

    /// The cursor lies inside the region or at its end.
    pub open spec fn wf(self) -> bool {
        0 <= self.start <= self.end()
    }

    /// Nothing is left to transfer.
    pub open spec fn is_empty(self) -> bool {
        self.start == self.end()
    }

    /// Number of bytes still to transfer.
    pub open spec fn remaining(self) -> int {
        self.end() - self.start
    }

    /// The byte under the cursor.
    pub open spec fn current(self) -> u8
        recommends
            self.wf(),
            !self.is_empty(),
    {
        self.data[self.start]
    }

    /// The byte to push next, if any is left.
    pub open spec fn next(self) -> Option<u8> {
        if self.is_empty() {
            None
        } else {
            Some(self.current())
        }
    }

    /// The buffer after one byte `b` has come back: `b` replaces the byte under
    /// the cursor if the buffer is read into, and the cursor moves on by one.
    pub open spec fn receive(self, b: u8) -> BufferView
        recommends
            self.wf(),
            !self.is_empty(),
    {
        BufferView {
            data: if self.read {
                self.data.update(self.start, b)
            } else {
                self.data
            },
            start: self.start + 1,
            read: self.read,
        }
    }
}

/// A region of bytes to transfer, with a cursor on the next byte and the
/// direction of the transfer.
pub struct Buffer {
    data: Vec<u8>,
    start: usize,
    /// Whether the SPI will read bytes into the buffer after writing.
    read: bool,
}

impl View for Buffer {
    type V = BufferView;

    closed spec fn view(&self) -> BufferView {
        BufferView { data: self.data@, start: self.start as int, read: self.read }
    }
}

impl Buffer {
    /// The cursor never leaves the region.
    #[verifier::type_invariant]
    spec fn inv(self) -> bool {
        self.start <= self.data.len()
    }

    /// A buffer over no bytes at all.
    pub fn empty() -> (buf: Self)
        ensures
            buf@ == (BufferView { data: Seq::<u8>::empty(), start: 0, read: false }),
    {
        Self { data: Vec::new(), start: 0, read: false }
    }

    /// A buffer over all of `data`, with the cursor on its first byte.
    pub fn new(data: Vec<u8>, read: bool) -> (buf: Self)
        ensures
            buf@ == (BufferView { data: data@, start: 0, read }),
    {
        Self { data, start: 0, read }
    }

    /// Whether nothing is left to transfer.
    pub fn is_empty(&self) -> (r: bool)
        ensures
            r == self@.is_empty(),
            self@.wf(),
    {
        proof {
            use_type_invariant(self);
        }
        self.start == self.data.len()
    }

    /// The byte under the cursor.
    pub fn current(&self) -> (b: u8)
        requires
            !self@.is_empty(),
        ensures
            b == self@.current(),
            self@.wf(),
    {
        proof {
            use_type_invariant(self);
        }
        self.data[self.start]
    }

    /// Takes in the byte `b` that came back for the byte under the cursor and
    /// moves the cursor on. Returns the byte to push next, or `None` when the
    /// cursor has reached the end.
    pub fn advance(&mut self, b: u8) -> (next: Option<u8>)
        requires
            !old(self)@.is_empty(),
        ensures
            final(self)@ == old(self)@.receive(b),
            final(self)@.wf(),
            next == final(self)@.next(),
        no_unwind
    {
        proof {
            use_type_invariant(&*self);
        }
        if self.read {
            self.data[self.start] = b;
        }
        self.start = self.start + 1;
        if self.start < self.data.len() {
            Some(self.data[self.start])
        } else {
            None
        }
    }

    /// Gives the bytes back, those received included.
    pub fn into_data(self) -> (data: Vec<u8>)
        ensures
            data@ == self@.data,
    {
        self.data
    }
}

} // verus!
