//! What holds of every transfer, proved over the state machine of
//! [`Transfer`].

use vstd::prelude::*;
use crate::buffer::BufferView;
use crate::error::Error;
use crate::transfer::Transfer;

verus! {

/// The interrupts that bring the bytes of `received`, one each and without a
/// fault.
pub open spec fn bytes(received: Seq<u8>) -> Seq<Result<u8, Error>> {
    Seq::new(received.len(), |i: int| Ok::<u8, Error>(received[i]))
}

impl BufferView {
    /// The buffer after the bytes of `received` have come back, one after the
    /// other: they lie where the cursor has passed if the buffer is read into,
    /// and every other byte is as before.
    pub open spec fn filled(self, received: Seq<u8>) -> BufferView
        recommends
            self.wf(),
            received.len() <= self.remaining(),
    {
        BufferView {
            data: if self.read {
                self.data.take(self.start) + received + self.data.skip(
                    self.start + received.len(),
                )
            } else {
                self.data
            },
            start: self.start + received.len(),
            read: self.read,
        }
    }
}

/// A transfer in flight that receives no more bytes than it has left stays in
/// flight until the last of them: the state after these bytes holds them in
/// the buffer, the cursor has passed as many bytes as came back, and the slot
/// holds success exactly when none is left.
pub proof fn lemma_run_bytes(t: Transfer, received: Seq<u8>)
    requires
        t.wf(),
        t.in_flight(),
        received.len() <= t.buffer.remaining(),
    ensures
        t.run(bytes(received)) == (Transfer {
            buffer: t.buffer.filled(received),
            result: if received.len() == t.buffer.remaining() {
                Some(Ok::<(), Error>(()))
            } else {
                None
            },
        }),
    decreases received.len(),
{
    let events = bytes(received);
    if received.len() == 0 {
        assert(t.buffer.filled(received).data =~= t.buffer.data);
    } else {
        let before = received.drop_last();
        let b = received.last();
        assert(events.drop_last() =~= bytes(before));
        assert(events.last() == Ok::<u8, Error>(b));
        lemma_run_bytes(t, before);
        let mid = t.run(bytes(before));
        assert(mid.buffer == t.buffer.filled(before));
        assert(mid.result is None);
        assert(t.run(events) == mid.step(Ok(b)));
        assert(mid.buffer.receive(b).data =~= t.buffer.filled(received).data);
    }
}

/// Handoff. After every interrupt of a transfer in flight, either the
/// transfer is still in flight, the slot is empty and a byte has been pushed
/// that will raise the next interrupt; or the transfer has ended, no byte has
/// been pushed and its result lies in the slot for the handle to collect.
pub proof fn lemma_handoff(t: Transfer, received: Result<u8, Error>)
    requires
        t.wf(),
        t.in_flight(),
    ensures
        t.step(received).wf(),
        t.step(received).in_flight() <==> t.step(received).result is None,
        t.step(received).in_flight() <==> t.pushed(received) is Some,
        received is Err ==> !t.step(received).in_flight(),
{
}

/// Byte count. A transfer of `n` bytes takes exactly `n` interrupts: after
/// `k <= n` received bytes the cursor has moved by exactly `k`, the transfer is
/// still in flight while `k < n`, and the slot holds success once `k == n`.
/// While it is in flight its slot is empty, so that no other transfer may be
/// started.
pub proof fn lemma_byte_count(t: Transfer, received: Seq<u8>)
    requires
        t.wf(),
        t.in_flight(),
        received.len() <= t.buffer.remaining(),
    ensures
        t.run(bytes(received)).buffer.start == t.buffer.start + received.len(),
        t.run(bytes(received)).wf(),
        received.len() < t.buffer.remaining() <==> t.run(bytes(received)).in_flight(),
        received.len() == t.buffer.remaining() <==> t.run(bytes(received)).result == Some(
            Ok::<(), Error>(()),
        ),
{
    lemma_run_bytes(t, received);
}

/// One interrupt that brings a byte moves the cursor by exactly one, whatever
/// the byte and the direction of the transfer.
pub proof fn lemma_step_advances(t: Transfer, b: u8)
    requires
        t.wf(),
        t.in_flight(),
    ensures
        t.step(Ok(b)).buffer.start == t.buffer.start + 1,
        t.step(Ok(b)).wf(),
        t.step(Ok(b)).buffer.data.len() == t.buffer.data.len(),
{
}

/// Overwrite. When as many bytes have come back as a transfer over all of
/// `data` has, the buffer holds exactly the bytes received, in their order, if
/// it was read into, and `data` unchanged if it was only written. Unless `data`
/// is empty, the slot then holds success.
pub proof fn lemma_overwrite(t: Transfer, data: Seq<u8>, read: bool, received: Seq<u8>)
    requires
        received.len() == data.len(),
    ensures
        ({
            let done = t.begin(BufferView { data, start: 0, read }).run(bytes(received));
            &&& data.len() > 0 ==> done.result == Some(Ok::<(), Error>(()))
            &&& done.buffer.data == if read {
                received
            } else {
                data
            }
        }),
{
    let buffer = BufferView { data, start: 0, read };
    if data.len() > 0 {
        lemma_run_bytes(t.begin(buffer), received);
        if read {
            assert(buffer.filled(received).data =~= received);
        }
    } else {
        assert(received =~= data);
    }
}

/// Error short-circuit. When the hardware reports a fault in place of the
/// `k`-th byte of a transfer in flight, the result is that fault, and exactly
/// the `k - 1` bytes received before it have gone into the buffer: the cursor
/// stands behind them and all later bytes are untouched.
pub proof fn lemma_error_short_circuit(t: Transfer, received: Seq<u8>, e: Error)
    requires
        t.wf(),
        t.in_flight(),
        received.len() < t.buffer.remaining(),
    ensures
        t.run(bytes(received).push(Err(e))) == (Transfer {
            buffer: t.buffer.filled(received),
            result: Some(Err(e)),
        }),
        forall|i: int|
            t.buffer.start + received.len() <= i < t.buffer.end() ==> t.buffer.filled(
                received,
            ).data[i] == t.buffer.data[i],
        forall|i: int|
            0 <= i < received.len() && t.buffer.read ==> t.buffer.filled(
                received,
            ).data[t.buffer.start + i] == received[i],
{
    let events = bytes(received).push(Err(e));
    assert(events.drop_last() =~= bytes(received));
    lemma_run_bytes(t, received);
}

} // verus!
