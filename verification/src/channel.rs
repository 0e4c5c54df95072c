//! The synchronous mailbox: one state cell and one data window, exchanged
//! between exactly one sender and one receiver in strict alternation. The
//! state word is the publication point: only the side whose turn it is may
//! touch the window, which is the sole property the handshake enforces.
//!
//! This module is the in-process form of the protocol, with the state word
//! and the window as plain values; a cross-process deployment maps the same
//! fields into a shared region and drives the same decisions from the
//! `state` and `spin` modules.

use vstd::prelude::*;

use crate::envelope;
use crate::envelope::FramingError;
use crate::state::{is_valid_state, STATE_READY_TO_READ, STATE_READY_TO_WRITE};

verus! {

/// The one failure a send or receive can report: the awaited turn did not
/// arrive within the caller's limit. A timed-out call leaves the channel
/// exactly as it found it.
#[derive(Clone, Copy, PartialEq, Eq, Structural, Debug)]
pub enum ShmemLabError {
    Timeout,
}

/// A completed operation together with the number of failed polls that
/// preceded it. The spin count serves latency diagnostics only and never
/// affects what the operation did.
#[derive(Debug)]
pub struct Success<T> {
    pub value: T,
    pub spin_count: u64,
}

/// Spin counts gathered over a run, for latency analysis.
pub struct Stats {
    pub send_spins: Vec<u64>,
    pub receive_spins: Vec<u64>,
}

impl Stats {
    /// An empty record.
    pub fn new() -> (s: Stats)
        ensures
            s.send_spins@ == Seq::<u64>::empty(),
            s.receive_spins@ == Seq::<u64>::empty(),
    {
        Stats { send_spins: Vec::new(), receive_spins: Vec::new() }
    }

    /// Note the spin count of one completed send.
    pub fn record_send(&mut self, spins: u64)
        ensures
            final(self).send_spins@ == old(self).send_spins@.push(spins),
            final(self).receive_spins@ == old(self).receive_spins@,
    {
        self.send_spins.push(spins);
    }

    /// Note the spin count of one completed receive.
    pub fn record_receive(&mut self, spins: u64)
        ensures
            final(self).receive_spins@ == old(self).receive_spins@.push(spins),
            final(self).send_spins@ == old(self).send_spins@,
    {
        self.receive_spins.push(spins);
    }
}

/// One unidirectional mailbox: the turn word and the fixed-capacity data
/// window of a single named region. A duplex exchange uses two of these
/// with the roles swapped.
pub struct Channel {
    state: u64,
    window: Vec<u8>,
}

impl Channel {
    /// The turn word.
    pub closed spec fn state_word(self) -> u64 {
        self.state
    }

    /// The bytes of the data window. The window always holds exactly
    /// `capacity` bytes; sends overwrite it in place and never resize it.
    pub closed spec fn window_bytes(self) -> Seq<u8> {
        self.window@
    }

    /// The fixed payload capacity of the window.
    pub open spec fn capacity(self) -> int {
        self.window_bytes().len() as int
    }

    /// A channel is well formed once its turn word holds one of the two
    /// valid handshake states.
    pub open spec fn wf(self) -> bool {
        is_valid_state(self.state_word())
    }

    /// The writer holds the turn.
    pub open spec fn ready_to_write(self) -> bool {
        self.state_word() == STATE_READY_TO_WRITE
    }

    /// The reader holds the turn.
    pub open spec fn ready_to_read(self) -> bool {
        self.state_word() == STATE_READY_TO_READ
    }

    /// A fresh channel: the writer has the first turn and the window is
    /// zeroed.
    pub fn create(capacity: usize) -> (c: Channel)
        ensures
            c.wf(),
            c.ready_to_write(),
            c.capacity() == capacity,
            c.window_bytes() == Seq::new(capacity as nat, |i: int| 0u8),
    {
        let mut window: Vec<u8> = Vec::new();
        let mut i: usize = 0;
        while i < capacity
            invariant
                i <= capacity,
                window@.len() == i,
                forall|j: int| 0 <= j < i ==> window@[j] == 0u8,
            decreases capacity - i,
        {
            window.push(0u8);
            i = i + 1;
        }
        Channel { state: STATE_READY_TO_WRITE, window }
    }

    /// The capacity, as a machine value.
    pub fn capacity_len(&self) -> (n: usize)
        ensures
            n as int == self.capacity(),
    {
        self.window.len()
    }

    /// At any instant exactly one side holds the turn: a well-formed channel
    /// is ready to write or ready to read, never both. With `begin`'s
    /// contracts this is the alternation guarantee: after a send, the
    /// sender's next `begin` cannot succeed until the receiver commits.
    pub proof fn lemma_turn_exclusive(self)
        requires
            self.wf(),
        ensures
            self.ready_to_write() <==> !self.ready_to_read(),
    {
    }

    /// The sender asks for its turn with one poll of the turn word. No
    /// failed polls precede success, so the reported spin count is zero;
    /// a process waiting across the shared region repeats the poll under
    /// `spin::spin_step` instead. A refusal leaves the channel untouched.
    pub fn sender_begin(&self) -> (r: Result<Success<()>, ShmemLabError>)
        ensures
            r is Ok <==> self.ready_to_write(),
            r is Ok ==> r->Ok_0.spin_count == 0,
            r is Err ==> r->Err_0 == ShmemLabError::Timeout,
    {
        if self.state == STATE_READY_TO_WRITE {
            Ok(Success { value: (), spin_count: 0 })
        } else {
            Err(ShmemLabError::Timeout)
        }
    }

    /// The receiver asks for its turn; symmetric to `sender_begin`. A
    /// refusal reports a timeout and leaves the channel untouched, so a
    /// later send still finds the channel exactly as it was.
    pub fn receiver_begin(&self) -> (r: Result<Success<()>, ShmemLabError>)
        ensures
            r is Ok <==> self.ready_to_read(),
            r is Ok ==> r->Ok_0.spin_count == 0,
            r is Err ==> r->Err_0 == ShmemLabError::Timeout,
    {
        if self.state == STATE_READY_TO_READ {
            Ok(Success { value: (), spin_count: 0 })
        } else {
            Err(ShmemLabError::Timeout)
        }
    }

    /// Write a payload into the window the sender's turn grants: the first
    /// `payload.len()` bytes are overwritten in place, the rest of the
    /// window keeps its old bytes, and the turn word does not move.
    pub fn write_window(&mut self, payload: &Vec<u8>)
        requires
            old(self).ready_to_write(),
            payload@.len() <= old(self).capacity(),
        ensures
            final(self).ready_to_write(),
            final(self).window_bytes() == payload@ + old(self).window_bytes().skip(
                payload@.len() as int,
            ),
    {
        let mut i: usize = 0;
        while i < payload.len()
            invariant
                i <= payload@.len(),
                payload@.len() <= self.window@.len(),
                self.state == old(self).state,
                self.window@.len() == old(self).window@.len(),
                forall|j: int| 0 <= j < i ==> self.window@[j] == payload@[j],
                forall|j: int|
                    i <= j < self.window@.len() ==> self.window@[j] == old(self).window@[j],
            decreases payload@.len() - i,
        {
            let b: u8 = payload[i];
            self.window.set(i, b);
            i = i + 1;
        }
        assert(self.window@ =~= payload@ + old(self).window@.skip(payload@.len() as int));
    }

    /// Publish the written payload: the `READY_TO_WRITE` to `READY_TO_READ`
    /// transition that ends the sender's turn. Must follow every write into
    /// the window; a window obtained and never committed leaves the other
    /// side waiting forever, which is the documented caller obligation.
    pub fn commit_send(&mut self)
        requires
            old(self).ready_to_write(),
        ensures
            final(self).ready_to_read(),
            final(self).window_bytes() == old(self).window_bytes(),
    {
        self.state = STATE_READY_TO_READ;
    }

    /// Read the window the receiver's turn grants, without giving the turn
    /// up: the returned bytes are the whole window.
    pub fn read_window(&self) -> (bytes: Vec<u8>)
        requires
            self.ready_to_read(),
        ensures
            bytes@ == self.window_bytes(),
    {
        let mut bytes: Vec<u8> = Vec::new();
        let mut i: usize = 0;
        while i < self.window.len()
            invariant
                i <= self.window@.len(),
                bytes@ == self.window@.subrange(0, i as int),
            decreases self.window@.len() - i,
        {
            let b: u8 = self.window[i];
            bytes.push(b);
            assert(bytes@ =~= self.window@.subrange(0, i + 1));
            i = i + 1;
        }
        assert(bytes@ =~= self.window@);
        bytes
    }

    /// Hand the turn back to the writer: the `READY_TO_READ` to
    /// `READY_TO_WRITE` transition that ends the receiver's turn.
    pub fn commit_receive(&mut self)
        requires
            old(self).ready_to_read(),
        ensures
            final(self).ready_to_write(),
            final(self).window_bytes() == old(self).window_bytes(),
    {
        self.state = STATE_READY_TO_WRITE;
    }

    /// Direct-shape send: begin, write, and commit in one call. With the
    /// turn in hand the payload lands at the start of the window and the
    /// turn passes to the reader; without it the channel is left exactly as
    /// it was and the caller gets the timeout back.
    pub fn send(&mut self, payload: &Vec<u8>) -> (r: Result<Success<()>, ShmemLabError>)
        requires
            payload@.len() <= old(self).capacity(),
        ensures
            r is Ok <==> old(self).ready_to_write(),
            r is Ok ==> r->Ok_0.spin_count == 0 && final(self).ready_to_read()
                && final(self).window_bytes() == payload@ + old(self).window_bytes().skip(
                payload@.len() as int,
            ),
            r is Err ==> r->Err_0 == ShmemLabError::Timeout && *final(self) == *old(self),
    {
        if self.state == STATE_READY_TO_WRITE {
            self.write_window(payload);
            self.commit_send();
            Ok(Success { value: (), spin_count: 0 })
        } else {
            Err(ShmemLabError::Timeout)
        }
    }

    /// Direct-shape receive: begin, read, and commit in one call. With the
    /// turn in hand the whole window comes back and the turn passes to the
    /// writer; without it the channel is left exactly as it was.
    pub fn receive(&mut self) -> (r: Result<Success<Vec<u8>>, ShmemLabError>)
        ensures
            r is Ok <==> old(self).ready_to_read(),
            r is Ok ==> r->Ok_0.spin_count == 0 && r->Ok_0.value@ == old(self).window_bytes()
                && final(self).ready_to_write()
                && final(self).window_bytes() == old(self).window_bytes(),
            r is Err ==> r->Err_0 == ShmemLabError::Timeout && *final(self) == *old(self),
    {
        if self.state == STATE_READY_TO_READ {
            let bytes = self.read_window();
            self.commit_receive();
            Ok(Success { value: bytes, spin_count: 0 })
        } else {
            Err(ShmemLabError::Timeout)
        }
    }
}

/// A strictly alternating run: frame and send each message in turn,
/// receiving each one before the next send. The receiver observes exactly
/// the sent payloads, in order, with no duplication and no loss; the run
/// fails only when some message does not fit the window, and even then the
/// channel is back with the writer.
pub fn exchange(channel: &mut Channel, messages: &Vec<Vec<u8>>) -> (r: Result<
    Vec<Vec<u8>>,
    FramingError,
>)
    requires
        old(channel).wf(),
        old(channel).ready_to_write(),
    ensures
        final(channel).wf(),
        final(channel).ready_to_write(),
        final(channel).capacity() == old(channel).capacity(),
        r is Ok <==> (forall|i: int|
            0 <= i < messages@.len() ==> envelope::fits(
                messages@[i]@.len() as int,
                old(channel).capacity(),
            )),
        r is Ok ==> r->Ok_0@.len() == messages@.len() && (forall|i: int|
            0 <= i < messages@.len() ==> r->Ok_0@[i]@ == messages@[i]@),
        r is Err ==> r->Err_0 == FramingError::Oversize,
{
    let capacity: usize = channel.capacity_len();
    let mut received: Vec<Vec<u8>> = Vec::new();
    let mut k: usize = 0;
    while k < messages.len()
        invariant
            k <= messages@.len(),
            channel.wf(),
            channel.ready_to_write(),
            channel.capacity() == old(channel).capacity(),
            capacity as int == old(channel).capacity(),
            received@.len() == k,
            forall|i: int|
                0 <= i < k ==> envelope::fits(messages@[i]@.len() as int, old(channel).capacity()),
            forall|i: int| 0 <= i < k ==> received@[i]@ == messages@[i]@,
        decreases messages@.len() - k,
    {
        let message = &messages[k];
        match envelope::encode(message, capacity) {
            Err(_) => {
                return Err(FramingError::Oversize);
            },
            Ok(frame) => {
                let ghost pre_window = channel.window_bytes();
                let sent = channel.send(&frame);
                assert(sent is Ok);
                let got = channel.receive();
                assert(got is Ok);
                let window = match got {
                    Ok(s) => s.value,
                    Err(_) => vstd::pervasive::unreached(),
                };
                proof {
                    envelope::lemma_envelope_round_trip_padded(
                        message@,
                        pre_window.skip(frame@.len() as int),
                    );
                }
                match envelope::decode(&window) {
                    Ok(payload) => {
                        received.push(payload);
                    },
                    Err(_) => vstd::pervasive::unreached(),
                }
            },
        }
        k = k + 1;
    }
    Ok(received)
}

} // verus!
