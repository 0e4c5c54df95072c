//! The round-trip capability a latency harness measures: send a framed
//! request on one channel of a duplex pair, have the far side echo it onto
//! the other, and get the structurally identical response back.

use vstd::prelude::*;

use crate::channel::{Channel, ShmemLabError, Success};
use crate::envelope;
use crate::envelope::FramingError;

verus! {

/// What a round trip can fail with: a turn that never came within its
/// limit, or a payload the envelope refuses.
#[derive(Clone, Copy, PartialEq, Eq, Structural, Debug)]
pub enum PingError {
    Channel(ShmemLabError),
    Framing(FramingError),
}

/// The echo turn can run: a frame is waiting on the inbound window, the
/// outbound writer turn is free, and the payload fits the outbound window.
pub open spec fn echo_ready(inbound: Channel, outbound: Channel) -> bool {
    inbound.ready_to_read() && envelope::frame_ok(inbound.window_bytes())
        && outbound.ready_to_write() && envelope::fits(
        envelope::frame_len(inbound.window_bytes()),
        outbound.capacity(),
    )
}

/// What the echo publishes on the outbound window: the inbound payload,
/// reframed, over whatever outbound bytes lie beyond the new frame.
pub open spec fn echo_window(inbound_window: Seq<u8>, outbound_window: Seq<u8>) -> Seq<u8> {
    envelope::encoded(envelope::decoded(inbound_window)) + outbound_window.skip(
        4 + envelope::frame_len(inbound_window),
    )
}

/// One responder turn of the echo service: take the frame waiting on
/// `inbound`, hand that turn back, and publish the same payload, reframed,
/// on `outbound`. Every failure leaves both channels exactly as they were;
/// nothing is consumed from `inbound` unless the echo can be published.
pub fn respond_echo(inbound: &mut Channel, outbound: &mut Channel) -> (r: Result<
    Success<()>,
    PingError,
>)
    ensures
        final(inbound).capacity() == old(inbound).capacity(),
        final(outbound).capacity() == old(outbound).capacity(),
        echo_ready(*old(inbound), *old(outbound)) ==> r is Ok && r->Ok_0.spin_count == 0
            && final(inbound).ready_to_write()
            && final(inbound).window_bytes() == old(inbound).window_bytes()
            && final(outbound).ready_to_read()
            && final(outbound).window_bytes() == echo_window(
            old(inbound).window_bytes(),
            old(outbound).window_bytes(),
        ),
        !echo_ready(*old(inbound), *old(outbound)) ==> r is Err && *final(inbound) == *old(inbound)
            && *final(outbound) == *old(outbound),
        !old(inbound).ready_to_read() ==> r == Err::<Success<()>, PingError>(
            PingError::Channel(ShmemLabError::Timeout),
        ),
        old(inbound).ready_to_read() && !envelope::frame_ok(old(inbound).window_bytes()) ==> r
            == Err::<Success<()>, PingError>(PingError::Framing(FramingError::Truncated)),
        old(inbound).ready_to_read() && envelope::frame_ok(old(inbound).window_bytes())
            && !old(outbound).ready_to_write() ==> r == Err::<Success<()>, PingError>(
            PingError::Channel(ShmemLabError::Timeout),
        ),
        old(inbound).ready_to_read() && envelope::frame_ok(old(inbound).window_bytes())
            && old(outbound).ready_to_write() && !envelope::fits(
            envelope::frame_len(old(inbound).window_bytes()),
            old(outbound).capacity(),
        ) ==> r == Err::<Success<()>, PingError>(PingError::Framing(FramingError::Oversize)),
{
    match inbound.receiver_begin() {
        Err(e) => {
            return Err(PingError::Channel(e));
        },
        Ok(_) => {},
    }
    let window = inbound.read_window();
    let payload = match envelope::decode(&window) {
        Ok(p) => p,
        Err(e) => {
            return Err(PingError::Framing(e));
        },
    };
    match outbound.sender_begin() {
        Err(e) => {
            return Err(PingError::Channel(e));
        },
        Ok(_) => {},
    }
    let out_capacity: usize = outbound.capacity_len();
    let frame = match envelope::encode(&payload, out_capacity) {
        Ok(f) => f,
        Err(e) => {
            return Err(PingError::Framing(e));
        },
    };
    inbound.commit_receive();
    let sent = outbound.send(&frame);
    assert(sent is Ok);
    Ok(Success { value: (), spin_count: 0 })
}

/// The round trip can run: both channels start with the writer and the
/// request fits both windows.
pub open spec fn ping_ready(outbound: Channel, inbound: Channel, request: Seq<u8>) -> bool {
    outbound.ready_to_write() && inbound.ready_to_write() && envelope::fits(
        request.len() as int,
        outbound.capacity(),
    ) && envelope::fits(request.len() as int, inbound.capacity())
}

/// A whole request/response round trip on a duplex pair, both roles played
/// in turn: frame and send the request on `outbound`, run one echo turn of
/// the responder, then take and unpack the response from `inbound`. The
/// response equals the request, unchanged, whenever the pair is ready for
/// it; every failure leaves both channels exactly as they were.
pub fn ping_round_trip(outbound: &mut Channel, inbound: &mut Channel, request: &Vec<u8>) -> (r:
    Result<Vec<u8>, PingError>)
    ensures
        final(outbound).capacity() == old(outbound).capacity(),
        final(inbound).capacity() == old(inbound).capacity(),
        ping_ready(*old(outbound), *old(inbound), request@) ==> r is Ok && r->Ok_0@ == request@
            && final(outbound).ready_to_write() && final(inbound).ready_to_write(),
        !ping_ready(*old(outbound), *old(inbound), request@) ==> r is Err
            && *final(outbound) == *old(outbound) && *final(inbound) == *old(inbound),
        !(old(outbound).ready_to_write() && old(inbound).ready_to_write()) ==> r == Err::<
            Vec<u8>,
            PingError,
        >(PingError::Channel(ShmemLabError::Timeout)),
        old(outbound).ready_to_write() && old(inbound).ready_to_write() && !ping_ready(
            *old(outbound),
            *old(inbound),
            request@,
        ) ==> r == Err::<Vec<u8>, PingError>(PingError::Framing(FramingError::Oversize)),
{
    match outbound.sender_begin() {
        Err(e) => {
            return Err(PingError::Channel(e));
        },
        Ok(_) => {},
    }
    match inbound.sender_begin() {
        Err(e) => {
            return Err(PingError::Channel(e));
        },
        Ok(_) => {},
    }
    let out_capacity: usize = outbound.capacity_len();
    let in_capacity: usize = inbound.capacity_len();
    let frame = match envelope::encode(request, out_capacity) {
        Ok(f) => f,
        Err(e) => {
            return Err(PingError::Framing(e));
        },
    };
    if in_capacity < 4 || request.len() > in_capacity - 4 {
        return Err(PingError::Framing(FramingError::Oversize));
    }
    let ghost pre_out_window = outbound.window_bytes();
    let sent = outbound.send(&frame);
    assert(sent is Ok);
    proof {
        envelope::lemma_envelope_round_trip_padded(
            request@,
            pre_out_window.skip(frame@.len() as int),
        );
    }
    let ghost pre_in_window = inbound.window_bytes();
    let echoed = respond_echo(outbound, inbound);
    assert(echoed is Ok);
    proof {
        envelope::lemma_envelope_round_trip_padded(
            request@,
            pre_in_window.skip(4 + request@.len() as int),
        );
    }
    let got = inbound.receive();
    assert(got is Ok);
    let response_window = match got {
        Ok(s) => s.value,
        Err(_) => vstd::pervasive::unreached(),
    };
    match envelope::decode(&response_window) {
        Ok(response) => Ok(response),
        Err(_) => vstd::pervasive::unreached(),
    }
}

} // verus!
