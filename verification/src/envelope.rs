//! The message envelope shared by every transport: a four-byte
//! little-endian unsigned length prefix followed by exactly that many
//! payload bytes. A data window is decoded by reading the prefix and then
//! the claimed bytes; a prefix that claims more bytes than the window holds
//! is a framing error.

use vstd::prelude::*;

verus! {

/// Why a payload could not be framed, or a frame could not be unpacked.
#[derive(Clone, Copy, PartialEq, Eq, Structural, Debug)]
pub enum FramingError {
    /// The payload plus its four-byte prefix does not fit the capacity.
    Oversize,
    /// The frame does not hold the bytes its length prefix claims.
    Truncated,
}

/// Little-endian byte image of a 32-bit length.
pub open spec fn le_bytes_of_u32(n: u32) -> Seq<u8> {
    seq![
        (n & 0xff) as u8,
        ((n >> 8) & 0xff) as u8,
        ((n >> 16) & 0xff) as u8,
        ((n >> 24) & 0xff) as u8,
    ]
}

/// The 32-bit length read back from four little-endian bytes.
pub open spec fn u32_of_le_bytes(b: Seq<u8>) -> u32
    recommends
        b.len() == 4,
{
    (b[0] as u32) | ((b[1] as u32) << 8) | ((b[2] as u32) << 16) | ((b[3] as u32) << 24)
}

/// A framed payload: the little-endian image of its length, then its bytes.
pub open spec fn encoded(payload: Seq<u8>) -> Seq<u8>
    recommends
        payload.len() <= u32::MAX,
{
    le_bytes_of_u32(payload.len() as u32) + payload
}

/// The payload length a frame's prefix claims.
pub open spec fn frame_len(frame: Seq<u8>) -> int
    recommends
        frame.len() >= 4,
{
    u32_of_le_bytes(frame.subrange(0, 4)) as int
}

/// A frame is well formed when it holds its prefix and the bytes the prefix
/// claims.
pub open spec fn frame_ok(frame: Seq<u8>) -> bool {
    frame.len() >= 4 && 4 + frame_len(frame) <= frame.len()
}

/// The payload a well-formed frame carries.
pub open spec fn decoded(frame: Seq<u8>) -> Seq<u8>
    recommends
        frame_ok(frame),
{
    frame.subrange(4, 4 + frame_len(frame))
}

/// A payload fits a window of the given capacity when the prefix and the
/// payload fit together and the length is expressible in 32 bits.
pub open spec fn fits(payload_len: int, capacity: int) -> bool {
    payload_len + 4 <= capacity && payload_len <= u32::MAX
}

/// Reading four little-endian bytes back gives the length they were made
/// from.
pub proof fn lemma_le_round_trip(n: u32)
    ensures
        u32_of_le_bytes(le_bytes_of_u32(n)) == n,
{
    assert(((n & 0xff) as u8 as u32) | ((((n >> 8) & 0xff) as u8 as u32) << 8) | ((((n >> 16)
        & 0xff) as u8 as u32) << 16) | ((((n >> 24) & 0xff) as u8 as u32) << 24) == n)
        by (bit_vector);
}

/// Round-trip fidelity of the envelope: however a well-sized payload is
/// framed, unpacking the frame gives the payload back.
pub proof fn lemma_envelope_round_trip(payload: Seq<u8>)
    requires
        payload.len() <= u32::MAX,
    ensures
        encoded(payload).len() == payload.len() + 4,
        frame_ok(encoded(payload)),
        frame_len(encoded(payload)) == payload.len(),
        decoded(encoded(payload)) == payload,
{
    lemma_le_round_trip(payload.len() as u32);
    assert(encoded(payload).subrange(0, 4) =~= le_bytes_of_u32(payload.len() as u32));
    assert(decoded(encoded(payload)) =~= payload);
}

/// The envelope survives trailing padding: a frame written at the start of
/// a larger window still claims and yields exactly its own payload, whatever
/// bytes follow it.
pub proof fn lemma_envelope_round_trip_padded(payload: Seq<u8>, pad: Seq<u8>)
    requires
        payload.len() <= u32::MAX,
    ensures
        frame_ok(encoded(payload) + pad),
        frame_len(encoded(payload) + pad) == payload.len(),
        decoded(encoded(payload) + pad) == payload,
{
    lemma_le_round_trip(payload.len() as u32);
    assert((encoded(payload) + pad).subrange(0, 4) =~= le_bytes_of_u32(payload.len() as u32));
    assert(decoded(encoded(payload) + pad) =~= payload);
}

/// Frame a payload for a window of the given capacity.
pub fn encode(payload: &Vec<u8>, capacity: usize) -> (r: Result<Vec<u8>, FramingError>)
    ensures
        fits(payload@.len() as int, capacity as int) ==> r is Ok && r->Ok_0@ == encoded(payload@),
        !fits(payload@.len() as int, capacity as int) ==> r is Err && r->Err_0
            == FramingError::Oversize,
{
    if capacity < 4 || payload.len() > capacity - 4 || payload.len() > u32::MAX as usize {
        return Err(FramingError::Oversize);
    }
    let n: u32 = payload.len() as u32;
    assert(n & 0xff < 0x100 && (n >> 8) & 0xff < 0x100 && (n >> 16) & 0xff < 0x100 && (n >> 24)
        & 0xff < 0x100) by (bit_vector);
    let mut frame: Vec<u8> = Vec::new();
    frame.push((n & 0xff) as u8);
    frame.push(((n >> 8) & 0xff) as u8);
    frame.push(((n >> 16) & 0xff) as u8);
    frame.push(((n >> 24) & 0xff) as u8);
    assert(frame@ =~= le_bytes_of_u32(n));
    let mut i: usize = 0;
    while i < payload.len()
        invariant
            i <= payload@.len(),
            payload@.len() <= u32::MAX,
            n == payload@.len() as u32,
            frame@ == le_bytes_of_u32(n) + payload@.subrange(0, i as int),
        decreases payload@.len() - i,
    {
        frame.push(payload[i]);
        assert(frame@ =~= le_bytes_of_u32(n) + payload@.subrange(0, i + 1));
        i = i + 1;
    }
    assert(frame@ =~= encoded(payload@));
    Ok(frame)
}

/// Unpack the frame at the start of a window: read the four-byte prefix,
/// then exactly the bytes it claims. Trailing window bytes are ignored.
pub fn decode(frame: &Vec<u8>) -> (r: Result<Vec<u8>, FramingError>)
    ensures
        frame_ok(frame@) ==> r is Ok && r->Ok_0@ == decoded(frame@),
        !frame_ok(frame@) ==> r is Err && r->Err_0 == FramingError::Truncated,
{
    if frame.len() < 4 {
        return Err(FramingError::Truncated);
    }
    let n: u32 = (frame[0] as u32) | ((frame[1] as u32) << 8) | ((frame[2] as u32) << 16) | ((
    frame[3] as u32) << 24);
    assert(frame@.subrange(0, 4)[0] == frame@[0] && frame@.subrange(0, 4)[1] == frame@[1]
        && frame@.subrange(0, 4)[2] == frame@[2] && frame@.subrange(0, 4)[3] == frame@[3]);
    assert(n == u32_of_le_bytes(frame@.subrange(0, 4)));
    if n as u64 > (frame.len() - 4) as u64 {
        return Err(FramingError::Truncated);
    }
    let len: usize = n as usize;
    let mut payload: Vec<u8> = Vec::new();
    let mut i: usize = 0;
    while i < len
        invariant
            i <= len,
            len == frame_len(frame@),
            4 + len <= frame@.len(),
            frame@.len() <= usize::MAX,
            payload@ == frame@.subrange(4, 4 + i as int),
        decreases len - i,
    {
        payload.push(frame[4 + i]);
        assert(payload@ =~= frame@.subrange(4, 4 + (i + 1)));
        i = i + 1;
    }
    assert(payload@ =~= decoded(frame@));
    Ok(payload)
}

} // verus!
