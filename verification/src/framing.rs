//! Length-prefixed framing for the wired link.
//!
//! Both directions of the wired transport carry frames of the shape
//! `[1 length byte][length payload bytes]`.  The payload therefore never
//! exceeds 255 bytes; what to do when a response does not fit is decided
//! one level up, in the codec module.

use vstd::prelude::*;

verus! {

/// Longest payload one frame can carry: the length prefix is a single byte.
pub const MAX_FRAME_PAYLOAD: usize = 255;

/// The bytes of one frame: a length byte, then exactly that many payload bytes.
pub open spec fn frame_of(payload: Seq<u8>) -> Seq<u8>
    recommends
        payload.len() <= MAX_FRAME_PAYLOAD,
{
    seq![payload.len() as u8] + payload
}

/// Parse of one complete frame: the first byte must announce exactly the rest.
pub open spec fn unframed(bytes: Seq<u8>) -> Option<Seq<u8>> {
    if bytes.len() >= 1 && bytes.len() == 1 + bytes[0] as int {
        Some(bytes.skip(1))
    } else {
        None
    }
}

/// Wrap a payload into a frame; a payload over 255 bytes has no frame.
pub fn frame_payload(payload: &[u8]) -> (r: Option<Vec<u8>>)
    ensures
        payload@.len() <= MAX_FRAME_PAYLOAD ==> (r matches Some(v) && v@ == frame_of(payload@)),
        payload@.len() > MAX_FRAME_PAYLOAD ==> r is None,
{
    if payload.len() > MAX_FRAME_PAYLOAD {
        return None;
    }
    let mut v: Vec<u8> = Vec::new();
    v.push(payload.len() as u8);
    let mut i: usize = 0;
    while i < payload.len()
        invariant
            i <= payload@.len() <= MAX_FRAME_PAYLOAD,
            v@.len() == 1 + i,
            v@[0] == payload@.len() as u8,
            v@.skip(1) == payload@.take(i as int),
        decreases payload@.len() - i,
    {
        v.push(payload[i]);
        assert(v@.skip(1) =~= payload@.take(i + 1));
        i = i + 1;
    }
    assert(v@.skip(1) =~= payload@);
    assert(v@ =~= frame_of(payload@));
    Some(v)
}

/// Recover the payload from one complete frame.
pub fn unframe(bytes: &[u8]) -> (r: Option<Vec<u8>>)
    ensures
        r is Some <==> unframed(bytes@) is Some,
        r matches Some(v) ==> unframed(bytes@) == Some(v@),
{
    if bytes.len() == 0 {
        return None;
    }
    let size = bytes[0] as usize;
    if bytes.len() != 1 + size {
        return None;
    }
    let mut v: Vec<u8> = Vec::new();
    let mut i: usize = 1;
    while i < bytes.len()
        invariant
            1 <= i <= bytes@.len(),
            v@ == bytes@.subrange(1, i as int),
        decreases bytes@.len() - i,
    {
        v.push(bytes[i]);
        assert(v@ =~= bytes@.subrange(1, i + 1));
        i = i + 1;
    }
    assert(v@ =~= bytes@.skip(1));
    Some(v)
}

/// Framing round trip: the payload of a frame is the payload it was made of.
pub proof fn lemma_frame_round_trip(payload: Seq<u8>)
    requires
        payload.len() <= MAX_FRAME_PAYLOAD,
    ensures
        unframed(frame_of(payload)) == Some(payload),
{
    assert(frame_of(payload).skip(1) =~= payload);
}

} // verus!
