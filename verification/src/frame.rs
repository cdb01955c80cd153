//! Decoding of length-prefixed ring-buffer samples.
//!
//! Each sample is laid out as a 4-byte little-endian length field followed
//! by the payload bytes, inside a slot of at most `RINGBUF_FRAME_SIZE`
//! bytes.  The payload capacity of a slot is therefore
//! `RINGBUF_FRAME_SIZE - 4`; a declared length beyond that bound is
//! clamped, never reported as an error.

use vstd::prelude::*;
use vstd::bytes::spec_u32_from_le_bytes;
use vstd::bytes::spec_u32_to_le_bytes;
use vstd::bytes::u32_from_le_bytes;
use vstd::bytes::u32_to_le_bytes;
use vstd::bytes::lemma_auto_spec_u32_to_from_le_bytes;

verus! {

/// Total size of one ring-buffer sample slot, in bytes.
pub const RINGBUF_FRAME_SIZE: usize = 2048;

/// The length the producer declared in the 4-byte prefix of a sample.
pub open spec fn declared_len(sample: Seq<u8>) -> int
    recommends
        sample.len() >= 4,
{
    spec_u32_from_le_bytes(sample.subrange(0, 4)) as int
}

/// How many payload bytes decoding copies out of a sample: the declared
/// length, clamped to the slot's payload capacity and to the bytes that
/// are actually present after the length field.
pub open spec fn copied_len(sample: Seq<u8>) -> int
    recommends
        sample.len() >= 4,
{
    let cap = RINGBUF_FRAME_SIZE - 4;
    let avail = sample.len() - 4;
    let clamped = if declared_len(sample) <= cap {
        declared_len(sample)
    } else {
        cap as int
    };
    if clamped <= avail {
        clamped
    } else {
        avail
    }
}

/// The frame a sample decodes to: `copied_len` payload bytes, taken
/// right after the length field.
pub open spec fn decoded_frame(sample: Seq<u8>) -> Seq<u8>
    recommends
        sample.len() >= 4,
{
    sample.subrange(4, 4 + copied_len(sample))
}

/// Decodes one sample: reads the 4-byte little-endian length field and
/// copies the payload, clamped to the slot capacity and to the bytes
/// present.
pub fn decode_sample(sample: &[u8]) -> (frame: Vec<u8>)
    requires
        sample@.len() >= 4,
    ensures
        frame@ == decoded_frame(sample@),
        frame@.len() == copied_len(sample@),
{
    let len_field = vstd::slice::slice_subrange(sample, 0, 4);
    let declared = u32_from_le_bytes(len_field) as usize;
    let cap: usize = RINGBUF_FRAME_SIZE - 4;
    let avail: usize = sample.len() - 4;
    let clamped: usize = if declared <= cap { declared } else { cap };
    let take: usize = if clamped <= avail { clamped } else { avail };
    let mut frame: Vec<u8> = Vec::new();
    let mut i: usize = 0;
    while i < take
        invariant
            i <= take,
            take == copied_len(sample@),
            4 + take <= sample@.len(),
            frame@ == sample@.subrange(4, 4 + i as int),
        decreases take - i,
    {
        let b = *vstd::slice::slice_index_get(sample, 4 + i);
        frame.push(b);
        proof {
            assert(sample@.subrange(4, 4 + (i + 1) as int) =~= sample@.subrange(
                4,
                4 + i as int,
            ).push(sample@[4 + i as int]));
        }
        i = i + 1;
    }
    proof {
        assert(frame@ =~= decoded_frame(sample@));
    }
    frame
}

/// The wire form of a payload: a 4-byte little-endian length field
/// followed by the payload bytes.
pub open spec fn encoded_sample(payload: Seq<u8>) -> Seq<u8>
    recommends
        payload.len() <= u32::MAX,
{
    spec_u32_to_le_bytes(payload.len() as u32) + payload
}

/// Encodes a payload as one ring-buffer sample: its length as a 4-byte
/// little-endian field, then the payload itself.
pub fn encode_sample(payload: &[u8]) -> (sample: Vec<u8>)
    requires
        payload@.len() <= RINGBUF_FRAME_SIZE - 4,
    ensures
        sample@ == encoded_sample(payload@),
        sample@.len() == payload@.len() + 4,
{
    proof {
        lemma_auto_spec_u32_to_from_le_bytes();
    }
    let mut sample = u32_to_le_bytes(payload.len() as u32);
    let mut i: usize = 0;
    while i < payload.len()
        invariant
            i <= payload@.len(),
            sample@ == spec_u32_to_le_bytes(payload@.len() as u32) + payload@.subrange(
                0,
                i as int,
            ),
        decreases payload@.len() - i,
    {
        let b = *vstd::slice::slice_index_get(payload, i);
        sample.push(b);
        proof {
            assert(spec_u32_to_le_bytes(payload@.len() as u32) + payload@.subrange(
                0,
                (i + 1) as int,
            ) =~= (spec_u32_to_le_bytes(payload@.len() as u32) + payload@.subrange(
                0,
                i as int,
            )).push(payload@[i as int]));
        }
        i = i + 1;
    }
    proof {
        assert(sample@ =~= encoded_sample(payload@));
    }
    sample
}

/// Round trip: a payload no longer than the slot's payload capacity,
/// put on the wire as `[length as u32][length bytes]`, decodes back to
/// exactly that payload.
pub proof fn lemma_round_trip(payload: Seq<u8>)
    requires
        payload.len() <= RINGBUF_FRAME_SIZE - 4,
    ensures
        decoded_frame(encoded_sample(payload)) == payload,
{
    lemma_auto_spec_u32_to_from_le_bytes();
    let s = encoded_sample(payload);
    assert(s.subrange(0, 4) =~= spec_u32_to_le_bytes(payload.len() as u32));
    assert(declared_len(s) == payload.len());
    assert(decoded_frame(s) =~= payload);
}

/// Clamping: when a full-size sample slot declares a payload length
/// beyond the slot's payload capacity, the decoded frame is exactly
/// the capacity long — the excess is dropped, not reported.
pub proof fn lemma_clamp_oversized(sample: Seq<u8>)
    requires
        sample.len() >= RINGBUF_FRAME_SIZE,
        declared_len(sample) > RINGBUF_FRAME_SIZE - 4,
    ensures
        decoded_frame(sample).len() == RINGBUF_FRAME_SIZE - 4,
{
}

} // verus!
