use rusty_tcp::RINGBUF_FRAME_SIZE;
use rusty_tcp::frame::decode_sample;
use rusty_tcp::frame::encode_sample;

fn sample_with_declared_len(declared: u32, slot: usize) -> Vec<u8> {
    let mut s = vec![0u8; slot];
    s[0..4].copy_from_slice(&declared.to_le_bytes());
    s
}

#[test]
fn round_trip_empty_payload() {
    let payload: Vec<u8> = Vec::new();
    let sample = encode_sample(&payload);
    assert_eq!(sample, vec![0u8, 0, 0, 0]);
    assert_eq!(decode_sample(&sample), payload);
}

#[test]
fn round_trip_one_byte() {
    let payload = vec![0xabu8];
    let sample = encode_sample(&payload);
    assert_eq!(sample, vec![1u8, 0, 0, 0, 0xab]);
    assert_eq!(decode_sample(&sample), payload);
}

#[test]
fn round_trip_full_capacity() {
    let cap = RINGBUF_FRAME_SIZE - 4;
    let payload: Vec<u8> = (0..cap).map(|i| (i % 251) as u8).collect();
    let sample = encode_sample(&payload);
    assert_eq!(sample.len(), RINGBUF_FRAME_SIZE);
    assert_eq!(decode_sample(&sample), payload);
}

#[test]
fn decode_reads_little_endian_length() {
    // length 2 declared as [2, 0, 0, 0]; payload bytes follow
    let sample = vec![2u8, 0, 0, 0, 0x11, 0x22, 0x33];
    assert_eq!(decode_sample(&sample), vec![0x11, 0x22]);
}

#[test]
fn clamp_zero_length() {
    let sample = sample_with_declared_len(0, RINGBUF_FRAME_SIZE);
    assert_eq!(decode_sample(&sample).len(), 0);
}

#[test]
fn clamp_exact_capacity() {
    let cap = (RINGBUF_FRAME_SIZE - 4) as u32;
    let sample = sample_with_declared_len(cap, RINGBUF_FRAME_SIZE);
    assert_eq!(decode_sample(&sample).len(), RINGBUF_FRAME_SIZE - 4);
}

#[test]
fn clamp_over_capacity() {
    let sample = sample_with_declared_len((RINGBUF_FRAME_SIZE - 3) as u32, RINGBUF_FRAME_SIZE);
    assert_eq!(decode_sample(&sample).len(), RINGBUF_FRAME_SIZE - 4);
}

#[test]
fn clamp_maximal_length_field() {
    let mut sample = sample_with_declared_len(0xFFFF_FFFF, RINGBUF_FRAME_SIZE);
    for (i, b) in sample.iter_mut().enumerate().skip(4) {
        *b = (i % 7) as u8;
    }
    let frame = decode_sample(&sample);
    assert_eq!(frame.len(), RINGBUF_FRAME_SIZE - 4);
    assert_eq!(frame[..], sample[4..]);
}

#[test]
fn decode_clamps_to_present_bytes() {
    // declared 100 bytes, but only 3 present after the length field
    let sample = vec![100u8, 0, 0, 0, 9, 8, 7];
    assert_eq!(decode_sample(&sample), vec![9, 8, 7]);
}
