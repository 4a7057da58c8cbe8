//! Adaptive buffers, the frame codec's wire format, and configuration
//! defaults.

use auth_core::adaptive_buffer::AdaptiveBuffer;
use auth_core::adaptive_buffer::BufferParams;
use auth_core::adaptive_buffer::DefaultBufferParams;
use auth_core::compress_cbor_codec::decode_frame;
use auth_core::compress_cbor_codec::encode_frame;
use auth_core::compress_cbor_codec::CodecBufferParams;
use auth_core::compress_cbor_codec::CompressedCborDecoder;
use auth_core::compress_cbor_codec::CompressedCborEncoder;
use auth_core::compress_cbor_codec::FrameDecode;
use auth_core::config::default_false;
use auth_core::config::default_true;
use auth_core::config::LogConfig;

#[test]
fn buffer_tracks_length_and_clears_on_finish() {
    let mut buf: AdaptiveBuffer<u8> = AdaptiveBuffer::new();
    assert!(buf.is_empty());
    assert_eq!(buf.len(), 0);
    buf.as_mut_vec().extend_from_slice(b"hello world");
    assert_eq!(buf.len(), 11);
    assert!(!buf.is_empty());
    assert_eq!(buf.as_vec().as_slice(), b"hello world");
    buf.finish();
    assert!(buf.is_empty());
    assert!(buf.capacity() >= buf.len());
}

#[test]
fn buffer_clear_keeps_tracking_state() {
    let mut buf: AdaptiveBuffer<u8> = AdaptiveBuffer::new();
    buf.as_mut_vec().push(1);
    buf.clear();
    assert!(buf.is_empty());
}

#[test]
fn default_params_match_their_documentation() {
    assert_eq!(DefaultBufferParams::min_capacity(), 256);
    assert_eq!(DefaultBufferParams::shrink_factor(), 3);
    assert_eq!(DefaultBufferParams::shrink_check_interval(), 64);
    assert_eq!(CodecBufferParams::min_capacity(), 2048);
    assert_eq!(CodecBufferParams::shrink_factor(), 3);
    assert_eq!(CodecBufferParams::shrink_check_interval(), 64);
}

#[test]
fn buffer_starts_at_the_minimum_capacity() {
    let buf: AdaptiveBuffer<u8> = AdaptiveBuffer::new();
    assert!(buf.capacity() >= DefaultBufferParams::min_capacity());
}

#[test]
fn finish_never_grows_and_eventually_shrinks() {
    // One oversized use bloats the allocation; across a full window of
    // small uses the buffer shrinks back, and no finish ever grows it.
    let mut buf: AdaptiveBuffer<u8> = AdaptiveBuffer::new();
    buf.as_mut_vec().extend_from_slice(&[0u8; 1 << 20]);
    buf.finish();
    let bloated = buf.capacity();
    assert!(bloated >= 1 << 20);
    let mut previous = bloated;
    // The first window still tracks the large seen size, so the shrink can
    // only fire at the end of the following window of small uses.
    for _ in 0..2 * DefaultBufferParams::shrink_check_interval() + 2 {
        buf.as_mut_vec().extend_from_slice(&[0u8; 8]);
        buf.finish();
        let cap = buf.capacity();
        assert!(cap <= previous, "finish grew the allocation");
        previous = cap;
    }
    assert!(buf.capacity() < bloated, "oversized allocation never shrank");
    assert!(buf.capacity() >= DefaultBufferParams::min_capacity());
}

#[test]
fn clear_keeps_the_allocation() {
    let mut buf: AdaptiveBuffer<u8> = AdaptiveBuffer::new();
    buf.as_mut_vec().extend_from_slice(&[0u8; 4096]);
    let cap = buf.capacity();
    buf.clear();
    assert_eq!(buf.capacity(), cap);
    assert!(buf.is_empty());
}

#[test]
fn buffer_survives_a_whole_window_of_uses() {
    let mut buf: AdaptiveBuffer<u8> = AdaptiveBuffer::new();
    for _ in 0..200 {
        buf.as_mut_vec().extend_from_slice(&[0u8; 4096]);
        buf.finish();
        assert!(buf.is_empty());
    }
}

#[test]
fn codec_constructors_start_empty() {
    let enc: CompressedCborEncoder<Vec<u8>> = CompressedCborEncoder::new();
    assert!(enc.cbor_buf.inner.is_empty());
    assert!(enc.compress_buf.inner.is_empty());
    let _dec: CompressedCborDecoder<Vec<u8>, 8388608> = CompressedCborDecoder::new();
}

#[test]
fn frame_round_trips() {
    let payload = vec![1u8, 2, 3, 4, 5];
    let wire = encode_frame(0, &payload);
    assert_eq!(wire.len(), payload.len() + 5);
    assert_eq!(&wire[..4], &[0, 0, 0, 6]); // flags byte plus five payload bytes
    match decode_frame(&wire, 8 * 1024 * 1024) {
        FrameDecode::Frame { flags, payload: got, consumed } => {
            assert_eq!(flags, 0);
            assert_eq!(got, payload);
            assert_eq!(consumed, wire.len());
        }
        other => panic!("decode yielded {:?}", other),
    }
}

#[test]
fn decoder_waits_for_missing_bytes() {
    let wire = encode_frame(1, &vec![9u8; 100]);
    assert!(matches!(decode_frame(&vec![], 1024), FrameDecode::NeedMore));
    assert!(matches!(
        decode_frame(&wire[..3].to_vec(), 1024),
        FrameDecode::NeedMore
    ));
    assert!(matches!(
        decode_frame(&wire[..50].to_vec(), 1024),
        FrameDecode::NeedMore
    ));
}

#[test]
fn decoder_bounds_the_frame_size() {
    let wire = encode_frame(0, &vec![0u8; 64]);
    assert!(matches!(decode_frame(&wire, 16), FrameDecode::BadLength));
    // A zero total length cannot even hold the flags byte.
    let zero_len = vec![0u8, 0, 0, 0, 7, 7, 7];
    assert!(matches!(decode_frame(&zero_len, 1024), FrameDecode::BadLength));
}

#[test]
fn config_defaults() {
    assert!(!default_false());
    assert!(default_true());
    let log = LogConfig::default();
    assert_eq!(log.filter_level, "info");
    assert_eq!(log.format, "full");
    assert!(log.with_ansi && log.with_level && log.with_target);
    assert!(log.with_thread_ids && log.with_thread_names && log.with_source_location);
}
