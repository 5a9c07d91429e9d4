use audio_stream::audio_format::AudioFormatDescriptor;
use audio_stream::frame::{left_lane, pack_frame, right_lane, SILENCE};
use audio_stream::gain::{apply_gain, apply_gain_frames, EIGHT_BIT_BOOST, UNITY_GAIN};
use audio_stream::normalize::{normalize, sample16_le};

fn fmt(sample_rate: u32, bit_depth: u16, channel_count: u16) -> AudioFormatDescriptor {
    AudioFormatDescriptor { sample_rate, bit_depth, channel_count }
}

#[test]
fn normalize_fills_every_frame_in_all_supported_formats() {
    // (bit_depth, channel_count, bytes per frame)
    let cases: [(u16, u16, usize); 4] = [(8, 1, 1), (8, 2, 2), (16, 1, 2), (16, 2, 4)];
    for (bits, channels, bpf) in cases {
        let n = 4usize;
        let raw = vec![0u8; n * bpf];
        let mut out = vec![0xDEAD_BEEFu32; n];
        let r = normalize(&raw, fmt(8_000, bits, channels), &mut out);
        assert!(r.is_ok());
        assert_eq!(out.len(), n);
        // every element was produced afresh from the raw chunk
        for f in out {
            assert_ne!(f, 0xDEAD_BEEF);
        }
    }
}

#[test]
fn quiet_byte_boosted_into_both_lanes() {
    // 8-bit mono, raw byte 1, fixed boost 128: 0x0080 in both lanes
    let raw = vec![1u8];
    let mut out = vec![0u32; 1];
    let r = normalize(&raw, fmt(8_000, 8, 1), &mut out);
    assert!(r.is_ok());
    assert_eq!(out[0], 0x0080_0080);
}

#[test]
fn stereo_8_bit_lanes_boosted_independently() {
    let raw = vec![1u8, 2u8];
    let mut out = vec![0u32; 1];
    let r = normalize(&raw, fmt(8_000, 8, 2), &mut out);
    assert!(r.is_ok());
    assert_eq!(out[0], 0x0080_0100);
}

#[test]
fn mono_16_bit_duplicated_unmodified() {
    let raw = vec![0x34u8, 0x12u8];
    let mut out = vec![0u32; 1];
    let r = normalize(&raw, fmt(44_100, 16, 1), &mut out);
    assert!(r.is_ok());
    assert_eq!(out[0], 0x1234_1234);
}

#[test]
fn stereo_16_bit_little_endian_decode() {
    // L = 0, R = 32767
    let raw = vec![0x00u8, 0x00u8, 0xFFu8, 0x7Fu8];
    let mut out = vec![0u32; 1];
    let r = normalize(&raw, fmt(44_100, 16, 2), &mut out);
    assert!(r.is_ok());
    assert_eq!(out[0], 0x0000_7FFF);
}

#[test]
fn negative_16_bit_patterns_keep_their_lanes() {
    // L = -1 (0xFFFF), R = -32768 (0x8000): neither lane leaks into the other
    let raw = vec![0xFFu8, 0xFFu8, 0x00u8, 0x80u8];
    let mut out = vec![0u32; 1];
    let r = normalize(&raw, fmt(44_100, 16, 2), &mut out);
    assert!(r.is_ok());
    assert_eq!(out[0], 0xFFFF_8000);
}

#[test]
fn unsupported_bit_depth_rejected_without_output() {
    let raw = vec![0u8; 12];
    let mut out = vec![7u32, 8u32];
    let r = normalize(&raw, fmt(44_100, 24, 2), &mut out);
    let e = r.unwrap_err();
    assert_eq!(e.bit_depth, 24);
    assert_eq!(e.channel_count, 2);
    // no partial output: the buffer is exactly as it was
    assert_eq!(out, vec![7u32, 8u32]);
}

#[test]
fn unsupported_channel_count_rejected_without_output() {
    let raw = vec![0u8; 6];
    let mut out = vec![7u32, 8u32];
    let r = normalize(&raw, fmt(44_100, 16, 3), &mut out);
    let e = r.unwrap_err();
    assert_eq!(e.bit_depth, 16);
    assert_eq!(e.channel_count, 3);
    assert_eq!(out, vec![7u32, 8u32]);
}

#[test]
fn sample16_le_assembles_little_endian() {
    assert_eq!(sample16_le(0xFF, 0x7F), 0x7FFF);
    assert_eq!(sample16_le(0x00, 0x80), 0x8000);
    assert_eq!(sample16_le(0x12, 0x00), 0x0012);
}

#[test]
fn pack_frame_lanes_round_trip() {
    let f = pack_frame(0xABCD, 0x1234);
    assert_eq!(f, 0xABCD_1234);
    assert_eq!(left_lane(f), 0xABCD);
    assert_eq!(right_lane(f), 0x1234);
    assert_eq!(pack_frame(0, 0), SILENCE);
}

#[test]
fn gain_scales_and_rounds_like_the_boost() {
    // 1 * 128 = 128: the boost applied to the quietest nonzero byte
    assert_eq!(apply_gain(1, EIGHT_BIT_BOOST), 128);
    assert_eq!(apply_gain(255, EIGHT_BIT_BOOST), 32640);
}

#[test]
fn unity_gain_is_identity() {
    for s in [0u16, 1, 128, 0x7FFF, 0xFFFF] {
        assert_eq!(apply_gain(s, UNITY_GAIN), s);
    }
}

#[test]
fn overflowing_gain_wraps_not_saturates() {
    // 0x8000 * 2 = 0x10000, truncated to 16 bits: 0
    assert_eq!(apply_gain(0x8000, 2), 0);
    assert_eq!(apply_gain(0x8001, 2), 2);
}

#[test]
fn gain_stage_applies_to_both_lanes_of_every_frame() {
    let mut frames = vec![0x0001_0002u32, 0x0100_0200u32];
    apply_gain_frames(&mut frames, 3);
    assert_eq!(frames, vec![0x0003_0006, 0x0300_0600]);
}
