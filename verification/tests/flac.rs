//! FLAC stream information, magic cookies and frame headers.

use oxideav_audiotoolbox::flac::{
    bit_depth_flag, block_size_from_code, build_magic_cookie, parse_frame_header,
    parse_magic_cookie, sample_rate_from_code, ChannelAssignment, StreamInfo, BOX_HEADER_LEN,
    DFLA_BOX_TYPE, MAGIC_COOKIE_MAX_LEN, MAGIC_COOKIE_MIN_LEN, STREAMINFO_BODY_LEN,
};
use oxideav_audiotoolbox::sys::{
    K_AF_APPLE_LOSSLESS_16_BIT, K_AF_APPLE_LOSSLESS_20_BIT, K_AF_APPLE_LOSSLESS_24_BIT,
    K_AF_APPLE_LOSSLESS_32_BIT,
};

fn sample_streaminfo() -> StreamInfo {
    StreamInfo {
        min_blocksize: 4608,
        max_blocksize: 4608,
        min_framesize: 0,
        max_framesize: 0,
        sample_rate: 44_100,
        channels: 2,
        bits_per_sample: 16,
        total_samples: 0,
        md5: [0u8; 16],
    }
}

#[test]
fn streaminfo_roundtrip_44100_stereo_16bit() {
    let info = sample_streaminfo();
    let bytes = info.to_bytes();
    let parsed = StreamInfo::parse(&bytes).expect("parse");
    assert_eq!(parsed, info);
}

#[test]
fn streaminfo_roundtrip_96000_mono_24bit() {
    let info = StreamInfo {
        min_blocksize: 4096,
        max_blocksize: 4096,
        min_framesize: 5,
        max_framesize: 13_999,
        sample_rate: 96_000,
        channels: 1,
        bits_per_sample: 24,
        total_samples: 192_000,
        md5: [0xAB; 16],
    };
    let bytes = info.to_bytes();
    let parsed = StreamInfo::parse(&bytes).expect("parse");
    assert_eq!(parsed, info);
    assert!(parsed.is_fixed_blocksize());
}

#[test]
fn streaminfo_rejects_zero_sample_rate() {
    let mut info = sample_streaminfo();
    info.sample_rate = 0;
    let bytes = info.to_bytes();
    assert!(StreamInfo::parse(&bytes).is_none());
}

#[test]
fn streaminfo_rejects_short_buffer() {
    let bytes = [0u8; 33];
    assert!(StreamInfo::parse(&bytes).is_none());
}

#[test]
fn fixed_vs_variable_blocksize_predicate() {
    let mut info = sample_streaminfo();
    assert!(info.is_fixed_blocksize());
    info.min_blocksize = 1024;
    info.max_blocksize = 4096;
    assert!(!info.is_fixed_blocksize());
}

#[test]
fn parses_fixture_streaminfo_44100_stereo() {
    let body: [u8; 34] = [
        0x12, 0x00, 0x12, 0x00, 0x00, 0x08, 0x8F, 0x00, 0x0F, 0x93, 0x0A, 0xC4, 0x42, 0xF0,
        0x00, 0x00, 0xAC, 0x44, 0xB2, 0x49, 0x33, 0xA4, 0x9B, 0xB7, 0x43, 0xC0, 0x00, 0x61,
        0x51, 0x6D, 0x2B, 0x08, 0xDD, 0x45,
    ];
    let info = StreamInfo::parse(&body).expect("fixture STREAMINFO parses");
    assert_eq!(info.min_blocksize, 4608);
    assert_eq!(info.max_blocksize, 4608);
    assert_eq!(info.sample_rate, 44_100);
    assert_eq!(info.channels, 2);
    assert_eq!(info.bits_per_sample, 16);
    assert!(info.is_fixed_blocksize());
}

#[test]
fn build_and_parse_magic_cookie_roundtrip() {
    let info = sample_streaminfo();
    let cookie = build_magic_cookie(&info);
    assert_eq!(cookie.len(), MAGIC_COOKIE_MIN_LEN);
    let box_size = u32::from_be_bytes([cookie[0], cookie[1], cookie[2], cookie[3]]);
    assert_eq!(box_size as usize, MAGIC_COOKIE_MIN_LEN);
    assert_eq!(&cookie[4..8], b"dfLa");
    assert_eq!(&cookie[8..12], &[0u8, 0, 0, 0]);
    let header = u32::from_be_bytes([cookie[12], cookie[13], cookie[14], cookie[15]]);
    assert_eq!(header >> 31, 1, "last-flag must be set");
    assert_eq!((header >> 24) & 0x7F, 0, "block_type=STREAMINFO");
    assert_eq!(header & 0x00FF_FFFF, 34, "length must be 34");
    let parsed = parse_magic_cookie(&cookie).expect("cookie parses");
    assert_eq!(parsed, info);
}

#[test]
fn parse_magic_cookie_skips_through_padding_to_streaminfo() {
    let info = sample_streaminfo();
    let mut payload = Vec::new();
    payload.extend_from_slice(&[0u8, 0, 0, 0]);
    let h1: u32 = STREAMINFO_BODY_LEN as u32;
    payload.extend_from_slice(&h1.to_be_bytes());
    payload.extend_from_slice(&info.to_bytes());
    let h2: u32 = (1u32 << 31) | (1u32 << 24) | 16u32;
    payload.extend_from_slice(&h2.to_be_bytes());
    payload.extend_from_slice(&[0u8; 16]);

    let mut cookie = Vec::new();
    let total_size = BOX_HEADER_LEN + payload.len();
    cookie.extend_from_slice(&(total_size as u32).to_be_bytes());
    cookie.extend_from_slice(&DFLA_BOX_TYPE);
    cookie.extend_from_slice(&payload);

    let parsed = parse_magic_cookie(&cookie).expect("multi-block cookie parses");
    assert_eq!(parsed, info);
}

#[test]
fn parse_magic_cookie_rejects_wrong_box_type() {
    let info = sample_streaminfo();
    let mut cookie = build_magic_cookie(&info);
    cookie[4..8].copy_from_slice(b"OggS");
    assert!(parse_magic_cookie(&cookie).is_none());
}

#[test]
fn parse_magic_cookie_rejects_short() {
    let cookie = vec![0u8; 10];
    assert!(parse_magic_cookie(&cookie).is_none());
}

#[test]
fn magic_cookie_stays_under_at_size_limit() {
    let info = sample_streaminfo();
    let cookie = build_magic_cookie(&info);
    assert!(
        cookie.len() <= MAGIC_COOKIE_MAX_LEN,
        "cookie length {} exceeds AT FLAC max {}",
        cookie.len(),
        MAGIC_COOKIE_MAX_LEN
    );
}

#[test]
fn bit_depth_flag_maps_canonical_values() {
    assert_eq!(bit_depth_flag(8), Some(K_AF_APPLE_LOSSLESS_16_BIT));
    assert_eq!(bit_depth_flag(12), Some(K_AF_APPLE_LOSSLESS_16_BIT));
    assert_eq!(bit_depth_flag(16), Some(K_AF_APPLE_LOSSLESS_16_BIT));
    assert_eq!(bit_depth_flag(20), Some(K_AF_APPLE_LOSSLESS_20_BIT));
    assert_eq!(bit_depth_flag(24), Some(K_AF_APPLE_LOSSLESS_24_BIT));
    assert_eq!(bit_depth_flag(32), Some(K_AF_APPLE_LOSSLESS_32_BIT));
    assert_eq!(bit_depth_flag(33), None);
    assert_eq!(bit_depth_flag(3), None);
}

#[test]
fn sample_rate_table_resolves_canonical_codes() {
    assert_eq!(sample_rate_from_code(1), Some(88_200));
    assert_eq!(sample_rate_from_code(4), Some(8_000));
    assert_eq!(sample_rate_from_code(9), Some(44_100));
    assert_eq!(sample_rate_from_code(10), Some(48_000));
    assert_eq!(sample_rate_from_code(11), Some(96_000));
    assert_eq!(sample_rate_from_code(0), None);
    assert_eq!(sample_rate_from_code(15), None);
}

#[test]
fn block_size_table_resolves_canonical_codes() {
    assert_eq!(block_size_from_code(1), Some(192));
    assert_eq!(block_size_from_code(2), Some(576));
    assert_eq!(block_size_from_code(5), Some(4608));
    assert_eq!(block_size_from_code(8), Some(256));
    assert_eq!(block_size_from_code(11), Some(2048));
    assert_eq!(block_size_from_code(15), Some(32_768));
    assert_eq!(block_size_from_code(0), None);
    assert_eq!(block_size_from_code(6), None);
    assert_eq!(block_size_from_code(7), None);
}

#[test]
fn channel_assignment_decodes_independent() {
    let a = ChannelAssignment::from_code(0).unwrap();
    assert_eq!(a.channel_count(), 1);
    let a = ChannelAssignment::from_code(1).unwrap();
    assert_eq!(a.channel_count(), 2);
    let a = ChannelAssignment::from_code(5).unwrap();
    assert_eq!(a.channel_count(), 6); // 5.1
    let a = ChannelAssignment::from_code(7).unwrap();
    assert_eq!(a.channel_count(), 8); // 7.1
}

#[test]
fn channel_assignment_decodes_stereo_decorrelations() {
    let ls = ChannelAssignment::from_code(8).unwrap();
    assert_eq!(ls, ChannelAssignment::LeftSide);
    assert_eq!(ls.channel_count(), 2);
    let sr = ChannelAssignment::from_code(9).unwrap();
    assert_eq!(sr, ChannelAssignment::SideRight);
    let ms = ChannelAssignment::from_code(10).unwrap();
    assert_eq!(ms, ChannelAssignment::MidSide);
}

#[test]
fn channel_assignment_rejects_reserved_codes() {
    for code in 11u8..=15 {
        assert!(ChannelAssignment::from_code(code).is_none());
    }
}

#[test]
fn parse_frame_header_recognises_fixed_blocksize_stereo() {
    let info = sample_streaminfo();
    let bytes = [0xFFu8, 0xF8, (5 << 4) | 9, (8 << 4) | (4 << 1), 0x00];
    let h = parse_frame_header(&bytes, &info).expect("frame header parses");
    assert_eq!(h.blocking_strategy, 0);
    assert_eq!(h.block_size, 4608);
    assert_eq!(h.sample_rate, 44_100);
    assert_eq!(h.channel_assignment, ChannelAssignment::LeftSide);
    assert_eq!(h.bits_per_sample, 16);
    assert_eq!(h.channels(), 2);
}

#[test]
fn parse_frame_header_recognises_variable_blocksize() {
    let info = sample_streaminfo();
    let bytes = [0xFFu8, 0xF9, (8 << 4) | 9, 4 << 1, 0x00];
    let h = parse_frame_header(&bytes, &info).expect("frame header parses");
    assert_eq!(h.blocking_strategy, 1);
    assert_eq!(h.block_size, 256); // code 8 → 256
    assert_eq!(h.channels(), 1); // independent code 0 → 1 channel
}

#[test]
fn parse_frame_header_rejects_bad_sync() {
    let info = sample_streaminfo();
    let bytes = [0xFEu8, 0xF8, 0x59, 0x88, 0x00];
    assert!(parse_frame_header(&bytes, &info).is_none());
    let bytes = [0xFFu8, 0xFA, 0x59, 0x88, 0x00];
    assert!(parse_frame_header(&bytes, &info).is_none());
}

#[test]
fn parse_frame_header_rejects_reserved_channel_assignment() {
    let info = sample_streaminfo();
    let bytes = [0xFFu8, 0xF8, 0x59, (11 << 4) | (4 << 1), 0x00];
    assert!(parse_frame_header(&bytes, &info).is_none());
}

#[test]
fn parse_frame_header_falls_back_to_streaminfo_bps() {
    let info = sample_streaminfo();
    let bytes = [0xFFu8, 0xF8, 0x59, 0x00, 0x00];
    let h = parse_frame_header(&bytes, &info).expect("frame header parses");
    assert_eq!(h.bits_per_sample, info.bits_per_sample);
}

#[test]
fn parse_frame_header_rejects_reserved_values() {
    let info = sample_streaminfo();
    assert!(parse_frame_header(&[0xFF, 0xF8, 0x59, 0x88, 0x00], &info).is_some());
    for (i, b) in [(2, 0x09), (2, 0x5F), (3, 0x86), (3, 0x89)] {
        let mut bytes = [0xFFu8, 0xF8, 0x59, 0x88, 0x00];
        bytes[i] = b;
        assert!(parse_frame_header(&bytes, &info).is_none(), "{i}: {b:#x}");
    }
    assert!(parse_frame_header(&[0xFF, 0xF8, 0x59, 0x88], &info).is_none());
}

#[test]
fn parse_frame_header_defers_to_the_stream() {
    let info = sample_streaminfo();
    let h = parse_frame_header(&[0xFF, 0xF8, 0x6C, 0x8E, 0x00], &info).expect("header");
    assert_eq!(h.block_size, 4608);
    assert_eq!(h.sample_rate, 44_100);
    assert_eq!(h.bits_per_sample, 32);
}

/// A `dfLa` box around blocks of the given types and bodies; the last one is marked.
fn dfla(blocks: &[(u8, &[u8])]) -> Vec<u8> {
    let mut payload = vec![0u8; 4];
    for (i, (kind, body)) in blocks.iter().enumerate() {
        let last = if i + 1 == blocks.len() { 0x80 } else { 0 };
        payload.push(last | kind);
        payload.extend_from_slice(&(body.len() as u32).to_be_bytes()[1..]);
        payload.extend_from_slice(body);
    }
    let mut cookie = ((BOX_HEADER_LEN + payload.len()) as u32)
        .to_be_bytes()
        .to_vec();
    cookie.extend_from_slice(&DFLA_BOX_TYPE);
    cookie.extend_from_slice(&payload);
    cookie
}

#[test]
fn parse_magic_cookie_wants_streaminfo_first() {
    let info = sample_streaminfo();
    let body = info.to_bytes();
    assert_eq!(parse_magic_cookie(&dfla(&[(0, &body)])), Some(info));
    assert_eq!(parse_magic_cookie(&dfla(&[(0, &body), (4, &[1; 9])])), Some(info));
    let padded = dfla(&[(1, &[0; 4]), (0, &body)]);
    assert_eq!(padded.len(), 58);
    assert_eq!(parse_magic_cookie(&padded), None);
    assert_eq!(parse_magic_cookie(&dfla(&[(1, &[0; 40])])), None);
}

#[test]
fn parse_magic_cookie_wants_streaminfo_inside_the_box() {
    let info = sample_streaminfo();
    let mut cookie = dfla(&[(0, &info.to_bytes())]);
    cookie[15] = 35;
    cookie.push(0);
    assert_eq!(parse_magic_cookie(&cookie), None);
    cookie[3] = 51;
    assert_eq!(parse_magic_cookie(&cookie), Some(info));
}
