//! Opus packets and identification headers.

use oxideav_audiotoolbox::opus::{
    parse_at_compression_cookie, OpusBandwidth, OpusHead, OpusMode, PacketCode, Toc,
    OPUS_HEAD_MAGIC_LEN, OPUS_HEAD_MIN_LEN,
};

#[test]
fn toc_silk_nb_10ms_mono_code0() {
    let toc = Toc::parse(&[0x00]).expect("parse");
    assert_eq!(toc.config, 0);
    assert_eq!(toc.mode, OpusMode::Silk);
    assert_eq!(toc.bandwidth, OpusBandwidth::Nb);
    assert_eq!(toc.frame_duration_tenths_ms, 100); // 10 ms
    assert!(!toc.stereo);
    assert_eq!(toc.channels(), 1);
    assert_eq!(toc.code, PacketCode::Single);
    assert_eq!(toc.frame_size_at_48khz(), 480);
}

#[test]
fn toc_silk_wb_20ms_stereo_code0() {
    let toc = Toc::parse(&[0x4C]).expect("parse");
    assert_eq!(toc.config, 9);
    assert_eq!(toc.mode, OpusMode::Silk);
    assert_eq!(toc.bandwidth, OpusBandwidth::Wb);
    assert_eq!(toc.frame_duration_tenths_ms, 200);
    assert!(toc.stereo);
    assert_eq!(toc.channels(), 2);
}

#[test]
fn toc_celt_fb_20ms_stereo_code0() {
    let toc = Toc::parse(&[0xFC]).expect("parse");
    assert_eq!(toc.config, 31);
    assert_eq!(toc.mode, OpusMode::Celt);
    assert_eq!(toc.bandwidth, OpusBandwidth::Fb);
    assert_eq!(toc.frame_duration_tenths_ms, 200);
    assert!(toc.stereo);
    assert_eq!(toc.code, PacketCode::Single);
    assert_eq!(toc.frame_size_at_48khz(), 960);
}

#[test]
fn toc_celt_fb_2_5ms_low_latency() {
    let toc = Toc::parse(&[0xE0]).expect("parse");
    assert_eq!(toc.config, 28);
    assert_eq!(toc.mode, OpusMode::Celt);
    assert_eq!(toc.bandwidth, OpusBandwidth::Fb);
    assert_eq!(toc.frame_duration_tenths_ms, 25); // 2.5 ms
    assert_eq!(toc.frame_size_at_48khz(), 120);
}

#[test]
fn toc_hybrid_swb_10ms_mono() {
    let toc = Toc::parse(&[0x60]).expect("parse");
    assert_eq!(toc.mode, OpusMode::Hybrid);
    assert_eq!(toc.bandwidth, OpusBandwidth::Swb);
    assert_eq!(toc.frame_duration_tenths_ms, 100);
}

#[test]
fn toc_silk_max_frame_60ms_mb() {
    let toc = Toc::parse(&[0x38]).expect("parse");
    assert_eq!(toc.mode, OpusMode::Silk);
    assert_eq!(toc.bandwidth, OpusBandwidth::Mb);
    assert_eq!(toc.frame_duration_tenths_ms, 600); // 60 ms (max SILK)
    assert_eq!(toc.frame_size_at_48khz(), 2880);
}

#[test]
fn toc_packet_codes_decode_correctly() {
    assert_eq!(Toc::parse(&[0xF8]).unwrap().code, PacketCode::Single);
    assert_eq!(Toc::parse(&[0xF9]).unwrap().code, PacketCode::DoubleEqual);
    assert_eq!(Toc::parse(&[0xFA]).unwrap().code, PacketCode::DoubleUnequal);
    assert_eq!(Toc::parse(&[0xFB]).unwrap().code, PacketCode::Arbitrary);
}

#[test]
fn toc_empty_input_rejected() {
    assert!(Toc::parse(&[]).is_none());
}

#[test]
fn bandwidth_internal_sample_rates() {
    assert_eq!(OpusBandwidth::Nb.internal_sample_rate(), 8_000);
    assert_eq!(OpusBandwidth::Mb.internal_sample_rate(), 12_000);
    assert_eq!(OpusBandwidth::Wb.internal_sample_rate(), 16_000);
    assert_eq!(OpusBandwidth::Swb.internal_sample_rate(), 24_000);
    assert_eq!(OpusBandwidth::Fb.internal_sample_rate(), 48_000);
}


#[test]
fn opushead_roundtrip_stereo() {
    let h = OpusHead {
        version: 1,
        channel_count: 2,
        pre_skip: 312,
        input_sample_rate: 48_000,
        output_gain: 0,
        channel_mapping_family: 0,
        mapping_table: Vec::new(),
    };
    let body = h.to_body_bytes();
    assert_eq!(body.len(), OPUS_HEAD_MIN_LEN - OPUS_HEAD_MAGIC_LEN);
    let parsed = OpusHead::parse(&body).expect("parse body-only");
    assert_eq!(parsed, h);
}

#[test]
fn opushead_roundtrip_with_magic_prefix() {
    let h = OpusHead::stereo(48_000);
    let pkt = h.to_packet_bytes();
    assert_eq!(pkt.len(), OPUS_HEAD_MIN_LEN);
    assert_eq!(&pkt[..OPUS_HEAD_MAGIC_LEN], b"OpusHead");
    let parsed = OpusHead::parse(&pkt).expect("parse with magic");
    assert_eq!(parsed, h);
}

#[test]
fn opushead_mono_default() {
    let h = OpusHead::mono(48_000);
    assert_eq!(h.channel_count, 1);
    assert_eq!(h.input_sample_rate, 48_000);
    assert_eq!(h.channel_mapping_family, 0);
}

#[test]
fn opushead_rejects_zero_channels() {
    let mut h = OpusHead::stereo(48_000);
    h.channel_count = 0;
    let body = h.to_body_bytes();
    assert!(OpusHead::parse(&body).is_none());
}

#[test]
fn opushead_rejects_too_short() {
    let buf = [0u8; 5];
    assert!(OpusHead::parse(&buf).is_none());
}

#[test]
fn opushead_rejects_truncated_mapping_table() {
    let mut h = OpusHead::stereo(48_000);
    h.channel_mapping_family = 1;
    h.mapping_table = vec![1, 0, 0, 1]; // valid for stereo
    let mut bytes = h.to_body_bytes();
    bytes.truncate(bytes.len() - 2); // drop trailing 2 mapping bytes
    assert!(OpusHead::parse(&bytes).is_none());
}

#[test]
fn opushead_round_trips_5_1_multistream() {
    let h = OpusHead {
        version: 1,
        channel_count: 6,
        pre_skip: 312,
        input_sample_rate: 48_000,
        output_gain: 0,
        channel_mapping_family: 1,
        mapping_table: vec![4, 2, 0, 4, 1, 2, 3, 5],
    };
    let body = h.to_body_bytes();
    let parsed = OpusHead::parse(&body).expect("parse 5.1");
    assert_eq!(parsed, h);
}

#[test]
fn opushead_le_field_layout() {
    let h = OpusHead {
        version: 1,
        channel_count: 2,
        pre_skip: 0,
        input_sample_rate: 48_000, // 0xBB80
        output_gain: 0,
        channel_mapping_family: 0,
        mapping_table: Vec::new(),
    };
    let body = h.to_body_bytes();
    assert_eq!(body[0], 1); // version
    assert_eq!(body[1], 2); // channels
    assert_eq!(&body[2..4], &[0, 0]); // pre_skip LE
    assert_eq!(&body[4..8], &[0x80, 0xBB, 0, 0]); // 48000 LE
    assert_eq!(&body[8..10], &[0, 0]); // gain
    assert_eq!(body[10], 0); // family
}


#[test]
fn parse_at_compression_cookie_stereo_48k_20ms() {
    let cookie = [
        0x00, 0x00, 0x08, 0x00, 0x00, 0x00, 0xBB, 0x80, 0x00, 0x00, 0x03, 0xC0, 0xFF, 0xFF,
        0xFC, 0x18, 0x00, 0x00, 0x00, 0x02, 0x00, 0x00, 0x00, 0x00, 0x00, 0x00, 0x00, 0x00,
    ];
    let c = parse_at_compression_cookie(&cookie).expect("parse AT cookie");
    assert_eq!(c.sample_rate, 48_000);
    assert_eq!(c.frames_per_packet, 960);
    assert_eq!(c.channel_count, 2);
}

#[test]
fn parse_at_compression_cookie_mono_48k_20ms() {
    let cookie = [
        0x00, 0x00, 0x08, 0x00, 0x00, 0x00, 0xBB, 0x80, 0x00, 0x00, 0x03, 0xC0, 0xFF, 0xFF,
        0xFC, 0x18, 0x00, 0x00, 0x00, 0x01, 0x00, 0x00, 0x00, 0x00, 0x00, 0x00, 0x00, 0x00,
    ];
    let c = parse_at_compression_cookie(&cookie).expect("parse mono cookie");
    assert_eq!(c.channel_count, 1);
}

#[test]
fn parse_at_compression_cookie_rejects_short() {
    let cookie = [0u8; 10];
    assert!(parse_at_compression_cookie(&cookie).is_none());
}

#[test]
fn parse_at_compression_cookie_takes_one_length() {
    assert!(parse_at_compression_cookie(&[0u8; 27]).is_none());
    assert!(parse_at_compression_cookie(&[0u8; 28]).is_some());
    assert!(parse_at_compression_cookie(&[0u8; 29]).is_none());
}
