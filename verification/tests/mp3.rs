//! MPEG audio frame headers.

use oxideav_audiotoolbox::mp3::{ChannelMode, FrameHeader, Layer, Version};

fn build_header(
    version: Version,
    layer: Layer,
    crc_present: bool,
    bitrate_index: u8,
    sr_index: u8,
    padding: bool,
    channel_mode_bits: u8,
) -> [u8; 4] {
    let (ext, id) = match version {
        Version::Mpeg1 => (1u8, 1u8),
        Version::Mpeg2 => (1u8, 0u8),
        Version::Mpeg25 => (0u8, 0u8),
    };
    let layer_bits = match layer {
        Layer::LayerI => 0b11u8,
        Layer::LayerII => 0b10u8,
        Layer::LayerIII => 0b01u8,
    };
    let proto = if crc_present { 0u8 } else { 1u8 };
    let pad = if padding { 1u8 } else { 0u8 };
    let b0 = 0xFFu8;
    let b1 = (0b111u8 << 5) | (ext << 4) | (id << 3) | (layer_bits << 1) | proto;
    let b2 = (bitrate_index << 4) | (sr_index << 2) | (pad << 1);
    let b3 = (channel_mode_bits & 0b11) << 6;
    [b0, b1, b2, b3]
}

#[test]
fn parses_mpeg1_layer3_44100_128kbps_stereo() {
    let bytes = build_header(
        Version::Mpeg1,
        Layer::LayerIII,
        false,
        9,
        0,
        false,
        0b00, // stereo
    );
    let h = FrameHeader::parse(bytes).expect("header parse");
    assert_eq!(h.version, Version::Mpeg1);
    assert_eq!(h.layer, Layer::LayerIII);
    assert!(!h.crc_protected);
    assert_eq!(h.bit_rate, 128_000);
    assert_eq!(h.sample_rate, 44_100);
    assert!(!h.padding);
    assert_eq!(h.channel_mode, ChannelMode::Stereo);
    assert_eq!(h.samples_per_frame, 1152);
    assert_eq!(h.frame_length, 417);
}

#[test]
fn padding_bit_adds_one_byte_for_layer3() {
    let bytes = build_header(Version::Mpeg1, Layer::LayerIII, false, 9, 0, true, 0b00);
    let h = FrameHeader::parse(bytes).expect("header parse");
    assert!(h.padding);
    assert_eq!(h.frame_length, 418);
}

#[test]
fn rejects_bad_sync_word() {
    let bytes = [0xFE, 0xFB, 0x90, 0x00];
    assert_eq!(FrameHeader::parse(bytes), None);
}

#[test]
fn rejects_reserved_version() {
    let bytes = [0xFF, 0b1110_1010, 0x90, 0x00];
    assert_eq!(FrameHeader::parse(bytes), None);
}

#[test]
fn rejects_reserved_layer() {
    let bytes = build_header(Version::Mpeg1, Layer::LayerIII, false, 9, 0, false, 0b00);
    let mut bad = bytes;
    bad[1] &= !0b110;
    assert_eq!(FrameHeader::parse(bad), None);
}

#[test]
fn rejects_free_format_bitrate_index() {
    let bytes = build_header(Version::Mpeg1, Layer::LayerIII, false, 0, 0, false, 0b00);
    assert_eq!(FrameHeader::parse(bytes), None);
}

#[test]
fn rejects_reserved_bitrate_index() {
    let bytes = build_header(
        Version::Mpeg1,
        Layer::LayerIII,
        false,
        0b1111,
        0,
        false,
        0b00,
    );
    assert_eq!(FrameHeader::parse(bytes), None);
}

#[test]
fn rejects_reserved_sample_rate_index() {
    let bytes = build_header(Version::Mpeg1, Layer::LayerIII, false, 9, 0b11, false, 0b00);
    assert_eq!(FrameHeader::parse(bytes), None);
}

#[test]
fn channel_mode_decodes_all_four_variants() {
    for (bits, mode) in [
        (0b00, ChannelMode::Stereo),
        (0b01, ChannelMode::JointStereo),
        (0b10, ChannelMode::DualMono),
        (0b11, ChannelMode::Mono),
    ] {
        let bytes = build_header(Version::Mpeg1, Layer::LayerIII, false, 9, 0, false, bits);
        let h = FrameHeader::parse(bytes).expect("header parse");
        assert_eq!(h.channel_mode, mode);
    }
    assert_eq!(ChannelMode::Mono.channel_count(), 1);
    assert_eq!(ChannelMode::Stereo.channel_count(), 2);
    assert_eq!(ChannelMode::JointStereo.channel_count(), 2);
    assert_eq!(ChannelMode::DualMono.channel_count(), 2);
}

#[test]
fn mpeg2_layer3_22050_64kbps() {
    let bytes = build_header(Version::Mpeg2, Layer::LayerIII, false, 8, 0, false, 0b00);
    let h = FrameHeader::parse(bytes).expect("header parse");
    assert_eq!(h.version, Version::Mpeg2);
    assert_eq!(h.bit_rate, 64_000);
    assert_eq!(h.sample_rate, 22_050);
    assert_eq!(h.samples_per_frame, 576);
    assert_eq!(h.frame_length, 208);
}

#[test]
fn mpeg25_layer3_11025_32kbps() {
    let bytes = build_header(Version::Mpeg25, Layer::LayerIII, false, 4, 0, false, 0b11);
    let h = FrameHeader::parse(bytes).expect("header parse");
    assert_eq!(h.version, Version::Mpeg25);
    assert_eq!(h.bit_rate, 32_000);
    assert_eq!(h.sample_rate, 11_025);
    assert_eq!(h.samples_per_frame, 576);
    assert_eq!(h.channels(), 1);
    assert_eq!(h.frame_length, 208);
}

#[test]
fn layer1_frame_length_is_quad_slot_aligned() {
    let bytes = build_header(Version::Mpeg1, Layer::LayerI, false, 1, 2, false, 0b00);
    let h = FrameHeader::parse(bytes).expect("header parse");
    assert_eq!(h.layer, Layer::LayerI);
    assert_eq!(h.bit_rate, 32_000);
    assert_eq!(h.sample_rate, 32_000);
    assert_eq!(h.samples_per_frame, 384);
    assert_eq!(h.frame_length, 48);
}

#[test]
fn layer2_frame_length_192kbps_44100() {
    let bytes = build_header(Version::Mpeg1, Layer::LayerII, false, 10, 0, false, 0b00);
    let h = FrameHeader::parse(bytes).expect("header parse");
    assert_eq!(h.layer, Layer::LayerII);
    assert_eq!(h.bit_rate, 192_000);
    assert_eq!(h.sample_rate, 44_100);
    assert_eq!(h.samples_per_frame, 1152);
    assert_eq!(h.frame_length, 626);
}

#[test]
fn padding_bit_adds_four_bytes_for_layer1() {
    let bytes = build_header(Version::Mpeg1, Layer::LayerI, false, 1, 2, true, 0b00);
    let h = FrameHeader::parse(bytes).expect("header parse");
    assert_eq!(h.frame_length, 52);
}

#[test]
fn crc_protected_bit_flips_polarity() {
    let with_crc = build_header(Version::Mpeg1, Layer::LayerIII, true, 9, 0, false, 0b00);
    let no_crc = build_header(Version::Mpeg1, Layer::LayerIII, false, 9, 0, false, 0b00);
    assert!(FrameHeader::parse(with_crc).unwrap().crc_protected);
    assert!(!FrameHeader::parse(no_crc).unwrap().crc_protected);
}
