//! AMR wideband storage frames.

use oxideav_audiotoolbox::amr_wb::{make_toc, FrameType, FRAMES_PER_PACKET};

#[test]
fn amr_wb_from_toc_speech_modes() {
    for ft in 0..=8 {
        let toc = (ft as u8) << 3 | 0b100;
        let parsed = FrameType::from_toc(toc).expect("valid speech mode");
        assert_eq!(parsed.ft_index(), ft as u8);
    }
}

#[test]
fn amr_wb_from_toc_sid() {
    let toc = (9u8 << 3) | 0b100;
    assert_eq!(FrameType::from_toc(toc), Some(FrameType::Sid));
}

#[test]
fn amr_wb_from_toc_no_data() {
    let toc = (15u8 << 3) | 0b100;
    assert_eq!(FrameType::from_toc(toc), Some(FrameType::NoData));
}

#[test]
fn amr_wb_from_toc_reserved_returns_none() {
    for ft in 10..=14u8 {
        let toc = (ft << 3) | 0b100;
        assert_eq!(
            FrameType::from_toc(toc),
            None,
            "ft={ft} must be reserved → None"
        );
    }
}

#[test]
fn amr_wb_bytes_per_packet_table() {
    assert_eq!(FrameType::Mr660.bytes_per_packet(), 17);
    assert_eq!(FrameType::Mr885.bytes_per_packet(), 23);
    assert_eq!(FrameType::Mr1265.bytes_per_packet(), 32);
    assert_eq!(FrameType::Mr1425.bytes_per_packet(), 36);
    assert_eq!(FrameType::Mr1585.bytes_per_packet(), 40);
    assert_eq!(FrameType::Mr1825.bytes_per_packet(), 46);
    assert_eq!(FrameType::Mr1985.bytes_per_packet(), 50);
    assert_eq!(FrameType::Mr2305.bytes_per_packet(), 58);
    assert_eq!(FrameType::Mr2385.bytes_per_packet(), 60);
    assert_eq!(FrameType::Sid.bytes_per_packet(), 6);
    assert_eq!(FrameType::NoData.bytes_per_packet(), 1);
}

#[test]
fn amr_wb_bit_rate_speech_modes() {
    assert_eq!(FrameType::Mr660.bit_rate(), Some(6_600));
    assert_eq!(FrameType::Mr2385.bit_rate(), Some(23_850));
    assert_eq!(FrameType::Sid.bit_rate(), None);
    assert_eq!(FrameType::NoData.bit_rate(), None);
}

#[test]
fn amr_wb_make_toc_round_trip() {
    for ft in [
        FrameType::Mr660,
        FrameType::Mr885,
        FrameType::Mr1265,
        FrameType::Mr1425,
        FrameType::Mr1585,
        FrameType::Mr1825,
        FrameType::Mr1985,
        FrameType::Mr2305,
        FrameType::Mr2385,
        FrameType::Sid,
        FrameType::NoData,
    ] {
        let toc = make_toc(ft);
        let parsed = FrameType::from_toc(toc).expect("round-trip");
        assert_eq!(parsed, ft);
        assert_eq!(toc & 0x80, 0, "F bit must be 0");
        assert_eq!(toc & 0x04, 0x04, "Q bit must be 1");
        assert_eq!(toc & 0x03, 0, "PP bits must be 0");
    }
}

#[test]
fn amr_wb_frames_per_packet_constant() {
    assert_eq!(FRAMES_PER_PACKET, 320);
}

#[test]
fn ft_index_no_overlap() {
    let all = [
        FrameType::Mr660,
        FrameType::Mr885,
        FrameType::Mr1265,
        FrameType::Mr1425,
        FrameType::Mr1585,
        FrameType::Mr1825,
        FrameType::Mr1985,
        FrameType::Mr2305,
        FrameType::Mr2385,
        FrameType::Sid,
        FrameType::NoData,
    ];
    let mut seen = [false; 16];
    for ft in all {
        let idx = ft.ft_index() as usize;
        assert!(!seen[idx], "FT index {idx} used twice");
        seen[idx] = true;
    }
}
