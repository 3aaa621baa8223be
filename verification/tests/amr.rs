//! AMR narrowband storage frames.

use oxideav_audiotoolbox::amr::{make_toc, FrameType, FRAMES_PER_PACKET};

#[test]
fn amr_from_toc_speech_modes() {
    for ft in 0..=7 {
        let toc = (ft as u8) << 3 | 0b100;
        let parsed = FrameType::from_toc(toc).expect("valid speech mode");
        assert_eq!(parsed.ft_index(), ft as u8);
    }
}

#[test]
fn amr_from_toc_sid() {
    let toc = (8u8 << 3) | 0b100;
    assert_eq!(FrameType::from_toc(toc), Some(FrameType::Sid));
}

#[test]
fn amr_from_toc_no_data() {
    let toc = (15u8 << 3) | 0b100;
    assert_eq!(FrameType::from_toc(toc), Some(FrameType::NoData));
}

#[test]
fn amr_from_toc_reserved_returns_none() {
    for ft in 9..=14u8 {
        let toc = (ft << 3) | 0b100;
        assert_eq!(
            FrameType::from_toc(toc),
            None,
            "ft={ft} must be reserved → None"
        );
    }
}

#[test]
fn amr_bytes_per_packet_table() {
    assert_eq!(FrameType::Mr475.bytes_per_packet(), 13);
    assert_eq!(FrameType::Mr515.bytes_per_packet(), 14);
    assert_eq!(FrameType::Mr59.bytes_per_packet(), 16);
    assert_eq!(FrameType::Mr67.bytes_per_packet(), 18);
    assert_eq!(FrameType::Mr74.bytes_per_packet(), 20);
    assert_eq!(FrameType::Mr795.bytes_per_packet(), 21);
    assert_eq!(FrameType::Mr102.bytes_per_packet(), 27);
    assert_eq!(FrameType::Mr122.bytes_per_packet(), 32);
    assert_eq!(FrameType::Sid.bytes_per_packet(), 6);
    assert_eq!(FrameType::NoData.bytes_per_packet(), 1);
}

#[test]
fn amr_bit_rate_speech_modes() {
    assert_eq!(FrameType::Mr475.bit_rate(), Some(4_750));
    assert_eq!(FrameType::Mr122.bit_rate(), Some(12_200));
    assert_eq!(FrameType::Sid.bit_rate(), None);
    assert_eq!(FrameType::NoData.bit_rate(), None);
}

#[test]
fn amr_make_toc_round_trip() {
    for ft in [
        FrameType::Mr475,
        FrameType::Mr515,
        FrameType::Mr59,
        FrameType::Mr67,
        FrameType::Mr74,
        FrameType::Mr795,
        FrameType::Mr102,
        FrameType::Mr122,
        FrameType::Sid,
        FrameType::NoData,
    ] {
        let toc = make_toc(ft);
        let parsed = FrameType::from_toc(toc).expect("round-trip");
        assert_eq!(parsed, ft);
        assert_eq!(toc & 0x80, 0, "F bit must be 0");
        assert_eq!(toc & 0x04, 0x04, "Q bit must be 1");
        assert_eq!(toc & 0x03, 0, "PP bits must be 0");
    }
}

#[test]
fn amr_frames_per_packet_constant() {
    assert_eq!(FRAMES_PER_PACKET, 160);
}
