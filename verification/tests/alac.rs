//! ALAC magic cookies.

use oxideav_audiotoolbox::alac::{bit_depth_flag, AlacSpecificConfig, SPECIFIC_CONFIG_LEN};

#[test]
fn roundtrip_specific_config() {
    let cfg = AlacSpecificConfig::new(48_000, 2, 16);
    let bytes = cfg.to_bytes();
    let parsed = AlacSpecificConfig::parse(&bytes).expect("parse");
    assert_eq!(parsed, cfg);
    assert_eq!(bytes.len(), SPECIFIC_CONFIG_LEN);

    assert_eq!(&bytes[0..4], &4096u32.to_be_bytes()); // frame_length
    assert_eq!(bytes[5], 16); // bit_depth
    assert_eq!(bytes[6], 40); // pb
    assert_eq!(bytes[7], 10); // mb
    assert_eq!(bytes[8], 14); // kb
    assert_eq!(bytes[9], 2); // num_channels
    assert_eq!(&bytes[10..12], &255u16.to_be_bytes()); // max_run
    assert_eq!(&bytes[20..24], &48_000u32.to_be_bytes()); // sample_rate
}

#[test]
fn parse_rejects_short_input() {
    assert!(AlacSpecificConfig::parse(&[0u8; 23]).is_none());
    assert!(AlacSpecificConfig::parse(&[0u8; 24]).is_some());
}

#[test]
fn bit_depth_flag_table() {
    assert_eq!(bit_depth_flag(16), Some(1));
    assert_eq!(bit_depth_flag(20), Some(2));
    assert_eq!(bit_depth_flag(24), Some(3));
    assert_eq!(bit_depth_flag(32), Some(4));
    assert_eq!(bit_depth_flag(8), None);
}
