//! iLBC modes.

use oxideav_audiotoolbox::ilbc::IlbcMode;

#[test]
fn parse_known_strings() {
    assert_eq!(IlbcMode::parse(Some("20")), IlbcMode::Ms20);
    assert_eq!(IlbcMode::parse(Some("20ms")), IlbcMode::Ms20);
    assert_eq!(IlbcMode::parse(Some("ms20")), IlbcMode::Ms20);
    assert_eq!(IlbcMode::parse(Some("30")), IlbcMode::Ms30);
    assert_eq!(IlbcMode::parse(Some("30ms")), IlbcMode::Ms30);
    assert_eq!(IlbcMode::parse(None), IlbcMode::Ms30); // default
    assert_eq!(IlbcMode::parse(Some("xyz")), IlbcMode::Ms30);
}

#[test]
fn ms20_geometry() {
    assert_eq!(IlbcMode::Ms20.frames_per_packet(), 160);
    assert_eq!(IlbcMode::Ms20.bytes_per_packet(), 38);
}

#[test]
fn ms30_geometry() {
    assert_eq!(IlbcMode::Ms30.frames_per_packet(), 240);
    assert_eq!(IlbcMode::Ms30.bytes_per_packet(), 50);
}

#[test]
fn tag_roundtrips() {
    assert_eq!(IlbcMode::parse(Some(IlbcMode::Ms20.tag())), IlbcMode::Ms20);
    assert_eq!(IlbcMode::parse(Some(IlbcMode::Ms30.tag())), IlbcMode::Ms30);
}
