//! ADTS headers.

use oxideav_audiotoolbox::adts::{build_header, parse, sample_rate_index};

#[test]
fn roundtrip_header() {
    let sf = sample_rate_index(48_000).unwrap();
    let hdr = build_header(512, sf, 2, 1 /* AAC-LC profile */);
    let parsed = parse(&hdr).unwrap();
    assert_eq!(parsed.frame_length, 512 + 7);
    assert_eq!(parsed.sampling_freq_index, sf);
    assert_eq!(parsed.channel_configuration, 2);
}

#[test]
fn sample_rate_index_known_rates() {
    assert_eq!(sample_rate_index(48_000), Some(3));
    assert_eq!(sample_rate_index(44_100), Some(4));
    assert_eq!(sample_rate_index(8_000), Some(11));
    assert_eq!(sample_rate_index(99_999), None);
}
