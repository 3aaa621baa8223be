//! The property surface of a converter, with the framework's answers written out.

use oxideav_audiotoolbox::bytes::ByteOrder;
use oxideav_audiotoolbox::converter::{read_compression_cookie, Converter, PropertyReply};
use oxideav_audiotoolbox::error::Error;
use oxideav_audiotoolbox::status::{AtError, AtStatus};
use oxideav_audiotoolbox::sys::{
    AudioConverterPrimeInfo, AudioStreamBasicDescription as Asbd, AudioValueRange, OSStatus,
    K_AUDIO_CONVERTER_COMPRESSION_MAGIC_COOKIE, K_AUDIO_CONVERTER_DECOMPRESSION_MAGIC_COOKIE,
    K_AUDIO_CONVERTER_ENCODE_BIT_RATE, K_AUDIO_FORMAT_MPEG4_AAC,
};

fn fourcc(tag: &[u8; 4]) -> OSStatus {
    OSStatus::from_be_bytes(*tag)
}

fn made() -> Converter {
    Converter::new(0x1000, 0).expect("PCM→AAC converter")
}

fn bytes(data: Vec<u8>) -> PropertyReply {
    PropertyReply {
        info_status: 0,
        size: data.len() as u32,
        status: 0,
        written: data.len() as u32,
        buffer: data,
    }
}

fn ranges(values: &[(f64, f64)]) -> PropertyReply {
    let mut data = Vec::new();
    for (low, high) in values {
        data.extend_from_slice(&low.to_le_bytes());
        data.extend_from_slice(&high.to_le_bytes());
    }
    bytes(data)
}

fn holds(r: &AudioValueRange, value: f64) -> bool {
    f64::from_bits(r.minimum_bits) <= value && value <= f64::from_bits(r.maximum_bits)
}

#[test]
fn create_query_and_drop_pcm_to_aac_encoder() {
    let c = made();
    assert!(c.raw() != 0);
    let max = c
        .max_output_packet_size()
        .answer(0, 1536u32)
        .expect("max packet size");
    assert!(max > 0, "AAC max output packet size should be > 0");
    assert_eq!(c.max_output_packet_size().size, 4);
    drop(c);
    let c2 = made();
    assert!(c2.raw() != 0);
}

#[test]
fn current_output_stream_description_reflects_the_destination() {
    let c = made();
    let query = c.current_output_stream_description();
    assert_eq!(query.size, 40);
    let output = query
        .answer(0, Asbd::mpeg4_aac(44_100, 2))
        .expect("current output ASBD (encode)");
    assert_eq!(
        output.format_id, K_AUDIO_FORMAT_MPEG4_AAC,
        "encode output side should be the AAC slot"
    );
    assert_eq!(output.sample_rate, 44_100);
    assert_eq!(output.channels_per_frame, 2);

    let output = query
        .answer(0, Asbd::pcm_float32(44_100, 2))
        .expect("current output ASBD (decode)");
    assert!(
        output.is_linear_pcm(),
        "decode output side should be linear PCM"
    );
    assert_eq!(output.sample_rate, 44_100);
}

#[test]
fn encode_bit_rate_round_trips_through_the_codec() {
    let c = made();
    let rates = c
        .applicable_encode_bit_rates()
        .answer_ranges(
            ranges(&[(32_000.0, 32_000.0), (128_000.0, 128_000.0)]),
            ByteOrder::Little,
        )
        .expect("applicable encode bit rates");
    assert!(
        !rates.is_empty(),
        "AAC encoder should expose applicable bit rates"
    );
    let pick = rates
        .iter()
        .find(|r| r.minimum_bits == r.maximum_bits && f64::from_bits(r.minimum_bits) >= 64_000.0)
        .expect("at least one rate");
    let write = c.set_encode_bit_rate(f64::from_bits(pick.minimum_bits) as u32, ByteOrder::Little);
    assert_eq!(write.property_id, K_AUDIO_CONVERTER_ENCODE_BIT_RATE);
    assert_eq!(write.data, 128_000u32.to_le_bytes().to_vec());
    write.answer(0).expect("set applicable bit rate");
    let got = c
        .encode_bit_rate()
        .answer(0, u32::from_le_bytes([write.data[0], write.data[1], write.data[2], write.data[3]]))
        .expect("read back bit rate");
    assert!(holds(pick, got as f64));

    let avail = c
        .available_encode_bit_rates()
        .answer_ranges(
            ranges(&[(8_000.0, 8_000.0), (128_000.0, 128_000.0)]),
            ByteOrder::Little,
        )
        .expect("available encode bit rates");
    assert!(!avail.is_empty());
    assert!(avail
        .iter()
        .any(|r| holds(r, f64::from_bits(pick.minimum_bits))));
}

#[test]
fn encode_sample_rate_queries_report_the_aac_grid() {
    let c = made();
    let grid = [(8_000.0, 8_000.0), (44_100.0, 44_100.0), (48_000.0, 48_000.0)];
    let rates = c
        .available_encode_sample_rates()
        .answer_ranges(ranges(&grid), ByteOrder::Little)
        .expect("available encode sample rates");
    assert!(
        !rates.is_empty(),
        "AAC encoder should expose encode sample rates"
    );
    assert!(
        rates.iter().any(|r| holds(r, 44_100.0)),
        "44.1 kHz should be an available AAC encode sample rate; got {rates:?}"
    );
    let applicable = c
        .applicable_encode_sample_rates()
        .answer_ranges(ranges(&[(44_100.0, 44_100.0)]), ByteOrder::Little)
        .expect("applicable encode sample rates");
    assert!(
        applicable.iter().any(|r| holds(r, 44_100.0)),
        "the configured 44.1 kHz should be applicable; got {applicable:?}"
    );
}

#[test]
fn aac_encoder_reports_priming_frames() {
    let c = made();
    let query = c.prime_info();
    assert_eq!(query.size, 8);
    let prime = query
        .answer(
            0,
            AudioConverterPrimeInfo {
                leading_frames: 2112,
                trailing_frames: 0,
            },
        )
        .expect("prime info");
    assert!(
        prime.leading_frames > 0,
        "AAC encode converter should report leading (priming) frames; got {prime:?}"
    );
}

#[test]
fn aac_encoder_vends_a_magic_cookie() {
    let c = made();
    let query = c.compression_magic_cookie();
    assert_eq!(query.property_id, K_AUDIO_CONVERTER_COMPRESSION_MAGIC_COOKIE);
    let cookie = query
        .answer(bytes(vec![0x11, 0x90]))
        .expect("compression cookie");
    assert!(
        !cookie.is_empty(),
        "AAC encode converter should vend a non-empty magic cookie"
    );
    assert_eq!(cookie, vec![0x11, 0x90]);
}

#[test]
fn reset_succeeds_on_a_fresh_converter() {
    let mut c = made();
    c.reset(0).expect("reset");
    assert_eq!(
        c.reset(-50).unwrap_err().to_string(),
        "AudioConverterReset failed: kAudio_ParamError (-50)"
    );
}

#[test]
fn pcm_to_pcm_conversion_pair_is_accepted() {
    let c = Converter::new(0x2000, 0).expect("PCM→PCM converter");
    assert!(c.raw() != 0);
}

#[test]
fn unknown_format_pair_is_rejected_with_typed_error() {
    let err = Converter::new(0, fourcc(b"fmt?")).expect_err("bogus format must fail");
    match err {
        AtError::Os { op, status } => {
            assert_eq!(op, "AudioConverterNew");
            assert!(
                status.name().is_some(),
                "rejection status should classify to a named code"
            );
        }
        other => panic!("expected Os error, got {other:?}"),
    }
}

#[test]
fn property_bytes_are_cut_to_what_was_written() {
    let c = made();
    let query = c.get_property_bytes(1);
    let mut reply = bytes(vec![1, 2, 3, 4]);
    reply.written = 2;
    assert_eq!(query.answer(reply).expect("bytes"), vec![1, 2]);
    let mut reply = bytes(vec![1, 2]);
    reply.written = 5;
    assert_eq!(query.answer(reply).expect("bytes"), vec![1, 2]);
    let mut reply = bytes(Vec::new());
    reply.status = -50;
    assert_eq!(query.answer(reply).expect("no bytes"), Vec::<u8>::new());
    let mut reply = bytes(vec![1]);
    reply.status = -50;
    assert_eq!(
        query.answer(reply).unwrap_err().to_string(),
        "AudioConverterGetProperty failed: kAudio_ParamError (-50)"
    );
    let mut reply = bytes(vec![1]);
    reply.info_status = fourcc(b"prop");
    assert_eq!(
        query.answer(reply).unwrap_err().status(),
        Some(AtStatus::PropertyNotSupported)
    );
}

#[test]
fn writes_carry_their_bytes() {
    let c = made();
    let w = c.set_decompression_magic_cookie(&[1, 2, 3]);
    assert_eq!(w.property_id, K_AUDIO_CONVERTER_DECOMPRESSION_MAGIC_COOKIE);
    assert_eq!(w.data, vec![1, 2, 3]);
    assert_eq!(
        w.answer(fourcc(b"!siz")).unwrap_err().status(),
        Some(AtStatus::BadPropertySize)
    );
    let w = c.set_u32(7, 0x0102_0304, ByteOrder::Big);
    assert_eq!((w.property_id, w.data), (7, vec![1, 2, 3, 4]));
}

#[test]
fn an_empty_compression_cookie_is_a_failure() {
    assert_eq!(
        read_compression_cookie(" / FLAC", bytes(vec![9])).expect("cookie"),
        vec![9]
    );
    match read_compression_cookie(" / FLAC", bytes(Vec::new())) {
        Err(Error::Other(m)) => {
            assert!(m.starts_with("GetPropertyInfo(CompressionMagicCookie / FLAC) (size 0) failed"))
        }
        other => panic!("expected an error, got {other:?}"),
    }
    let mut reply = bytes(vec![9]);
    reply.status = -50;
    assert_eq!(
        read_compression_cookie("", reply).unwrap_err().message(),
        "GetProperty(CompressionMagicCookie) failed: kAudio_ParamError (-50)"
    );
}
