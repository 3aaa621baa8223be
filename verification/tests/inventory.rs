//! The codec inventory, with the framework's answers written out.

use oxideav_audiotoolbox::bytes::ByteOrder;
use oxideav_audiotoolbox::converter::PropertyReply;
use oxideav_audiotoolbox::inventory::{
    asbd_bool_property, available_encode_bit_rates, available_encode_sample_rates, can_decode,
    can_encode, decodable_format_ids, decode_inventory, double_bits, encodable_format_ids,
    encode_inventory, format_is_externally_framed, format_is_vbr, parse_format_ids, value_ranges,
    OsInventory,
};
use oxideav_audiotoolbox::registry::{Codec, Half, Registration, SOFTWARE_PRIORITY};
use oxideav_audiotoolbox::status::{AtError, AtStatus};
use oxideav_audiotoolbox::sys::{
    AudioFormatId as F, AudioStreamBasicDescription, AudioValueRange,
    K_AUDIO_FORMAT_PROPERTY_DECODE_FORMAT_IDS, K_AUDIO_FORMAT_PROPERTY_ENCODE_FORMAT_IDS,
    K_AUDIO_FORMAT_PROPERTY_FORMAT_IS_EXTERNALLY_FRAMED, K_AUDIO_FORMAT_PROPERTY_FORMAT_IS_VBR,
};

fn bytes(data: Vec<u8>) -> PropertyReply {
    PropertyReply {
        info_status: 0,
        size: data.len() as u32,
        status: 0,
        written: data.len() as u32,
        buffer: data,
    }
}

fn refusal(tag: &[u8; 4]) -> PropertyReply {
    PropertyReply {
        info_status: i32::from_be_bytes(*tag),
        size: 0,
        status: 0,
        written: 0,
        buffer: Vec::new(),
    }
}

const DECODED: [F; 17] = [
    F::LinearPcm,
    F::Unknown(0x61632D33),
    F::Mpeg4AacLc,
    F::Mpeg4AacHe,
    F::Mpeg4AacHeV2,
    F::Mpeg4AacLd,
    F::Mpeg4AacEld,
    F::AppleLossless,
    F::Ilbc,
    F::AmrNb,
    F::AmrWb,
    F::MpegLayer1,
    F::MpegLayer2,
    F::MpegLayer3,
    F::Flac,
    F::Opus,
    F::Unknown(0x756C6177),
];

const ENCODED: [F; 10] = [
    F::LinearPcm,
    F::Mpeg4AacLc,
    F::Mpeg4AacHe,
    F::Mpeg4AacHeV2,
    F::Mpeg4AacLd,
    F::Mpeg4AacEld,
    F::AppleLossless,
    F::Ilbc,
    F::Flac,
    F::Opus,
];

fn list(ids: &[F]) -> PropertyReply {
    let mut data = Vec::new();
    for id in ids {
        data.extend_from_slice(&id.as_u32().to_le_bytes());
    }
    bytes(data)
}

fn grid(values: &[f64]) -> PropertyReply {
    let mut data = Vec::new();
    for v in values {
        data.extend_from_slice(&v.to_le_bytes());
        data.extend_from_slice(&v.to_le_bytes());
    }
    bytes(data)
}

fn is_discrete(r: &AudioValueRange) -> bool {
    f64::from_bits(r.minimum_bits) == f64::from_bits(r.maximum_bits)
}

fn holds(r: &AudioValueRange, value: f64) -> bool {
    f64::from_bits(r.minimum_bits) <= value && value <= f64::from_bits(r.maximum_bits)
}

fn probed() -> OsInventory {
    OsInventory::probe(
        decodable_format_ids(list(&DECODED), ByteOrder::Little),
        encodable_format_ids(list(&ENCODED), ByteOrder::Little),
    )
}

#[test]
fn os_decode_inventory_covers_every_registered_decoder() {
    let query = decode_inventory();
    assert_eq!(query.property_id, K_AUDIO_FORMAT_PROPERTY_DECODE_FORMAT_IDS);
    assert!(query.specifier.is_empty());
    for id in [
        F::Mpeg4AacLc,
        F::Mpeg4AacHe,
        F::Mpeg4AacHeV2,
        F::Mpeg4AacLd,
        F::Mpeg4AacEld,
        F::AppleLossless,
        F::Ilbc,
        F::AmrNb,
        F::AmrWb,
        F::MpegLayer1,
        F::MpegLayer2,
        F::MpegLayer3,
        F::Flac,
        F::Opus,
        F::LinearPcm,
    ] {
        assert!(
            can_decode(id, list(&DECODED), ByteOrder::Little).expect("decode inventory"),
            "{id:?} should be OS-decodable"
        );
    }
}

#[test]
fn os_encode_inventory_covers_every_registered_encoder() {
    let query = encode_inventory();
    assert_eq!(query.property_id, K_AUDIO_FORMAT_PROPERTY_ENCODE_FORMAT_IDS);
    assert!(query.specifier.is_empty());
    for id in [
        F::Mpeg4AacLc,
        F::Mpeg4AacHe,
        F::Mpeg4AacHeV2,
        F::Mpeg4AacLd,
        F::Mpeg4AacEld,
        F::AppleLossless,
        F::Ilbc,
        F::Flac,
        F::Opus,
        F::LinearPcm,
    ] {
        assert!(
            can_encode(id, list(&ENCODED), ByteOrder::Little).expect("encode inventory"),
            "{id:?} should be OS-encodable"
        );
    }
}

#[test]
fn decode_only_formats_have_no_os_encoder() {
    for id in [
        F::AmrNb,
        F::AmrWb,
        F::MpegLayer1,
        F::MpegLayer2,
        F::MpegLayer3,
    ] {
        assert!(
            !can_encode(id, list(&ENCODED), ByteOrder::Little).expect("encode inventory"),
            "{id:?} must not be OS-encodable (decode-only registration)"
        );
    }
}

#[test]
fn opus_encode_bit_rate_grid_is_discrete() {
    let query = available_encode_bit_rates(F::Opus, ByteOrder::Little);
    assert_eq!(query.specifier, F::Opus.as_u32().to_le_bytes().to_vec());
    let rates = value_ranges(grid(&[6_000.0, 32_000.0, 510_000.0]), ByteOrder::Little)
        .expect("Opus bit rates");
    assert!(
        !rates.is_empty(),
        "Opus encoder should expose a bit-rate grid"
    );
    assert!(
        rates.iter().all(is_discrete),
        "observed Opus grid is a list of discrete rates: {rates:?}"
    );
    assert!(
        rates.iter().any(|r| holds(r, 32_000.0)),
        "32 kbit/s should be an Opus encode rate: {rates:?}"
    );
}

#[test]
fn aac_encode_sample_rate_grid_contains_the_cd_rate() {
    let query = available_encode_sample_rates(F::Mpeg4AacLc, ByteOrder::Big);
    assert_eq!(query.specifier, b"aac ".to_vec());
    let rates = value_ranges(grid(&[32_000.0, 44_100.0, 48_000.0]), ByteOrder::Little)
        .expect("AAC sample rates");
    assert!(!rates.is_empty());
    assert!(
        rates.iter().any(|r| holds(r, 44_100.0)),
        "44.1 kHz should be an AAC encode sample rate: {rates:?}"
    );
}

#[test]
fn flac_encode_sample_rate_grid_answers() {
    let rates = value_ranges(bytes(vec![0; 16]), ByteOrder::Little).expect("FLAC sample rates");
    assert!(!rates.is_empty(), "FLAC grid query should answer non-empty");
    assert_eq!(rates.len(), 1);
}

#[test]
fn amr_nb_encoder_grid_is_refused_with_named_status() {
    let err =
        value_ranges(refusal(b"fmt?"), ByteOrder::Little).expect_err("AMR-NB has no encoder");
    assert_eq!(
        err.status(),
        Some(AtStatus::FormatNotSupported),
        "expected a classified rejection"
    );
    assert_eq!(
        err.to_string(),
        "AudioFormatGetPropertyInfo failed: \
         kAudioConverterErr_FormatNotSupported ('fmt?' / 1718449215)"
    );
}

#[test]
fn vbr_and_external_framing_match_the_wired_transports() {
    let yes = || bytes(1u32.to_le_bytes().to_vec());
    let no = || bytes(0u32.to_le_bytes().to_vec());
    for (name, asbd) in [
        ("aac", AudioStreamBasicDescription::mpeg4_aac(44_100, 2)),
        (
            "mp3",
            AudioStreamBasicDescription::mpeg_layer3(44_100, 2, 1152),
        ),
        ("opus", AudioStreamBasicDescription::opus(48_000, 2, 960)),
    ] {
        let query = format_is_vbr(&asbd, ByteOrder::Little);
        assert_eq!(query.property_id, K_AUDIO_FORMAT_PROPERTY_FORMAT_IS_VBR);
        assert_eq!(query.specifier.len(), 40);
        assert!(
            asbd_bool_property(yes(), ByteOrder::Little).expect("fvbr"),
            "{name} should be VBR"
        );
        let query = format_is_externally_framed(&asbd, ByteOrder::Little);
        assert_eq!(
            query.property_id,
            K_AUDIO_FORMAT_PROPERTY_FORMAT_IS_EXTERNALLY_FRAMED
        );
        assert!(
            asbd_bool_property(yes(), ByteOrder::Little).expect("fexf"),
            "{name} should be externally framed"
        );
    }
    for (name, asbd) in [
        ("ilbc", AudioStreamBasicDescription::ilbc(240)),
        ("pcm", AudioStreamBasicDescription::pcm_float32(44_100, 2)),
    ] {
        assert_eq!(format_is_vbr(&asbd, ByteOrder::Little).specifier.len(), 40);
        assert!(
            !asbd_bool_property(no(), ByteOrder::Little).expect("fvbr"),
            "{name} should be CBR"
        );
        assert!(
            !asbd_bool_property(no(), ByteOrder::Little).expect("fexf"),
            "{name} should be self-framed"
        );
    }
}

#[test]
fn inventory_lists_are_deduplicated_views_of_real_data() {
    let dec = decodable_format_ids(list(&DECODED), ByteOrder::Little).expect("decode ids");
    let enc = encodable_format_ids(list(&ENCODED), ByteOrder::Little).expect("encode ids");
    assert!(
        dec.len() >= 15,
        "decode set unexpectedly small: {}",
        dec.len()
    );
    assert!(
        enc.len() >= 8,
        "encode set unexpectedly small: {}",
        enc.len()
    );
    for id in dec.iter().chain(enc.iter()) {
        assert_eq!(
            *id,
            F::from_u32(id.as_u32()),
            "classifier round-trip must be lossless"
        );
    }
}

#[test]
fn os_inventory_snapshot_matches_the_live_queries() {
    let inv = probed();
    assert!(inv.decodes(F::Mpeg4AacLc));
    assert!(inv.encodes(F::Mpeg4AacLc));
    assert!(inv.decodes(F::AmrNb));
    assert!(!inv.encodes(F::AmrNb), "AMR-NB is decode-only");
    assert!(!inv.encodes(F::MpegLayer3), "MP3 is decode-only");
    let empty = OsInventory::default();
    assert!(empty.decodes(F::Unknown(0x7878_7878)));
    assert!(empty.encodes(F::Unknown(0x7878_7878)));
}

#[test]
fn a_failed_query_leaves_its_list_open() {
    let inv = OsInventory::probe(
        decodable_format_ids(refusal(b"what"), ByteOrder::Little),
        Err(AtError::FrameworkUnavailable("gone".to_string())),
    );
    assert!(inv.decodes(F::Opus));
    assert!(inv.encodes(F::AmrNb));
}

#[test]
fn identifiers_follow_the_byte_order() {
    let raw = [0x66, 0x6C, 0x61, 0x63, 0x63, 0x61, 0x6C, 0x66, 0x01];
    assert_eq!(
        parse_format_ids(&raw, ByteOrder::Big),
        vec![F::Flac, F::Unknown(0x63616C66)]
    );
    assert_eq!(
        parse_format_ids(&raw, ByteOrder::Little),
        vec![F::Unknown(0x63616C66), F::Flac]
    );
}

#[test]
fn truth_values_need_four_bytes() {
    let err = asbd_bool_property(bytes(vec![1, 0, 0]), ByteOrder::Little).unwrap_err();
    assert_eq!(err.status(), Some(AtStatus::BadPropertySize));
    assert!(asbd_bool_property(bytes(vec![0, 0, 0, 2]), ByteOrder::Little).expect("word"));
}

#[test]
fn sample_rates_are_doubles() {
    for n in [0u32, 1, 2, 3, 8_000, 11_025, 44_100, 48_000, 384_000, u32::MAX] {
        assert_eq!(double_bits(n), (n as f64).to_bits(), "{n}");
    }
    let q = format_is_vbr(&AudioStreamBasicDescription::pcm_s16(44_100, 2), ByteOrder::Little);
    assert_eq!(&q.specifier[..8], &44_100f64.to_le_bytes());
    assert_eq!(&q.specifier[8..12], b"mcpl");
    assert_eq!(&q.specifier[28..32], &2u32.to_le_bytes());
    assert_eq!(&q.specifier[32..36], &16u32.to_le_bytes());
}

// Registration

fn has(plan: &[Registration], id: &str, half: Half) -> bool {
    plan.iter().any(|r| r.codec.id() == id && r.half == half)
}

#[test]
fn registration_matches_the_os_inventory_exactly() {
    let plan = oxideav_audiotoolbox::register(Some(&probed()));
    for (cid, fmt) in [
        ("aac", F::Mpeg4AacLc),
        ("alac", F::AppleLossless),
        ("ilbc", F::Ilbc),
        ("amr_nb", F::AmrNb),
        ("amr_wb", F::AmrWb),
        ("mp1", F::MpegLayer1),
        ("mp2", F::MpegLayer2),
        ("mp3", F::MpegLayer3),
        ("flac", F::Flac),
        ("opus", F::Opus),
    ] {
        let os_dec = can_decode(fmt, list(&DECODED), ByteOrder::Little).unwrap_or(true);
        let os_enc = can_encode(fmt, list(&ENCODED), ByteOrder::Little).unwrap_or(true);
        assert_eq!(
            has(&plan, cid, Half::Decoder),
            os_dec,
            "{cid}: registered-decoder must mirror the OS decode inventory"
        );
        assert_eq!(
            has(&plan, cid, Half::Encoder),
            os_enc,
            "{cid}: registered-encoder must mirror the OS encode inventory"
        );
    }
}

#[test]
fn register_installs_factories() {
    let plan = oxideav_audiotoolbox::register(Some(&probed()));
    assert!(has(&plan, "aac", Half::Decoder));
    assert!(has(&plan, "aac", Half::Encoder));
}

#[test]
fn register_installs_alac_factories() {
    let plan = oxideav_audiotoolbox::register(Some(&probed()));
    assert!(has(&plan, "alac", Half::Decoder));
    assert!(has(&plan, "alac", Half::Encoder));
}

#[test]
fn register_installs_ilbc_factories() {
    let plan = oxideav_audiotoolbox::register(Some(&probed()));
    assert!(has(&plan, "ilbc", Half::Decoder));
    assert!(has(&plan, "ilbc", Half::Encoder));
}

#[test]
fn register_installs_amr_nb_decoder_only() {
    let plan = oxideav_audiotoolbox::register(Some(&OsInventory::default()));
    assert!(has(&plan, "amr_nb", Half::Decoder));
    assert!(!has(&plan, "amr_nb", Half::Encoder));
}

#[test]
fn register_installs_amr_wb_decoder_only() {
    let plan = oxideav_audiotoolbox::register(Some(&OsInventory::default()));
    assert!(has(&plan, "amr_wb", Half::Decoder));
    assert!(!has(&plan, "amr_wb", Half::Encoder));
}

#[test]
fn register_installs_mp3_decoder_only() {
    let plan = oxideav_audiotoolbox::register(Some(&OsInventory::default()));
    assert!(has(&plan, "mp3", Half::Decoder));
    assert!(!has(&plan, "mp3", Half::Encoder));
}

#[test]
fn register_installs_mp1_mp2_decoders_only() {
    let plan = oxideav_audiotoolbox::register(Some(&OsInventory::default()));
    for cid in ["mp1", "mp2"] {
        assert!(has(&plan, cid, Half::Decoder));
        assert!(!has(&plan, cid, Half::Encoder));
    }
}

#[test]
fn register_installs_flac_factories() {
    let plan = oxideav_audiotoolbox::register(Some(&probed()));
    assert!(has(&plan, "flac", Half::Decoder));
    assert!(has(&plan, "flac", Half::Encoder));
}

#[test]
fn register_installs_opus_factories() {
    let plan = oxideav_audiotoolbox::register(Some(&probed()));
    assert!(has(&plan, "opus", Half::Decoder));
    assert!(has(&plan, "opus", Half::Encoder));
}

#[test]
fn without_lists_every_half_is_registered() {
    let plan = oxideav_audiotoolbox::register(Some(&OsInventory::default()));
    assert_eq!(plan.len(), 15);
    assert_eq!(plan[0].codec, Codec::Aac);
    assert_eq!(plan[14].codec, Codec::Opus);
    for r in &plan {
        assert_eq!(
            r.codec.implementation(),
            format!("{}_audiotoolbox", r.codec.id())
        );
        assert_eq!(r.tags().is_empty(), r.half == Half::Encoder);
    }
}

#[test]
fn every_factory_is_preferred_hardware() {
    let plan = oxideav_audiotoolbox::register(Some(&OsInventory::default()));
    for r in &plan {
        let c = r.capabilities();
        assert!(c.hardware && c.intra_only, "{:?}", r.codec);
        assert_eq!(c.priority, 10);
        assert!(c.priority < SOFTWARE_PRIORITY);
        assert_eq!(c.implementation, r.codec.implementation());
    }
    let flac = Registration { codec: Codec::Flac, half: Half::Encoder }.capabilities();
    assert!(!flac.lossy);
    assert_eq!((flac.max_channels, flac.max_sample_rate), (8, 192_000));
}

#[test]
fn without_the_framework_nothing_is_registered() {
    assert!(oxideav_audiotoolbox::register(None).is_empty());
}

#[test]
fn a_missing_format_is_not_registered() {
    let inv = OsInventory::probe(Ok(vec![F::Flac]), Ok(vec![F::Opus]));
    let plan = oxideav_audiotoolbox::register(Some(&inv));
    assert_eq!(
        plan,
        vec![
            Registration { codec: Codec::Flac, half: Half::Decoder },
            Registration { codec: Codec::Opus, half: Half::Encoder },
        ]
    );
}
