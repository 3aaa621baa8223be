//! Status codes and the errors that they become.

use oxideav_audiotoolbox::error::Error;
use oxideav_audiotoolbox::status::{
    check, status_error, AtError, AtStatus, StatusKind, K_AUDIO_CODEC_BAD_DATA,
};
use oxideav_audiotoolbox::sys::OSStatus;

fn fourcc(tag: &[u8; 4]) -> OSStatus {
    OSStatus::from_be_bytes(*tag)
}

fn wired() -> Vec<(OSStatus, AtStatus, &'static str, StatusKind)> {
    vec![
        (0, AtStatus::NoError, "noErr", StatusKind::NoError),
        (
            fourcc(b"fmt?"),
            AtStatus::FormatNotSupported,
            "kAudioConverterErr_FormatNotSupported",
            StatusKind::Unsupported,
        ),
        (
            fourcc(b"op??"),
            AtStatus::OperationNotSupported,
            "kAudioConverterErr_OperationNotSupported",
            StatusKind::Unsupported,
        ),
        (
            fourcc(b"prop"),
            AtStatus::PropertyNotSupported,
            "kAudioConverterErr_PropertyNotSupported",
            StatusKind::Unsupported,
        ),
        (
            fourcc(b"insz"),
            AtStatus::InvalidInputSize,
            "kAudioConverterErr_InvalidInputSize",
            StatusKind::Usage,
        ),
        (
            fourcc(b"otsz"),
            AtStatus::InvalidOutputSize,
            "kAudioConverterErr_InvalidOutputSize",
            StatusKind::Usage,
        ),
        (
            fourcc(b"what"),
            AtStatus::Unspecified,
            "kAudioConverterErr_UnspecifiedError",
            StatusKind::Other,
        ),
        (
            fourcc(b"!siz"),
            AtStatus::BadPropertySize,
            "kAudioConverterErr_BadPropertySizeError",
            StatusKind::Usage,
        ),
        (
            fourcc(b"!pkd"),
            AtStatus::RequiresPacketDescriptions,
            "kAudioConverterErr_RequiresPacketDescriptionsError",
            StatusKind::Usage,
        ),
        (
            fourcc(b"!isr"),
            AtStatus::InputSampleRateOutOfRange,
            "kAudioConverterErr_InputSampleRateOutOfRange",
            StatusKind::Unsupported,
        ),
        (
            fourcc(b"!osr"),
            AtStatus::OutputSampleRateOutOfRange,
            "kAudioConverterErr_OutputSampleRateOutOfRange",
            StatusKind::Unsupported,
        ),
        (
            fourcc(b"hwiu"),
            AtStatus::HardwareInUse,
            "kAudioConverterErr_HardwareInUse",
            StatusKind::ResourceExhausted,
        ),
        (
            fourcc(b"perm"),
            AtStatus::NoHardwarePermission,
            "kAudioConverterErr_NoHardwarePermission",
            StatusKind::Unsupported,
        ),
        (
            fourcc(b"who?"),
            AtStatus::UnknownProperty,
            "kAudioCodecUnknownPropertyError",
            StatusKind::Unsupported,
        ),
        (
            fourcc(b"nope"),
            AtStatus::IllegalOperation,
            "kAudioCodecIllegalOperationError",
            StatusKind::Usage,
        ),
        (
            fourcc(b"!dat"),
            AtStatus::UnsupportedFormat,
            "kAudioCodecUnsupportedFormatError",
            StatusKind::Unsupported,
        ),
        (
            fourcc(b"!stt"),
            AtStatus::StateError,
            "kAudioCodecStateError",
            StatusKind::Usage,
        ),
        (
            fourcc(b"!buf"),
            AtStatus::NotEnoughBufferSpace,
            "kAudioCodecNotEnoughBufferSpaceError",
            StatusKind::ResourceExhausted,
        ),
        (
            fourcc(b"bada"),
            AtStatus::BadData,
            "kAudioCodecBadDataError",
            StatusKind::InvalidData,
        ),
        (
            fourcc(b"!fmt"),
            AtStatus::UnknownFormat,
            "kAudioFormatUnknownFormatError",
            StatusKind::Unsupported,
        ),
        (
            fourcc(b"!spc"),
            AtStatus::BadSpecifierSize,
            "kAudioFormatBadSpecifierSizeError",
            StatusKind::Usage,
        ),
        (
            fourcc(b"!pth"),
            AtStatus::BadFilePath,
            "kAudio_BadFilePathError",
            StatusKind::Usage,
        ),
        (
            -4,
            AtStatus::Unimplemented,
            "kAudio_UnimplementedError",
            StatusKind::Unsupported,
        ),
        (-43, AtStatus::FileNotFound, "kAudio_FileNotFoundError", StatusKind::Usage),
        (
            -54,
            AtStatus::FilePermission,
            "kAudio_FilePermissionError",
            StatusKind::Usage,
        ),
        (
            -42,
            AtStatus::TooManyFilesOpen,
            "kAudio_TooManyFilesOpenError",
            StatusKind::Usage,
        ),
        (-50, AtStatus::ParamError, "kAudio_ParamError", StatusKind::Usage),
        (
            -108,
            AtStatus::MemFull,
            "kAudio_MemFullError",
            StatusKind::ResourceExhausted,
        ),
    ]
}

#[test]
fn classify_round_trip_name_and_kind_for_every_wired_code() {
    for (raw, variant, name, kind) in wired() {
        let got = AtStatus::from_raw(raw);
        assert_eq!(got, variant, "raw {raw} should classify to {variant:?}");
        assert_eq!(got.as_raw(), raw, "{variant:?} should round-trip raw");
        assert_eq!(got.name(), Some(name), "{variant:?} name");
        assert_eq!(got.kind(), kind, "{variant:?} kind");
    }
}

#[test]
fn wired_raw_values_are_distinct() {
    let mut raws: Vec<OSStatus> = wired().into_iter().map(|(raw, ..)| raw).collect();
    raws.sort_unstable();
    let before = raws.len();
    raws.dedup();
    assert_eq!(raws.len(), before, "duplicate raw OSStatus in wired set");
}

#[test]
fn unknown_round_trips_and_reports_other() {
    let raw = fourcc(b"zzzz");
    let s = AtStatus::from_raw(raw);
    assert_eq!(s, AtStatus::Unknown(raw));
    assert_eq!(s.as_raw(), raw);
    assert_eq!(s.name(), None);
    assert_eq!(s.kind(), StatusKind::Other);
    assert!(!s.is_ok());
}

#[test]
fn ok_is_ok_and_nothing_else_is() {
    assert!(AtStatus::from_raw(0).is_ok());
    for (raw, ..) in wired() {
        if raw != 0 {
            assert!(!AtStatus::from_raw(raw).is_ok(), "raw {raw} must not be ok");
        }
    }
}

#[test]
fn display_renders_name_and_fourcc() {
    assert_eq!(
        AtStatus::FormatNotSupported.to_string(),
        "kAudioConverterErr_FormatNotSupported ('fmt?' / 1718449215)"
    );
    assert_eq!(AtStatus::ParamError.to_string(), "kAudio_ParamError (-50)");
    assert_eq!(
        AtStatus::Unknown(fourcc(b"zzzz")).to_string(),
        format!("OSStatus 'zzzz' ({})", fourcc(b"zzzz"))
    );
    assert_eq!(AtStatus::Unknown(-9999).to_string(), "OSStatus -9999");
}

#[test]
fn known_bad_data_code_matches_documented_integer() {
    assert_eq!(K_AUDIO_CODEC_BAD_DATA, 1650549857);
    assert_eq!(
        AtStatus::from_raw(1650549857).to_string(),
        "kAudioCodecBadDataError ('bada' / 1650549857)"
    );
}

#[test]
fn status_error_maps_kind_to_core_error_variant() {
    let e = status_error("AudioConverterNew", fourcc(b"fmt?"));
    assert!(
        matches!(e, Error::Unsupported(_)),
        "fmt? → Unsupported: {e:?}"
    );
    assert_eq!(
        e.message(),
        "unsupported: AudioConverterNew failed: \
         kAudioConverterErr_FormatNotSupported ('fmt?' / 1718449215)"
    );

    let e = status_error("FillComplexBuffer", fourcc(b"bada"));
    assert!(
        matches!(e, Error::InvalidData(_)),
        "bada → InvalidData: {e:?}"
    );

    let e = status_error("AudioConverterNew", fourcc(b"hwiu"));
    assert!(
        matches!(e, Error::ResourceExhausted(_)),
        "hwiu → ResourceExhausted: {e:?}"
    );

    let e = status_error("SetProperty", -50);
    assert!(matches!(e, Error::Other(_)), "-50 → Other: {e:?}");

    let e = status_error("SetProperty", fourcc(b"zzzz"));
    assert!(matches!(e, Error::Other(_)), "unknown → Other: {e:?}");
}

#[test]
fn at_error_converts_into_core_error() {
    let err = AtError::Os {
        op: "AudioConverterNew",
        status: AtStatus::FormatNotSupported,
    };
    let e = err.into_error();
    assert!(
        matches!(e, Error::Unsupported(_)),
        "fmt? should map to Unsupported: {e:?}"
    );

    let err = AtError::FrameworkUnavailable("dlopen failed".into());
    let e = err.into_error();
    assert!(
        matches!(e, Error::Unsupported(_)),
        "framework-unavailable should map to Unsupported: {e:?}"
    );
    assert_eq!(
        e.message(),
        "unsupported: AudioToolbox unavailable: dlopen failed"
    );
}

#[test]
fn checked_statuses_keep_the_call_and_the_code() {
    assert!(check("AudioConverterReset", 0).is_ok());
    let err = check("AudioConverterReset", fourcc(b"what")).unwrap_err();
    assert_eq!(err.status(), Some(AtStatus::Unspecified));
    assert_eq!(
        err.to_string(),
        "AudioConverterReset failed: kAudioConverterErr_UnspecifiedError ('what' / 2003329396)"
    );
    let gone = AtError::FrameworkUnavailable("no such file".to_string());
    assert_eq!(gone.status(), None);
    assert_eq!(gone.to_string(), "AudioToolbox unavailable: no such file");
}

#[test]
fn every_class_of_error_has_its_text() {
    assert_eq!(
        status_error("f", fourcc(b"bada")).message(),
        "invalid data: f failed: kAudioCodecBadDataError ('bada' / 1650549857)"
    );
    assert_eq!(
        status_error("f", -108).message(),
        "resource exhausted: f failed: kAudio_MemFullError (-108)"
    );
    assert_eq!(
        status_error("f", -50).message(),
        "f failed: kAudio_ParamError (-50)"
    );
    assert_eq!(Error::Eof.message(), "end of stream");
    assert_eq!(Error::NeedMore.message(), "need more data");
}

#[test]
fn extreme_codes_round_trip() {
    for raw in [i32::MIN, -1, 1, i32::MAX] {
        assert_eq!(AtStatus::from_raw(raw).as_raw(), raw);
    }
    assert_eq!(
        AtStatus::Unknown(i32::MIN).to_string(),
        "OSStatus -2147483648"
    );
}
