//! Typed classification of CoreAudio `OSStatus` codes.
//!
//! A CoreAudio call reports failure as a bare 32-bit number, most often four
//! ASCII characters packed big-endian. [`AtStatus`] gives each documented number
//! a name, [`StatusKind`] says what a caller does about it, and [`status_error`]
//! turns a failed call into an [`Error`].

use vstd::prelude::*;

use crate::bytes::be32_bytes;
use crate::error::{Error, ErrorView};
use crate::sys::{OSStatus, NO_ERR};
use crate::text::{push_char, push_signed, signed_decimal};

verus! {

/// `kAudioConverterErr_FormatNotSupported` (`'fmt?'`).
pub const K_AUDIO_CONVERTER_ERR_FORMAT_NOT_SUPPORTED: OSStatus = 0x666D743F;

/// `kAudioConverterErr_OperationNotSupported` (`'op??'`).
pub const K_AUDIO_CONVERTER_ERR_OPERATION_NOT_SUPPORTED: OSStatus = 0x6F703F3F;

/// `kAudioConverterErr_PropertyNotSupported` (`'prop'`).
pub const K_AUDIO_CONVERTER_ERR_PROPERTY_NOT_SUPPORTED: OSStatus = 0x70726F70;

/// `kAudioConverterErr_InvalidInputSize` (`'insz'`).
pub const K_AUDIO_CONVERTER_ERR_INVALID_INPUT_SIZE: OSStatus = 0x696E737A;

/// `kAudioConverterErr_InvalidOutputSize` (`'otsz'`).
pub const K_AUDIO_CONVERTER_ERR_INVALID_OUTPUT_SIZE: OSStatus = 0x6F74737A;

/// `kAudioConverterErr_UnspecifiedError` (`'what'`).
pub const K_AUDIO_CONVERTER_ERR_UNSPECIFIED: OSStatus = 0x77686174;

/// `kAudioConverterErr_BadPropertySizeError` (`'!siz'`).
pub const K_AUDIO_CONVERTER_ERR_BAD_PROPERTY_SIZE: OSStatus = 0x2173697A;

/// `kAudioConverterErr_RequiresPacketDescriptionsError` (`'!pkd'`).
pub const K_AUDIO_CONVERTER_ERR_REQUIRES_PACKET_DESCRIPTIONS: OSStatus = 0x21706B64;

/// `kAudioConverterErr_InputSampleRateOutOfRange` (`'!isr'`).
pub const K_AUDIO_CONVERTER_ERR_INPUT_SAMPLE_RATE_OUT_OF_RANGE: OSStatus = 0x21697372;

/// `kAudioConverterErr_OutputSampleRateOutOfRange` (`'!osr'`).
pub const K_AUDIO_CONVERTER_ERR_OUTPUT_SAMPLE_RATE_OUT_OF_RANGE: OSStatus = 0x216F7372;

/// `kAudioConverterErr_HardwareInUse` (`'hwiu'`).
pub const K_AUDIO_CONVERTER_ERR_HARDWARE_IN_USE: OSStatus = 0x68776975;

/// `kAudioConverterErr_NoHardwarePermission` (`'perm'`).
pub const K_AUDIO_CONVERTER_ERR_NO_HARDWARE_PERMISSION: OSStatus = 0x7065726D;

/// `kAudioCodecUnknownPropertyError` (`'who?'`).
pub const K_AUDIO_CODEC_UNKNOWN_PROPERTY: OSStatus = 0x77686F3F;

/// `kAudioCodecIllegalOperationError` (`'nope'`).
pub const K_AUDIO_CODEC_ILLEGAL_OPERATION: OSStatus = 0x6E6F7065;

/// `kAudioCodecUnsupportedFormatError` (`'!dat'`).
pub const K_AUDIO_CODEC_UNSUPPORTED_FORMAT: OSStatus = 0x21646174;

/// `kAudioCodecStateError` (`'!stt'`).
pub const K_AUDIO_CODEC_STATE_ERROR: OSStatus = 0x21737474;

/// `kAudioCodecNotEnoughBufferSpaceError` (`'!buf'`).
pub const K_AUDIO_CODEC_NOT_ENOUGH_BUFFER_SPACE: OSStatus = 0x21627566;

/// `kAudioCodecBadDataError` (`'bada'`).
pub const K_AUDIO_CODEC_BAD_DATA: OSStatus = 0x62616461;

/// `kAudioFormatUnknownFormatError` (`'!fmt'`).
pub const K_AUDIO_FORMAT_UNKNOWN_FORMAT: OSStatus = 0x21666D74;

/// `kAudioFormatBadSpecifierSizeError` (`'!spc'`).
pub const K_AUDIO_FORMAT_BAD_SPECIFIER_SIZE: OSStatus = 0x21737063;

/// `kAudio_BadFilePathError` (`'!pth'`).
pub const K_AUDIO_BAD_FILE_PATH: OSStatus = 0x21707468;

/// `kAudio_UnimplementedError` (-4).
pub const K_AUDIO_UNIMPLEMENTED: OSStatus = -4;

/// `kAudio_FileNotFoundError` (-43).
pub const K_AUDIO_FILE_NOT_FOUND: OSStatus = -43;

/// `kAudio_FilePermissionError` (-54).
pub const K_AUDIO_FILE_PERMISSION: OSStatus = -54;

/// `kAudio_TooManyFilesOpenError` (-42).
pub const K_AUDIO_TOO_MANY_FILES_OPEN: OSStatus = -42;

/// `kAudio_ParamError` (-50).
pub const K_AUDIO_PARAM_ERROR: OSStatus = -50;

/// `kAudio_MemFullError` (-108).
pub const K_AUDIO_MEM_FULL: OSStatus = -108;


/// What a caller does about a status.
#[derive(Clone, Copy, Debug, PartialEq, Eq, Structural)]
pub enum StatusKind {
    /// The call succeeded.
    NoError,
    /// This system does not provide what was asked for; another implementation may.
    Unsupported,
    /// The compressed input violates the codec's bitstream rules.
    InvalidData,
    /// Memory, buffer space or the hardware slot ran out.
    ResourceExhausted,
    /// The call itself was malformed.
    Usage,
    /// An unspecified or unrecognised code.
    Other,
}

/// A CoreAudio `OSStatus`, classified.
///
/// Every documented code has a variant of its own; any other value is carried
/// verbatim in [`AtStatus::Unknown`].
#[derive(Clone, Copy, Debug, PartialEq, Eq, Structural)]
pub enum AtStatus {
    /// 0: the call succeeded.
    NoError,
    /// `'fmt?'`: the requested format, or pair of formats, is not supported.
    FormatNotSupported,
    /// `'op??'`: the converter does not support the operation.
    OperationNotSupported,
    /// `'prop'`: the property is not supported.
    PropertyNotSupported,
    /// `'insz'`: the input buffer's size is invalid.
    InvalidInputSize,
    /// `'otsz'`: the output buffer's size is invalid.
    InvalidOutputSize,
    /// `'what'`: an unspecified failure.
    Unspecified,
    /// `'!siz'`: the property value has the wrong size.
    BadPropertySize,
    /// `'!pkd'`: the input is packetised and no packet descriptions came with it.
    RequiresPacketDescriptions,
    /// `'!isr'`: the input sample rate is out of the converter's range.
    InputSampleRateOutOfRange,
    /// `'!osr'`: the output sample rate is out of the converter's range.
    OutputSampleRateOutOfRange,
    /// `'hwiu'`: the hardware codec slot is busy.
    HardwareInUse,
    /// `'perm'`: the process may not use the hardware codec.
    NoHardwarePermission,
    /// `'who?'`: the codec does not know the property.
    UnknownProperty,
    /// `'nope'`: the operation is illegal in the codec's current configuration.
    IllegalOperation,
    /// `'!dat'`: the codec does not support the data format.
    UnsupportedFormat,
    /// `'!stt'`: the codec is in the wrong state for the call.
    StateError,
    /// `'!buf'`: the output buffer is too small.
    NotEnoughBufferSpace,
    /// `'bada'`: the compressed input violates the codec's bitstream rules.
    BadData,
    /// `'!fmt'`: the format API does not know the format.
    UnknownFormat,
    /// `'!spc'`: the format specifier has the wrong size.
    BadSpecifierSize,
    /// `'!pth'`: a bad file path.
    BadFilePath,
    /// -4: the call is not implemented on this system.
    Unimplemented,
    /// -43: file not found.
    FileNotFound,
    /// -54: file permission denied.
    FilePermission,
    /// -42: too many files are open.
    TooManyFilesOpen,
    /// -50: an argument of the call was invalid.
    ParamError,
    /// -108: memory allocation failed.
    MemFull,
    /// A value without a documented meaning.
    Unknown(OSStatus),
}

/// The classification of a raw status.
pub open spec fn classify(raw: OSStatus) -> AtStatus {
    if raw == NO_ERR {
        AtStatus::NoError
    } else if raw == K_AUDIO_CONVERTER_ERR_FORMAT_NOT_SUPPORTED {
        AtStatus::FormatNotSupported
    } else if raw == K_AUDIO_CONVERTER_ERR_OPERATION_NOT_SUPPORTED {
        AtStatus::OperationNotSupported
    } else if raw == K_AUDIO_CONVERTER_ERR_PROPERTY_NOT_SUPPORTED {
        AtStatus::PropertyNotSupported
    } else if raw == K_AUDIO_CONVERTER_ERR_INVALID_INPUT_SIZE {
        AtStatus::InvalidInputSize
    } else if raw == K_AUDIO_CONVERTER_ERR_INVALID_OUTPUT_SIZE {
        AtStatus::InvalidOutputSize
    } else if raw == K_AUDIO_CONVERTER_ERR_UNSPECIFIED {
        AtStatus::Unspecified
    } else if raw == K_AUDIO_CONVERTER_ERR_BAD_PROPERTY_SIZE {
        AtStatus::BadPropertySize
    } else if raw == K_AUDIO_CONVERTER_ERR_REQUIRES_PACKET_DESCRIPTIONS {
        AtStatus::RequiresPacketDescriptions
    } else if raw == K_AUDIO_CONVERTER_ERR_INPUT_SAMPLE_RATE_OUT_OF_RANGE {
        AtStatus::InputSampleRateOutOfRange
    } else if raw == K_AUDIO_CONVERTER_ERR_OUTPUT_SAMPLE_RATE_OUT_OF_RANGE {
        AtStatus::OutputSampleRateOutOfRange
    } else if raw == K_AUDIO_CONVERTER_ERR_HARDWARE_IN_USE {
        AtStatus::HardwareInUse
    } else if raw == K_AUDIO_CONVERTER_ERR_NO_HARDWARE_PERMISSION {
        AtStatus::NoHardwarePermission
    } else if raw == K_AUDIO_CODEC_UNKNOWN_PROPERTY {
        AtStatus::UnknownProperty
    } else if raw == K_AUDIO_CODEC_ILLEGAL_OPERATION {
        AtStatus::IllegalOperation
    } else if raw == K_AUDIO_CODEC_UNSUPPORTED_FORMAT {
        AtStatus::UnsupportedFormat
    } else if raw == K_AUDIO_CODEC_STATE_ERROR {
        AtStatus::StateError
    } else if raw == K_AUDIO_CODEC_NOT_ENOUGH_BUFFER_SPACE {
        AtStatus::NotEnoughBufferSpace
    } else if raw == K_AUDIO_CODEC_BAD_DATA {
        AtStatus::BadData
    } else if raw == K_AUDIO_FORMAT_UNKNOWN_FORMAT {
        AtStatus::UnknownFormat
    } else if raw == K_AUDIO_FORMAT_BAD_SPECIFIER_SIZE {
        AtStatus::BadSpecifierSize
    } else if raw == K_AUDIO_BAD_FILE_PATH {
        AtStatus::BadFilePath
    } else if raw == K_AUDIO_UNIMPLEMENTED {
        AtStatus::Unimplemented
    } else if raw == K_AUDIO_FILE_NOT_FOUND {
        AtStatus::FileNotFound
    } else if raw == K_AUDIO_FILE_PERMISSION {
        AtStatus::FilePermission
    } else if raw == K_AUDIO_TOO_MANY_FILES_OPEN {
        AtStatus::TooManyFilesOpen
    } else if raw == K_AUDIO_PARAM_ERROR {
        AtStatus::ParamError
    } else if raw == K_AUDIO_MEM_FULL {
        AtStatus::MemFull
    } else {
        AtStatus::Unknown(raw)
    }
}

impl AtStatus {
    /// The number that this status stands for.
    pub open spec fn raw(self) -> OSStatus {
        match self {
            AtStatus::NoError => NO_ERR,
            AtStatus::FormatNotSupported => K_AUDIO_CONVERTER_ERR_FORMAT_NOT_SUPPORTED,
            AtStatus::OperationNotSupported => K_AUDIO_CONVERTER_ERR_OPERATION_NOT_SUPPORTED,
            AtStatus::PropertyNotSupported => K_AUDIO_CONVERTER_ERR_PROPERTY_NOT_SUPPORTED,
            AtStatus::InvalidInputSize => K_AUDIO_CONVERTER_ERR_INVALID_INPUT_SIZE,
            AtStatus::InvalidOutputSize => K_AUDIO_CONVERTER_ERR_INVALID_OUTPUT_SIZE,
            AtStatus::Unspecified => K_AUDIO_CONVERTER_ERR_UNSPECIFIED,
            AtStatus::BadPropertySize => K_AUDIO_CONVERTER_ERR_BAD_PROPERTY_SIZE,
            AtStatus::RequiresPacketDescriptions => K_AUDIO_CONVERTER_ERR_REQUIRES_PACKET_DESCRIPTIONS,
            AtStatus::InputSampleRateOutOfRange => K_AUDIO_CONVERTER_ERR_INPUT_SAMPLE_RATE_OUT_OF_RANGE,
            AtStatus::OutputSampleRateOutOfRange => K_AUDIO_CONVERTER_ERR_OUTPUT_SAMPLE_RATE_OUT_OF_RANGE,
            AtStatus::HardwareInUse => K_AUDIO_CONVERTER_ERR_HARDWARE_IN_USE,
            AtStatus::NoHardwarePermission => K_AUDIO_CONVERTER_ERR_NO_HARDWARE_PERMISSION,
            AtStatus::UnknownProperty => K_AUDIO_CODEC_UNKNOWN_PROPERTY,
            AtStatus::IllegalOperation => K_AUDIO_CODEC_ILLEGAL_OPERATION,
            AtStatus::UnsupportedFormat => K_AUDIO_CODEC_UNSUPPORTED_FORMAT,
            AtStatus::StateError => K_AUDIO_CODEC_STATE_ERROR,
            AtStatus::NotEnoughBufferSpace => K_AUDIO_CODEC_NOT_ENOUGH_BUFFER_SPACE,
            AtStatus::BadData => K_AUDIO_CODEC_BAD_DATA,
            AtStatus::UnknownFormat => K_AUDIO_FORMAT_UNKNOWN_FORMAT,
            AtStatus::BadSpecifierSize => K_AUDIO_FORMAT_BAD_SPECIFIER_SIZE,
            AtStatus::BadFilePath => K_AUDIO_BAD_FILE_PATH,
            AtStatus::Unimplemented => K_AUDIO_UNIMPLEMENTED,
            AtStatus::FileNotFound => K_AUDIO_FILE_NOT_FOUND,
            AtStatus::FilePermission => K_AUDIO_FILE_PERMISSION,
            AtStatus::TooManyFilesOpen => K_AUDIO_TOO_MANY_FILES_OPEN,
            AtStatus::ParamError => K_AUDIO_PARAM_ERROR,
            AtStatus::MemFull => K_AUDIO_MEM_FULL,
            AtStatus::Unknown(raw) => raw,
        }
    }

    /// The name of the platform constant, where there is one.
    pub open spec fn platform_name(self) -> Option<Seq<char>> {
        match self {
            AtStatus::NoError => Some("noErr"@),
            AtStatus::FormatNotSupported => Some("kAudioConverterErr_FormatNotSupported"@),
            AtStatus::OperationNotSupported => Some("kAudioConverterErr_OperationNotSupported"@),
            AtStatus::PropertyNotSupported => Some("kAudioConverterErr_PropertyNotSupported"@),
            AtStatus::InvalidInputSize => Some("kAudioConverterErr_InvalidInputSize"@),
            AtStatus::InvalidOutputSize => Some("kAudioConverterErr_InvalidOutputSize"@),
            AtStatus::Unspecified => Some("kAudioConverterErr_UnspecifiedError"@),
            AtStatus::BadPropertySize => Some("kAudioConverterErr_BadPropertySizeError"@),
            AtStatus::RequiresPacketDescriptions => Some("kAudioConverterErr_RequiresPacketDescriptionsError"@),
            AtStatus::InputSampleRateOutOfRange => Some("kAudioConverterErr_InputSampleRateOutOfRange"@),
            AtStatus::OutputSampleRateOutOfRange => Some("kAudioConverterErr_OutputSampleRateOutOfRange"@),
            AtStatus::HardwareInUse => Some("kAudioConverterErr_HardwareInUse"@),
            AtStatus::NoHardwarePermission => Some("kAudioConverterErr_NoHardwarePermission"@),
            AtStatus::UnknownProperty => Some("kAudioCodecUnknownPropertyError"@),
            AtStatus::IllegalOperation => Some("kAudioCodecIllegalOperationError"@),
            AtStatus::UnsupportedFormat => Some("kAudioCodecUnsupportedFormatError"@),
            AtStatus::StateError => Some("kAudioCodecStateError"@),
            AtStatus::NotEnoughBufferSpace => Some("kAudioCodecNotEnoughBufferSpaceError"@),
            AtStatus::BadData => Some("kAudioCodecBadDataError"@),
            AtStatus::UnknownFormat => Some("kAudioFormatUnknownFormatError"@),
            AtStatus::BadSpecifierSize => Some("kAudioFormatBadSpecifierSizeError"@),
            AtStatus::BadFilePath => Some("kAudio_BadFilePathError"@),
            AtStatus::Unimplemented => Some("kAudio_UnimplementedError"@),
            AtStatus::FileNotFound => Some("kAudio_FileNotFoundError"@),
            AtStatus::FilePermission => Some("kAudio_FilePermissionError"@),
            AtStatus::TooManyFilesOpen => Some("kAudio_TooManyFilesOpenError"@),
            AtStatus::ParamError => Some("kAudio_ParamError"@),
            AtStatus::MemFull => Some("kAudio_MemFullError"@),
            AtStatus::Unknown(_) => None,
        }
    }

    /// The class of the status.
    pub open spec fn class(self) -> StatusKind {
        match self {
            AtStatus::NoError => StatusKind::NoError,
            AtStatus::FormatNotSupported => StatusKind::Unsupported,
            AtStatus::OperationNotSupported => StatusKind::Unsupported,
            AtStatus::PropertyNotSupported => StatusKind::Unsupported,
            AtStatus::InvalidInputSize => StatusKind::Usage,
            AtStatus::InvalidOutputSize => StatusKind::Usage,
            AtStatus::Unspecified => StatusKind::Other,
            AtStatus::BadPropertySize => StatusKind::Usage,
            AtStatus::RequiresPacketDescriptions => StatusKind::Usage,
            AtStatus::InputSampleRateOutOfRange => StatusKind::Unsupported,
            AtStatus::OutputSampleRateOutOfRange => StatusKind::Unsupported,
            AtStatus::HardwareInUse => StatusKind::ResourceExhausted,
            AtStatus::NoHardwarePermission => StatusKind::Unsupported,
            AtStatus::UnknownProperty => StatusKind::Unsupported,
            AtStatus::IllegalOperation => StatusKind::Usage,
            AtStatus::UnsupportedFormat => StatusKind::Unsupported,
            AtStatus::StateError => StatusKind::Usage,
            AtStatus::NotEnoughBufferSpace => StatusKind::ResourceExhausted,
            AtStatus::BadData => StatusKind::InvalidData,
            AtStatus::UnknownFormat => StatusKind::Unsupported,
            AtStatus::BadSpecifierSize => StatusKind::Usage,
            AtStatus::BadFilePath => StatusKind::Usage,
            AtStatus::Unimplemented => StatusKind::Unsupported,
            AtStatus::FileNotFound => StatusKind::Usage,
            AtStatus::FilePermission => StatusKind::Usage,
            AtStatus::TooManyFilesOpen => StatusKind::Usage,
            AtStatus::ParamError => StatusKind::Usage,
            AtStatus::MemFull => StatusKind::ResourceExhausted,
            AtStatus::Unknown(_) => StatusKind::Other,
        }
    }

    /// The text of the status: the platform name, or `OSStatus`; the four
    /// characters of the number, where all four can be printed; the number.
    pub open spec fn text(self) -> Seq<char> {
        let raw = self.raw();
        match self.platform_name() {
            Some(name) => if is_printable(raw) {
                name + " ('"@ + tag(raw) + "' / "@ + signed_decimal(raw as int) + ")"@
            } else {
                name + " ("@ + signed_decimal(raw as int) + ")"@
            },
            None => if is_printable(raw) {
                "OSStatus '"@ + tag(raw) + "' ("@ + signed_decimal(raw as int) + ")"@
            } else {
                "OSStatus "@ + signed_decimal(raw as int)
            },
        }
    }

    /// Classify a raw status.
    pub fn from_raw(raw: OSStatus) -> (status: AtStatus)
        ensures
            status == classify(raw),
            status.raw() == raw,
    {
        match raw {
            NO_ERR => AtStatus::NoError,
            K_AUDIO_CONVERTER_ERR_FORMAT_NOT_SUPPORTED => AtStatus::FormatNotSupported,
            K_AUDIO_CONVERTER_ERR_OPERATION_NOT_SUPPORTED => AtStatus::OperationNotSupported,
            K_AUDIO_CONVERTER_ERR_PROPERTY_NOT_SUPPORTED => AtStatus::PropertyNotSupported,
            K_AUDIO_CONVERTER_ERR_INVALID_INPUT_SIZE => AtStatus::InvalidInputSize,
            K_AUDIO_CONVERTER_ERR_INVALID_OUTPUT_SIZE => AtStatus::InvalidOutputSize,
            K_AUDIO_CONVERTER_ERR_UNSPECIFIED => AtStatus::Unspecified,
            K_AUDIO_CONVERTER_ERR_BAD_PROPERTY_SIZE => AtStatus::BadPropertySize,
            K_AUDIO_CONVERTER_ERR_REQUIRES_PACKET_DESCRIPTIONS => AtStatus::RequiresPacketDescriptions,
            K_AUDIO_CONVERTER_ERR_INPUT_SAMPLE_RATE_OUT_OF_RANGE => AtStatus::InputSampleRateOutOfRange,
            K_AUDIO_CONVERTER_ERR_OUTPUT_SAMPLE_RATE_OUT_OF_RANGE => AtStatus::OutputSampleRateOutOfRange,
            K_AUDIO_CONVERTER_ERR_HARDWARE_IN_USE => AtStatus::HardwareInUse,
            K_AUDIO_CONVERTER_ERR_NO_HARDWARE_PERMISSION => AtStatus::NoHardwarePermission,
            K_AUDIO_CODEC_UNKNOWN_PROPERTY => AtStatus::UnknownProperty,
            K_AUDIO_CODEC_ILLEGAL_OPERATION => AtStatus::IllegalOperation,
            K_AUDIO_CODEC_UNSUPPORTED_FORMAT => AtStatus::UnsupportedFormat,
            K_AUDIO_CODEC_STATE_ERROR => AtStatus::StateError,
            K_AUDIO_CODEC_NOT_ENOUGH_BUFFER_SPACE => AtStatus::NotEnoughBufferSpace,
            K_AUDIO_CODEC_BAD_DATA => AtStatus::BadData,
            K_AUDIO_FORMAT_UNKNOWN_FORMAT => AtStatus::UnknownFormat,
            K_AUDIO_FORMAT_BAD_SPECIFIER_SIZE => AtStatus::BadSpecifierSize,
            K_AUDIO_BAD_FILE_PATH => AtStatus::BadFilePath,
            K_AUDIO_UNIMPLEMENTED => AtStatus::Unimplemented,
            K_AUDIO_FILE_NOT_FOUND => AtStatus::FileNotFound,
            K_AUDIO_FILE_PERMISSION => AtStatus::FilePermission,
            K_AUDIO_TOO_MANY_FILES_OPEN => AtStatus::TooManyFilesOpen,
            K_AUDIO_PARAM_ERROR => AtStatus::ParamError,
            K_AUDIO_MEM_FULL => AtStatus::MemFull,
            other => AtStatus::Unknown(other),
        }
    }

    /// The raw status.
    pub fn as_raw(self) -> (raw: OSStatus)
        ensures
            raw == self.raw(),
    {
        match self {
            AtStatus::NoError => NO_ERR,
            AtStatus::FormatNotSupported => K_AUDIO_CONVERTER_ERR_FORMAT_NOT_SUPPORTED,
            AtStatus::OperationNotSupported => K_AUDIO_CONVERTER_ERR_OPERATION_NOT_SUPPORTED,
            AtStatus::PropertyNotSupported => K_AUDIO_CONVERTER_ERR_PROPERTY_NOT_SUPPORTED,
            AtStatus::InvalidInputSize => K_AUDIO_CONVERTER_ERR_INVALID_INPUT_SIZE,
            AtStatus::InvalidOutputSize => K_AUDIO_CONVERTER_ERR_INVALID_OUTPUT_SIZE,
            AtStatus::Unspecified => K_AUDIO_CONVERTER_ERR_UNSPECIFIED,
            AtStatus::BadPropertySize => K_AUDIO_CONVERTER_ERR_BAD_PROPERTY_SIZE,
            AtStatus::RequiresPacketDescriptions => K_AUDIO_CONVERTER_ERR_REQUIRES_PACKET_DESCRIPTIONS,
            AtStatus::InputSampleRateOutOfRange => K_AUDIO_CONVERTER_ERR_INPUT_SAMPLE_RATE_OUT_OF_RANGE,
            AtStatus::OutputSampleRateOutOfRange => K_AUDIO_CONVERTER_ERR_OUTPUT_SAMPLE_RATE_OUT_OF_RANGE,
            AtStatus::HardwareInUse => K_AUDIO_CONVERTER_ERR_HARDWARE_IN_USE,
            AtStatus::NoHardwarePermission => K_AUDIO_CONVERTER_ERR_NO_HARDWARE_PERMISSION,
            AtStatus::UnknownProperty => K_AUDIO_CODEC_UNKNOWN_PROPERTY,
            AtStatus::IllegalOperation => K_AUDIO_CODEC_ILLEGAL_OPERATION,
            AtStatus::UnsupportedFormat => K_AUDIO_CODEC_UNSUPPORTED_FORMAT,
            AtStatus::StateError => K_AUDIO_CODEC_STATE_ERROR,
            AtStatus::NotEnoughBufferSpace => K_AUDIO_CODEC_NOT_ENOUGH_BUFFER_SPACE,
            AtStatus::BadData => K_AUDIO_CODEC_BAD_DATA,
            AtStatus::UnknownFormat => K_AUDIO_FORMAT_UNKNOWN_FORMAT,
            AtStatus::BadSpecifierSize => K_AUDIO_FORMAT_BAD_SPECIFIER_SIZE,
            AtStatus::BadFilePath => K_AUDIO_BAD_FILE_PATH,
            AtStatus::Unimplemented => K_AUDIO_UNIMPLEMENTED,
            AtStatus::FileNotFound => K_AUDIO_FILE_NOT_FOUND,
            AtStatus::FilePermission => K_AUDIO_FILE_PERMISSION,
            AtStatus::TooManyFilesOpen => K_AUDIO_TOO_MANY_FILES_OPEN,
            AtStatus::ParamError => K_AUDIO_PARAM_ERROR,
            AtStatus::MemFull => K_AUDIO_MEM_FULL,
            AtStatus::Unknown(raw) => raw,
        }
    }

    /// The name of the platform constant, or `None` for an unknown value.
    pub fn name(self) -> (name: Option<&'static str>)
        ensures
            match name {
                Some(s) => self.platform_name() == Some(s@),
                None => self.platform_name() is None,
            },
    {
        match self {
            AtStatus::NoError => Some("noErr"),
            AtStatus::FormatNotSupported => Some("kAudioConverterErr_FormatNotSupported"),
            AtStatus::OperationNotSupported => Some("kAudioConverterErr_OperationNotSupported"),
            AtStatus::PropertyNotSupported => Some("kAudioConverterErr_PropertyNotSupported"),
            AtStatus::InvalidInputSize => Some("kAudioConverterErr_InvalidInputSize"),
            AtStatus::InvalidOutputSize => Some("kAudioConverterErr_InvalidOutputSize"),
            AtStatus::Unspecified => Some("kAudioConverterErr_UnspecifiedError"),
            AtStatus::BadPropertySize => Some("kAudioConverterErr_BadPropertySizeError"),
            AtStatus::RequiresPacketDescriptions => Some("kAudioConverterErr_RequiresPacketDescriptionsError"),
            AtStatus::InputSampleRateOutOfRange => Some("kAudioConverterErr_InputSampleRateOutOfRange"),
            AtStatus::OutputSampleRateOutOfRange => Some("kAudioConverterErr_OutputSampleRateOutOfRange"),
            AtStatus::HardwareInUse => Some("kAudioConverterErr_HardwareInUse"),
            AtStatus::NoHardwarePermission => Some("kAudioConverterErr_NoHardwarePermission"),
            AtStatus::UnknownProperty => Some("kAudioCodecUnknownPropertyError"),
            AtStatus::IllegalOperation => Some("kAudioCodecIllegalOperationError"),
            AtStatus::UnsupportedFormat => Some("kAudioCodecUnsupportedFormatError"),
            AtStatus::StateError => Some("kAudioCodecStateError"),
            AtStatus::NotEnoughBufferSpace => Some("kAudioCodecNotEnoughBufferSpaceError"),
            AtStatus::BadData => Some("kAudioCodecBadDataError"),
            AtStatus::UnknownFormat => Some("kAudioFormatUnknownFormatError"),
            AtStatus::BadSpecifierSize => Some("kAudioFormatBadSpecifierSizeError"),
            AtStatus::BadFilePath => Some("kAudio_BadFilePathError"),
            AtStatus::Unimplemented => Some("kAudio_UnimplementedError"),
            AtStatus::FileNotFound => Some("kAudio_FileNotFoundError"),
            AtStatus::FilePermission => Some("kAudio_FilePermissionError"),
            AtStatus::TooManyFilesOpen => Some("kAudio_TooManyFilesOpenError"),
            AtStatus::ParamError => Some("kAudio_ParamError"),
            AtStatus::MemFull => Some("kAudio_MemFullError"),
            AtStatus::Unknown(_) => None,
        }
    }

    /// The class of the status.
    pub fn kind(self) -> (kind: StatusKind)
        ensures
            kind == self.class(),
    {
        match self {
            AtStatus::NoError => StatusKind::NoError,
            AtStatus::FormatNotSupported => StatusKind::Unsupported,
            AtStatus::OperationNotSupported => StatusKind::Unsupported,
            AtStatus::PropertyNotSupported => StatusKind::Unsupported,
            AtStatus::InvalidInputSize => StatusKind::Usage,
            AtStatus::InvalidOutputSize => StatusKind::Usage,
            AtStatus::Unspecified => StatusKind::Other,
            AtStatus::BadPropertySize => StatusKind::Usage,
            AtStatus::RequiresPacketDescriptions => StatusKind::Usage,
            AtStatus::InputSampleRateOutOfRange => StatusKind::Unsupported,
            AtStatus::OutputSampleRateOutOfRange => StatusKind::Unsupported,
            AtStatus::HardwareInUse => StatusKind::ResourceExhausted,
            AtStatus::NoHardwarePermission => StatusKind::Unsupported,
            AtStatus::UnknownProperty => StatusKind::Unsupported,
            AtStatus::IllegalOperation => StatusKind::Usage,
            AtStatus::UnsupportedFormat => StatusKind::Unsupported,
            AtStatus::StateError => StatusKind::Usage,
            AtStatus::NotEnoughBufferSpace => StatusKind::ResourceExhausted,
            AtStatus::BadData => StatusKind::InvalidData,
            AtStatus::UnknownFormat => StatusKind::Unsupported,
            AtStatus::BadSpecifierSize => StatusKind::Usage,
            AtStatus::BadFilePath => StatusKind::Usage,
            AtStatus::Unimplemented => StatusKind::Unsupported,
            AtStatus::FileNotFound => StatusKind::Usage,
            AtStatus::FilePermission => StatusKind::Usage,
            AtStatus::TooManyFilesOpen => StatusKind::Usage,
            AtStatus::ParamError => StatusKind::Usage,
            AtStatus::MemFull => StatusKind::ResourceExhausted,
            AtStatus::Unknown(_) => StatusKind::Other,
        }
    }

    /// Whether the call succeeded.
    pub fn is_ok(self) -> (ok: bool)
        ensures
            ok == (self is NoError),
    {
        match self {
            AtStatus::NoError => true,
            _ => false,
        }
    }

    /// The text of the status, for diagnostics.
    pub fn to_string(&self) -> (text: String)
        ensures
            text@ == self.text(),
    {
        let raw: OSStatus = self.as_raw();
        let printable = printable_status(raw);
        let mut text = String::new();
        match self.name() {
            Some(name) => {
                text.append(name);
                if printable {
                    text.append(" ('");
                    push_tag(&mut text, raw);
                    text.append("' / ");
                } else {
                    text.append(" (");
                }
                push_signed(&mut text, raw);
                text.append(")");
            },
            None => {
                if printable {
                    text.append("OSStatus '");
                    push_tag(&mut text, raw);
                    text.append("' (");
                    push_signed(&mut text, raw);
                    text.append(")");
                } else {
                    text.append("OSStatus ");
                    push_signed(&mut text, raw);
                }
            },
        }
        text
    }
}

/// Byte `i` of the big-endian form of a non-negative status.
pub open spec fn status_byte(raw: OSStatus, i: int) -> int {
    if i == 0 {
        raw as int / 0x100_0000
    } else if i == 1 {
        raw as int / 0x1_0000 % 256
    } else if i == 2 {
        raw as int / 256 % 256
    } else {
        raw as int % 256
    }
}

/// A printable ASCII character or a space.
pub open spec fn is_printable_byte(b: int) -> bool {
    0x20 <= b <= 0x7E
}

/// The status is positive and its four bytes can all be printed.
pub open spec fn is_printable(raw: OSStatus) -> bool {
    raw > 0 && forall|i: int| 0 <= i < 4 ==> is_printable_byte(#[trigger] status_byte(raw, i))
}

/// The four characters of a printable status.
pub open spec fn tag(raw: OSStatus) -> Seq<char> {
    Seq::new(4, |i: int| status_byte(raw, i) as char)
}

/// The number that four ASCII characters make, most significant first.
pub open spec fn fourcc_value(a: char, b: char, c: char, d: char) -> int {
    (a as int) * 0x100_0000 + (b as int) * 0x1_0000 + (c as int) * 256 + d as int
}

fn printable_byte(b: i32) -> (yes: bool)
    ensures
        yes == is_printable_byte(b as int),
{
    0x20 <= b && b <= 0x7E
}

fn printable_status(raw: OSStatus) -> (yes: bool)
    ensures
        yes == is_printable(raw),
{
    if raw <= 0 {
        return false;
    }
    let yes = printable_byte(raw / 0x100_0000) && printable_byte(raw / 0x1_0000 % 256)
        && printable_byte(raw / 256 % 256) && printable_byte(raw % 256);
    proof {
        assert(is_printable_byte(status_byte(raw, 0)) == is_printable_byte(
            raw as int / 0x100_0000,
        ));
        assert(is_printable_byte(status_byte(raw, 1)) == is_printable_byte(
            raw as int / 0x1_0000 % 256,
        ));
        assert(is_printable_byte(status_byte(raw, 2)) == is_printable_byte(
            raw as int / 256 % 256,
        ));
        assert(is_printable_byte(status_byte(raw, 3)) == is_printable_byte(raw as int % 256));
    }
    yes
}

fn push_tag(text: &mut String, raw: OSStatus)
    requires
        is_printable(raw),
    ensures
        final(text)@ == old(text)@ + tag(raw),
{
    proof {
        assert(is_printable_byte(status_byte(raw, 0)));
        assert(is_printable_byte(status_byte(raw, 1)));
        assert(is_printable_byte(status_byte(raw, 2)));
        assert(is_printable_byte(status_byte(raw, 3)));
    }
    push_char(text, (raw / 0x100_0000) as u8);
    push_char(text, (raw / 0x1_0000 % 256) as u8);
    push_char(text, (raw / 256 % 256) as u8);
    push_char(text, (raw % 256) as u8);
    assert(text@ =~= old(text)@ + tag(raw));
}

/// A failed bridge operation.
#[derive(Clone, Debug, PartialEq, Eq)]
pub enum AtError {
    /// The framework could not be loaded; carries the loader's message.
    FrameworkUnavailable(String),
    /// A named call failed with a status.
    Os {
        /// The call that failed, such as `"AudioConverterNew"`.
        op: &'static str,
        /// What it returned.
        status: AtStatus,
    },
}

/// An [`AtError`] with its texts as sequences of characters.
#[verifier::ext_equal]
pub enum AtErrorView {
    FrameworkUnavailable(Seq<char>),
    Os { op: Seq<char>, status: AtStatus },
}

impl View for AtError {
    type V = AtErrorView;

    open spec fn view(&self) -> AtErrorView {
        match self {
            AtError::FrameworkUnavailable(m) => AtErrorView::FrameworkUnavailable(m@),
            AtError::Os { op, status } => AtErrorView::Os { op: op@, status: *status },
        }
    }
}

impl AtErrorView {
    /// The text of the failure.
    pub open spec fn text(self) -> Seq<char> {
        match self {
            AtErrorView::FrameworkUnavailable(m) => "AudioToolbox unavailable: "@ + m,
            AtErrorView::Os { op, status } => op + " failed: "@ + status.text(),
        }
    }
}

impl AtError {
    /// The status of a failed call, `None` where the framework is missing.
    pub fn status(&self) -> (status: Option<AtStatus>)
        ensures
            status == match self@ {
                AtErrorView::FrameworkUnavailable(_) => None,
                AtErrorView::Os { op, status } => Some(status),
            },
    {
        match self {
            AtError::FrameworkUnavailable(_) => None,
            AtError::Os { op, status } => Some(*status),
        }
    }

    /// The text of the failure.
    pub fn to_string(&self) -> (text: String)
        ensures
            text@ == self@.text(),
    {
        match self {
            AtError::FrameworkUnavailable(m) => "AudioToolbox unavailable: ".to_owned().concat(
                m.as_str(),
            ),
            AtError::Os { op, status } => (*op).to_owned().concat(" failed: ").concat(
                status.to_string().as_str(),
            ),
        }
    }

    /// The codec error for this failure: a missing framework is unsupported, a
    /// failed call goes by the class of its status.
    pub fn into_error(self) -> (e: Error)
        ensures
            e@ == match self@ {
                AtErrorView::FrameworkUnavailable(_) => ErrorView::Unsupported(self@.text()),
                AtErrorView::Os { op, status } => status_failure(op, status.raw()),
            },
    {
        match self {
            AtError::FrameworkUnavailable(_) => Error::unsupported(self.to_string().as_str()),
            AtError::Os { op, status } => status_error(op, status.as_raw()),
        }
    }
}

/// The error for the call `op` that returned `raw`.
pub open spec fn status_failure(op: Seq<char>, raw: OSStatus) -> ErrorView {
    let status = classify(raw);
    let text = op + " failed: "@ + status.text();
    match status.class() {
        StatusKind::Unsupported => ErrorView::Unsupported(text),
        StatusKind::InvalidData => ErrorView::InvalidData(text),
        StatusKind::ResourceExhausted => ErrorView::ResourceExhausted(text),
        StatusKind::NoError | StatusKind::Usage | StatusKind::Other => ErrorView::Other(text),
    }
}

/// The error for a call that failed with the status `raw`.
pub fn status_error(op: &str, raw: OSStatus) -> (e: Error)
    ensures
        e@ == status_failure(op@, raw),
{
    let status = AtStatus::from_raw(raw);
    let text = op.to_owned().concat(" failed: ").concat(status.to_string().as_str());
    match status.kind() {
        StatusKind::Unsupported => Error::Unsupported(text),
        StatusKind::InvalidData => Error::InvalidData(text),
        StatusKind::ResourceExhausted => Error::ResourceExhausted(text),
        StatusKind::NoError | StatusKind::Usage | StatusKind::Other => Error::Other(text),
    }
}

/// The status `raw` of the call `op`, as success or failure.
pub fn check(op: &'static str, raw: OSStatus) -> (r: Result<(), AtError>)
    ensures
        r is Ok <==> raw == NO_ERR,
        r matches Err(e) ==> e@ == (AtErrorView::Os { op: op@, status: classify(raw) }),
{
    if raw == NO_ERR {
        Ok(())
    } else {
        Err(AtError::Os { op, status: AtStatus::from_raw(raw) })
    }
}

/// A failure is what the class of its status makes of it: a rejected format is
/// unsupported, so that another implementation can be tried, and no failed call looks
/// like the end of a stream or a need for input.
pub proof fn failures_follow_their_class(op: Seq<char>, raw: OSStatus)
    ensures
        status_failure(op, raw) is Unsupported <==> classify(raw).class() is Unsupported,
        status_failure(op, raw) is InvalidData <==> classify(raw).class() is InvalidData,
        status_failure(op, raw) is ResourceExhausted <==> classify(
            raw,
        ).class() is ResourceExhausted,
        !(status_failure(op, raw) is Eof || status_failure(op, raw) is NeedMore),
        classify(raw) is FormatNotSupported ==> status_failure(op, raw) is Unsupported,
{
}

/// Classifying a raw status loses nothing: its number comes back, whatever it is.
pub proof fn classification_round_trips(raw: OSStatus)
    ensures
        classify(raw).raw() == raw,
{
}

/// Two raw statuses with one classification are one and the same.
pub proof fn classification_is_injective(a: OSStatus, b: OSStatus)
    requires
        classify(a) == classify(b),
    ensures
        a == b,
{
    classification_round_trips(a);
    classification_round_trips(b);
}

/// Each named status is the classification of its own number: no two of them
/// share one.
pub proof fn named_statuses_classify_to_themselves(status: AtStatus)
    requires
        status !is Unknown,
    ensures
        classify(status.raw()) == status,
{
}

/// Only the number zero reports success.
pub proof fn only_zero_is_ok(raw: OSStatus)
    ensures
        classify(raw) is NoError <==> raw == NO_ERR,
        classify(raw).class() is NoError <==> raw == NO_ERR,
{
}

/// Each packed code is the number that its four characters make.
pub proof fn packed_codes()
    ensures
        K_AUDIO_CONVERTER_ERR_FORMAT_NOT_SUPPORTED == fourcc_value('f', 'm', 't', '?'),
        K_AUDIO_CONVERTER_ERR_OPERATION_NOT_SUPPORTED == fourcc_value('o', 'p', '?', '?'),
        K_AUDIO_CONVERTER_ERR_PROPERTY_NOT_SUPPORTED == fourcc_value('p', 'r', 'o', 'p'),
        K_AUDIO_CONVERTER_ERR_INVALID_INPUT_SIZE == fourcc_value('i', 'n', 's', 'z'),
        K_AUDIO_CONVERTER_ERR_INVALID_OUTPUT_SIZE == fourcc_value('o', 't', 's', 'z'),
        K_AUDIO_CONVERTER_ERR_UNSPECIFIED == fourcc_value('w', 'h', 'a', 't'),
        K_AUDIO_CONVERTER_ERR_BAD_PROPERTY_SIZE == fourcc_value('!', 's', 'i', 'z'),
        K_AUDIO_CONVERTER_ERR_REQUIRES_PACKET_DESCRIPTIONS == fourcc_value('!', 'p', 'k', 'd'),
        K_AUDIO_CONVERTER_ERR_INPUT_SAMPLE_RATE_OUT_OF_RANGE == fourcc_value('!', 'i', 's', 'r'),
        K_AUDIO_CONVERTER_ERR_OUTPUT_SAMPLE_RATE_OUT_OF_RANGE == fourcc_value('!', 'o', 's', 'r'),
        K_AUDIO_CONVERTER_ERR_HARDWARE_IN_USE == fourcc_value('h', 'w', 'i', 'u'),
        K_AUDIO_CONVERTER_ERR_NO_HARDWARE_PERMISSION == fourcc_value('p', 'e', 'r', 'm'),
        K_AUDIO_CODEC_UNKNOWN_PROPERTY == fourcc_value('w', 'h', 'o', '?'),
        K_AUDIO_CODEC_ILLEGAL_OPERATION == fourcc_value('n', 'o', 'p', 'e'),
        K_AUDIO_CODEC_UNSUPPORTED_FORMAT == fourcc_value('!', 'd', 'a', 't'),
        K_AUDIO_CODEC_STATE_ERROR == fourcc_value('!', 's', 't', 't'),
        K_AUDIO_CODEC_NOT_ENOUGH_BUFFER_SPACE == fourcc_value('!', 'b', 'u', 'f'),
        K_AUDIO_CODEC_BAD_DATA == fourcc_value('b', 'a', 'd', 'a'),
        K_AUDIO_FORMAT_UNKNOWN_FORMAT == fourcc_value('!', 'f', 'm', 't'),
        K_AUDIO_FORMAT_BAD_SPECIFIER_SIZE == fourcc_value('!', 's', 'p', 'c'),
        K_AUDIO_BAD_FILE_PATH == fourcc_value('!', 'p', 't', 'h'),
{
}

/// The number of each status: the four characters that name it, or the small negative
/// number of the system.
pub proof fn statuses_have_their_numbers(status: AtStatus)
    ensures
        status is NoError ==> status.raw() == 0,
        status is FormatNotSupported ==> status.raw() == fourcc_value('f', 'm', 't', '?'),
        status is OperationNotSupported ==> status.raw() == fourcc_value('o', 'p', '?', '?'),
        status is PropertyNotSupported ==> status.raw() == fourcc_value('p', 'r', 'o', 'p'),
        status is InvalidInputSize ==> status.raw() == fourcc_value('i', 'n', 's', 'z'),
        status is InvalidOutputSize ==> status.raw() == fourcc_value('o', 't', 's', 'z'),
        status is Unspecified ==> status.raw() == fourcc_value('w', 'h', 'a', 't'),
        status is BadPropertySize ==> status.raw() == fourcc_value('!', 's', 'i', 'z'),
        status is RequiresPacketDescriptions ==> status.raw() == fourcc_value('!', 'p', 'k', 'd'),
        status is InputSampleRateOutOfRange ==> status.raw() == fourcc_value('!', 'i', 's', 'r'),
        status is OutputSampleRateOutOfRange ==> status.raw() == fourcc_value('!', 'o', 's', 'r'),
        status is HardwareInUse ==> status.raw() == fourcc_value('h', 'w', 'i', 'u'),
        status is NoHardwarePermission ==> status.raw() == fourcc_value('p', 'e', 'r', 'm'),
        status is UnknownProperty ==> status.raw() == fourcc_value('w', 'h', 'o', '?'),
        status is IllegalOperation ==> status.raw() == fourcc_value('n', 'o', 'p', 'e'),
        status is UnsupportedFormat ==> status.raw() == fourcc_value('!', 'd', 'a', 't'),
        status is StateError ==> status.raw() == fourcc_value('!', 's', 't', 't'),
        status is NotEnoughBufferSpace ==> status.raw() == fourcc_value('!', 'b', 'u', 'f'),
        status is BadData ==> status.raw() == fourcc_value('b', 'a', 'd', 'a'),
        status is UnknownFormat ==> status.raw() == fourcc_value('!', 'f', 'm', 't'),
        status is BadSpecifierSize ==> status.raw() == fourcc_value('!', 's', 'p', 'c'),
        status is BadFilePath ==> status.raw() == fourcc_value('!', 'p', 't', 'h'),
        status is Unimplemented ==> status.raw() == -4,
        status is FileNotFound ==> status.raw() == -43,
        status is FilePermission ==> status.raw() == -54,
        status is TooManyFilesOpen ==> status.raw() == -42,
        status is ParamError ==> status.raw() == -50,
        status is MemFull ==> status.raw() == -108,
{
}

/// The constant of the platform that each status is named by; only a status without a
/// documented meaning has no name.
pub proof fn statuses_have_their_names(status: AtStatus)
    ensures
        status.platform_name() is None <==> status is Unknown,
        status is NoError ==> status.platform_name() == Some("noErr"@),
        status is FormatNotSupported ==> status.platform_name() == Some("kAudioConverterErr_FormatNotSupported"@),
        status is OperationNotSupported ==> status.platform_name() == Some("kAudioConverterErr_OperationNotSupported"@),
        status is PropertyNotSupported ==> status.platform_name() == Some("kAudioConverterErr_PropertyNotSupported"@),
        status is InvalidInputSize ==> status.platform_name() == Some("kAudioConverterErr_InvalidInputSize"@),
        status is InvalidOutputSize ==> status.platform_name() == Some("kAudioConverterErr_InvalidOutputSize"@),
        status is Unspecified ==> status.platform_name() == Some("kAudioConverterErr_UnspecifiedError"@),
        status is BadPropertySize ==> status.platform_name() == Some("kAudioConverterErr_BadPropertySizeError"@),
        status is RequiresPacketDescriptions ==> status.platform_name()
            == Some("kAudioConverterErr_RequiresPacketDescriptionsError"@),
        status is InputSampleRateOutOfRange ==> status.platform_name()
            == Some("kAudioConverterErr_InputSampleRateOutOfRange"@),
        status is OutputSampleRateOutOfRange ==> status.platform_name()
            == Some("kAudioConverterErr_OutputSampleRateOutOfRange"@),
        status is HardwareInUse ==> status.platform_name() == Some("kAudioConverterErr_HardwareInUse"@),
        status is NoHardwarePermission ==> status.platform_name() == Some("kAudioConverterErr_NoHardwarePermission"@),
        status is UnknownProperty ==> status.platform_name() == Some("kAudioCodecUnknownPropertyError"@),
        status is IllegalOperation ==> status.platform_name() == Some("kAudioCodecIllegalOperationError"@),
        status is UnsupportedFormat ==> status.platform_name() == Some("kAudioCodecUnsupportedFormatError"@),
        status is StateError ==> status.platform_name() == Some("kAudioCodecStateError"@),
        status is NotEnoughBufferSpace ==> status.platform_name() == Some("kAudioCodecNotEnoughBufferSpaceError"@),
        status is BadData ==> status.platform_name() == Some("kAudioCodecBadDataError"@),
        status is UnknownFormat ==> status.platform_name() == Some("kAudioFormatUnknownFormatError"@),
        status is BadSpecifierSize ==> status.platform_name() == Some("kAudioFormatBadSpecifierSizeError"@),
        status is BadFilePath ==> status.platform_name() == Some("kAudio_BadFilePathError"@),
        status is Unimplemented ==> status.platform_name() == Some("kAudio_UnimplementedError"@),
        status is FileNotFound ==> status.platform_name() == Some("kAudio_FileNotFoundError"@),
        status is FilePermission ==> status.platform_name() == Some("kAudio_FilePermissionError"@),
        status is TooManyFilesOpen ==> status.platform_name() == Some("kAudio_TooManyFilesOpenError"@),
        status is ParamError ==> status.platform_name() == Some("kAudio_ParamError"@),
        status is MemFull ==> status.platform_name() == Some("kAudio_MemFullError"@),
{
}

/// What a caller does about each status.
pub proof fn statuses_have_their_class(status: AtStatus)
    ensures
        status.class() is NoError <==> status is NoError,
        status.class() is Unsupported <==> status is FormatNotSupported
            || status is OperationNotSupported
            || status is PropertyNotSupported
            || status is InputSampleRateOutOfRange
            || status is OutputSampleRateOutOfRange
            || status is NoHardwarePermission
            || status is UnknownProperty
            || status is UnsupportedFormat
            || status is UnknownFormat
            || status is Unimplemented,
        status.class() is InvalidData <==> status is BadData,
        status.class() is ResourceExhausted <==> status is HardwareInUse
            || status is NotEnoughBufferSpace
            || status is MemFull,
        status.class() is Usage <==> status is InvalidInputSize
            || status is InvalidOutputSize
            || status is BadPropertySize
            || status is RequiresPacketDescriptions
            || status is IllegalOperation
            || status is StateError
            || status is BadSpecifierSize
            || status is BadFilePath
            || status is FileNotFound
            || status is FilePermission
            || status is TooManyFilesOpen
            || status is ParamError,
        status.class() is Other <==> status is Unspecified
            || status is Unknown,
{
}

/// How a status is told: by its name, or as a number of the system; with its four
/// characters in quotes where all four can be printed; and with its number last, in
/// brackets behind a name or characters.
pub proof fn statuses_tell_their_number(status: AtStatus)
    ensures
        ({
            let raw = status.raw();
            let shown = is_printable(raw);
            let number = signed_decimal(raw as int);
            match status.platform_name() {
                Some(name) => {
                    &&& shown ==> status.text() == name + " ('"@ + tag(raw) + "' / "@ + number + ")"@
                    &&& !shown ==> status.text() == name + " ("@ + number + ")"@
                },
                None => {
                    &&& shown ==> status.text() == "OSStatus '"@ + tag(raw) + "' ("@ + number
                        + ")"@
                    &&& !shown ==> status.text() == "OSStatus "@ + number
                },
            }
        }),
{
}

/// The four characters of a status are the bytes of its number from the highest to the
/// lowest; they are shown exactly if the number is positive and every one of them is
/// printable ASCII or a space.
pub proof fn tags_are_the_bytes_of_the_number(raw: OSStatus)
    ensures
        tag(raw).len() == 4,
        is_printable(raw) ==> {
            let t = tag(raw);
            &&& fourcc_value(t[0], t[1], t[2], t[3]) == raw
            &&& forall|i: int| 0 <= i < 4 ==> 32 <= #[trigger] t[i] as int && t[i] as int <= 126
        },
        raw > 0 ==> (is_printable(raw) <==> forall|i: int|
            0 <= i < 4 ==> 32 <= #[trigger] be32_bytes(raw as int)[i] <= 126),
        raw <= 0 ==> !is_printable(raw),
{
    if raw > 0 {
        let v = raw as int;
        let b = be32_bytes(v);
        lemma_status_digits(v);
        assert(b[0] == status_byte(raw, 0) && b[1] == status_byte(raw, 1) && b[2] == status_byte(
            raw,
            2,
        ) && b[3] == status_byte(raw, 3));
        if is_printable(raw) {
            assert(is_printable_byte(status_byte(raw, 0)) && is_printable_byte(status_byte(raw, 1))
                && is_printable_byte(status_byte(raw, 2)) && is_printable_byte(
                status_byte(raw, 3),
            ));
        }
        assert forall|i: int| 0 <= i < 4 implies b[i] == #[trigger] status_byte(raw, i) by {
        }
    }
}

#[verifier::spinoff_prover]
proof fn lemma_status_digits(v: int)
    requires
        0 <= v < 0x8000_0000,
    ensures
        v / 0x100_0000 % 256 == v / 0x100_0000,
        0 <= v / 0x100_0000 < 128,
        v / 0x100_0000 * 0x100_0000 + v / 0x1_0000 % 256 * 0x1_0000 + v / 256 % 256 * 256 + v % 256
            == v,
{
    assert(v / 256 == v / 0x1_0000 * 256 + v / 256 % 256);
    assert(v / 0x1_0000 == v / 0x100_0000 * 256 + v / 0x1_0000 % 256);
}

/// The number that four characters make counts each 256 times as much as the next.
pub proof fn characters_pack_into_numbers(a: char, b: char, c: char, d: char)
    ensures
        fourcc_value(a, b, c, d) == ((a as int * 256 + b as int) * 256 + c as int) * 256 + d as int,
{
}

/// A failed call is told by its name, the word failed and its status, and sorted by what
/// a caller does about the status.
pub proof fn failures_tell_call_and_status(op: Seq<char>, raw: OSStatus)
    ensures
        ({
            let e = status_failure(op, raw);
            let status = classify(raw);
            let text = op + " failed: "@ + status.text();
            &&& status.class() is Unsupported ==> e == ErrorView::Unsupported(text)
            &&& status.class() is InvalidData ==> e == ErrorView::InvalidData(text)
            &&& status.class() is ResourceExhausted ==> e == ErrorView::ResourceExhausted(text)
            &&& status.class() is Usage || status.class() is Other || status.class() is NoError
                ==> e == ErrorView::Other(text)
        }),
{
}

/// A bridge failure keeps its message, or its call and its status, and tells them.
pub proof fn bridge_failures_tell_their_cause(e: AtError)
    ensures
        match e {
            AtError::FrameworkUnavailable(m) => {
                &&& e@ == AtErrorView::FrameworkUnavailable(m@)
                &&& e@.text() == "AudioToolbox unavailable: "@ + m@
            },
            AtError::Os { op, status } => {
                &&& e@ == (AtErrorView::Os { op: op@, status })
                &&& e@.text() == op@ + " failed: "@ + status.text()
            },
        },
{
}

} // verus!
