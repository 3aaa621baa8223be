//! CoreAudio constants and descriptors.
//!
//! Sample rates are whole numbers of hertz: every rate that the codecs accept or
//! report is one.

use vstd::prelude::*;

use crate::bytes::be32_bytes;
use crate::status::fourcc_value;
use crate::text::push_char;

verus! {

/// The status that a CoreAudio call returns.
pub type OSStatus = i32;

/// The status of a successful call.
pub const NO_ERR: OSStatus = 0;

/// `kAudioFormatLinearPCM` (`'lpcm'`).
pub const K_AUDIO_FORMAT_LINEAR_PCM: u32 = 0x6C70636D;

/// `kAudioFormatMPEG4AAC`: AAC LC (`'aac '`).
pub const K_AUDIO_FORMAT_MPEG4_AAC: u32 = 0x61616320;

/// `kAudioFormatMPEG4AAC_HE`: AAC LC with SBR (`'aach'`).
pub const K_AUDIO_FORMAT_MPEG4_AAC_HE: u32 = 0x61616368;

/// `kAudioFormatMPEG4AAC_HE_V2`: AAC LC with SBR and parametric stereo (`'aacp'`).
pub const K_AUDIO_FORMAT_MPEG4_AAC_HE_V2: u32 = 0x61616370;

/// `kAudioFormatMPEG4AAC_LD`: AAC Low Delay (`'aacl'`).
pub const K_AUDIO_FORMAT_MPEG4_AAC_LD: u32 = 0x6161636C;

/// `kAudioFormatMPEG4AAC_ELD`: AAC Enhanced Low Delay (`'aace'`).
pub const K_AUDIO_FORMAT_MPEG4_AAC_ELD: u32 = 0x61616365;

/// `kAudioFormatAppleLossless` (`'alac'`).
pub const K_AUDIO_FORMAT_APPLE_LOSSLESS: u32 = 0x616C6163;

/// `kAudioFormatiLBC` (`'ilbc'`).
pub const K_AUDIO_FORMAT_ILBC: u32 = 0x696C6263;

/// `kAudioFormatAMR`: AMR narrowband (`'samr'`).
pub const K_AUDIO_FORMAT_AMR: u32 = 0x73616D72;

/// `kAudioFormatAMR_WB`: AMR wideband (`'sawb'`).
pub const K_AUDIO_FORMAT_AMR_WB: u32 = 0x73617762;

/// `kAudioFormatMPEGLayer1` (`'.mp1'`).
pub const K_AUDIO_FORMAT_MPEG_LAYER_1: u32 = 0x2E6D7031;

/// `kAudioFormatMPEGLayer2` (`'.mp2'`).
pub const K_AUDIO_FORMAT_MPEG_LAYER_2: u32 = 0x2E6D7032;

/// `kAudioFormatMPEGLayer3` (`'.mp3'`).
pub const K_AUDIO_FORMAT_MPEG_LAYER_3: u32 = 0x2E6D7033;

/// `kAudioFormatFLAC` (`'flac'`).
pub const K_AUDIO_FORMAT_FLAC: u32 = 0x666C6163;

/// `kAudioFormatOpus` (`'opus'`).
pub const K_AUDIO_FORMAT_OPUS: u32 = 0x6F707573;

/// `kAudioFormatFlagIsFloat`.
pub const K_AF_FLAG_IS_FLOAT: u32 = 1;

/// `kAudioFormatFlagIsSignedInteger`.
pub const K_AF_FLAG_IS_SIGNED_INTEGER: u32 = 4;

/// `kAudioFormatFlagIsPacked`: samples fill every bit of the word.
pub const K_AF_FLAG_IS_PACKED: u32 = 8;

/// `kAudioFormatFlagIsNonInterleaved`.
pub const K_AF_FLAG_IS_NON_INTERLEAVED: u32 = 32;

/// The source PCM of a lossless stream has 16 bits.
pub const K_AF_APPLE_LOSSLESS_16_BIT: u32 = 1;

/// The source PCM of a lossless stream has 20 bits.
pub const K_AF_APPLE_LOSSLESS_20_BIT: u32 = 2;

/// The source PCM of a lossless stream has 24 bits.
pub const K_AF_APPLE_LOSSLESS_24_BIT: u32 = 3;

/// The source PCM of a lossless stream has 32 bits.
pub const K_AF_APPLE_LOSSLESS_32_BIT: u32 = 4;

/// `kAudioConverterEncodeBitRate` (`'brat'`).
pub const K_AUDIO_CONVERTER_ENCODE_BIT_RATE: u32 = 0x62726174;

/// `kAudioConverterPropertyMaximumOutputPacketSize` (`'xops'`).
pub const K_AUDIO_CONVERTER_MAX_OUTPUT_PACKET_SIZE: u32 = 0x786F7073;

/// `kAudioConverterCurrentInputStreamDescription` (`'acsd'`).
pub const K_AUDIO_CONVERTER_CURRENT_INPUT_SD: u32 = 0x61637364;

/// `kAudioConverterCurrentOutputStreamDescription` (`'acod'`).
pub const K_AUDIO_CONVERTER_CURRENT_OUTPUT_SD: u32 = 0x61636F64;

/// `kAudioConverterPrimeInfo` (`'prim'`).
pub const K_AUDIO_CONVERTER_PRIME_INFO: u32 = 0x7072696D;

/// `kAudioConverterApplicableEncodeBitRates` (`'aebr'`).
pub const K_AUDIO_CONVERTER_APPLICABLE_ENCODE_BIT_RATES: u32 = 0x61656272;

/// `kAudioConverterAvailableEncodeBitRates` (`'vebr'`).
pub const K_AUDIO_CONVERTER_AVAILABLE_ENCODE_BIT_RATES: u32 = 0x76656272;

/// `kAudioConverterApplicableEncodeSampleRates` (`'aesr'`).
pub const K_AUDIO_CONVERTER_APPLICABLE_ENCODE_SAMPLE_RATES: u32 = 0x61657372;

/// `kAudioConverterAvailableEncodeSampleRates` (`'vesr'`).
pub const K_AUDIO_CONVERTER_AVAILABLE_ENCODE_SAMPLE_RATES: u32 = 0x76657372;

/// `kAudioConverterDecompressionMagicCookie` (`'dmgc'`).
pub const K_AUDIO_CONVERTER_DECOMPRESSION_MAGIC_COOKIE: u32 = 0x646D6763;

/// `kAudioConverterCompressionMagicCookie` (`'cmgc'`).
pub const K_AUDIO_CONVERTER_COMPRESSION_MAGIC_COOKIE: u32 = 0x636D6763;

/// `kAudioFormatProperty_DecodeFormatIDs` (`'acif'`).
pub const K_AUDIO_FORMAT_PROPERTY_DECODE_FORMAT_IDS: u32 = 0x61636966;

/// `kAudioFormatProperty_EncodeFormatIDs` (`'acof'`).
pub const K_AUDIO_FORMAT_PROPERTY_ENCODE_FORMAT_IDS: u32 = 0x61636F66;

/// `kAudioFormatProperty_AvailableEncodeBitRates` (`'aebr'`).
pub const K_AUDIO_FORMAT_PROPERTY_AVAILABLE_ENCODE_BIT_RATES: u32 = 0x61656272;

/// `kAudioFormatProperty_AvailableEncodeSampleRates` (`'aesr'`).
pub const K_AUDIO_FORMAT_PROPERTY_AVAILABLE_ENCODE_SAMPLE_RATES: u32 = 0x61657372;

/// `kAudioFormatProperty_FormatIsVBR` (`'fvbr'`).
pub const K_AUDIO_FORMAT_PROPERTY_FORMAT_IS_VBR: u32 = 0x66766272;

/// `kAudioFormatProperty_FormatIsExternallyFramed` (`'fexf'`).
pub const K_AUDIO_FORMAT_PROPERTY_FORMAT_IS_EXTERNALLY_FRAMED: u32 = 0x66657866;

/// An audio format that the framework names by four characters.
#[derive(Clone, Copy, Debug, PartialEq, Eq, Structural)]
pub enum AudioFormatId {
    /// Linear PCM.
    LinearPcm,
    /// AAC LC.
    Mpeg4AacLc,
    /// HE-AAC.
    Mpeg4AacHe,
    /// HE-AAC v2.
    Mpeg4AacHeV2,
    /// AAC-LD.
    Mpeg4AacLd,
    /// AAC-ELD.
    Mpeg4AacEld,
    /// Apple Lossless.
    AppleLossless,
    /// iLBC.
    Ilbc,
    /// AMR narrowband.
    AmrNb,
    /// AMR wideband.
    AmrWb,
    /// MPEG audio Layer I.
    MpegLayer1,
    /// MPEG audio Layer II.
    MpegLayer2,
    /// MPEG audio Layer III.
    MpegLayer3,
    /// FLAC.
    Flac,
    /// Opus.
    Opus,
    /// A format outside the wired set, by its number.
    Unknown(u32),
}

/// A byte as it can be printed: a printable ASCII character or a space is itself, any
/// other byte a full stop.
pub open spec fn printed_byte(b: int) -> char {
    if 0x20 <= b <= 0x7E {
        b as char
    } else {
        '.'
    }
}

fn push_printed(text: &mut String, b: u8)
    ensures
        final(text)@ == old(text)@.push(printed_byte(b as int)),
{
    if 0x20 <= b && b <= 0x7E {
        push_char(text, b);
    } else {
        push_char(text, 46);
    }
}

/// The format that a raw identifier names.
pub open spec fn format_of(raw: u32) -> AudioFormatId {
    if raw == K_AUDIO_FORMAT_LINEAR_PCM {
        AudioFormatId::LinearPcm
    } else if raw == K_AUDIO_FORMAT_MPEG4_AAC {
        AudioFormatId::Mpeg4AacLc
    } else if raw == K_AUDIO_FORMAT_MPEG4_AAC_HE {
        AudioFormatId::Mpeg4AacHe
    } else if raw == K_AUDIO_FORMAT_MPEG4_AAC_HE_V2 {
        AudioFormatId::Mpeg4AacHeV2
    } else if raw == K_AUDIO_FORMAT_MPEG4_AAC_LD {
        AudioFormatId::Mpeg4AacLd
    } else if raw == K_AUDIO_FORMAT_MPEG4_AAC_ELD {
        AudioFormatId::Mpeg4AacEld
    } else if raw == K_AUDIO_FORMAT_APPLE_LOSSLESS {
        AudioFormatId::AppleLossless
    } else if raw == K_AUDIO_FORMAT_ILBC {
        AudioFormatId::Ilbc
    } else if raw == K_AUDIO_FORMAT_AMR {
        AudioFormatId::AmrNb
    } else if raw == K_AUDIO_FORMAT_AMR_WB {
        AudioFormatId::AmrWb
    } else if raw == K_AUDIO_FORMAT_MPEG_LAYER_1 {
        AudioFormatId::MpegLayer1
    } else if raw == K_AUDIO_FORMAT_MPEG_LAYER_2 {
        AudioFormatId::MpegLayer2
    } else if raw == K_AUDIO_FORMAT_MPEG_LAYER_3 {
        AudioFormatId::MpegLayer3
    } else if raw == K_AUDIO_FORMAT_FLAC {
        AudioFormatId::Flac
    } else if raw == K_AUDIO_FORMAT_OPUS {
        AudioFormatId::Opus
    } else {
        AudioFormatId::Unknown(raw)
    }
}

impl AudioFormatId {
    /// The raw identifier of the format.
    pub open spec fn raw(self) -> u32 {
        match self {
            AudioFormatId::LinearPcm => K_AUDIO_FORMAT_LINEAR_PCM,
            AudioFormatId::Mpeg4AacLc => K_AUDIO_FORMAT_MPEG4_AAC,
            AudioFormatId::Mpeg4AacHe => K_AUDIO_FORMAT_MPEG4_AAC_HE,
            AudioFormatId::Mpeg4AacHeV2 => K_AUDIO_FORMAT_MPEG4_AAC_HE_V2,
            AudioFormatId::Mpeg4AacLd => K_AUDIO_FORMAT_MPEG4_AAC_LD,
            AudioFormatId::Mpeg4AacEld => K_AUDIO_FORMAT_MPEG4_AAC_ELD,
            AudioFormatId::AppleLossless => K_AUDIO_FORMAT_APPLE_LOSSLESS,
            AudioFormatId::Ilbc => K_AUDIO_FORMAT_ILBC,
            AudioFormatId::AmrNb => K_AUDIO_FORMAT_AMR,
            AudioFormatId::AmrWb => K_AUDIO_FORMAT_AMR_WB,
            AudioFormatId::MpegLayer1 => K_AUDIO_FORMAT_MPEG_LAYER_1,
            AudioFormatId::MpegLayer2 => K_AUDIO_FORMAT_MPEG_LAYER_2,
            AudioFormatId::MpegLayer3 => K_AUDIO_FORMAT_MPEG_LAYER_3,
            AudioFormatId::Flac => K_AUDIO_FORMAT_FLAC,
            AudioFormatId::Opus => K_AUDIO_FORMAT_OPUS,
            AudioFormatId::Unknown(raw) => raw,
        }
    }

    /// The format is one of the AAC profiles.
    pub open spec fn in_aac_family(self) -> bool {
        self is Mpeg4AacLc || self is Mpeg4AacHe || self is Mpeg4AacHeV2 || self is Mpeg4AacLd
            || self is Mpeg4AacEld
    }

    /// The identifier of the codec that the format belongs to, where one is wired.
    pub open spec fn codec_label(self) -> Option<Seq<char>> {
        match self {
            AudioFormatId::Mpeg4AacLc
            | AudioFormatId::Mpeg4AacHe
            | AudioFormatId::Mpeg4AacHeV2
            | AudioFormatId::Mpeg4AacLd
            | AudioFormatId::Mpeg4AacEld => Some("aac"@),
            AudioFormatId::AppleLossless => Some("alac"@),
            AudioFormatId::Ilbc => Some("ilbc"@),
            AudioFormatId::AmrNb => Some("amr_nb"@),
            AudioFormatId::AmrWb => Some("amr_wb"@),
            AudioFormatId::MpegLayer1 => Some("mp1"@),
            AudioFormatId::MpegLayer2 => Some("mp2"@),
            AudioFormatId::MpegLayer3 => Some("mp3"@),
            AudioFormatId::Flac => Some("flac"@),
            AudioFormatId::Opus => Some("opus"@),
            AudioFormatId::LinearPcm | AudioFormatId::Unknown(_) => None,
        }
    }

    /// The four bytes of the raw identifier, as they can be printed.
    pub open spec fn fourcc(self) -> Seq<char> {
        let raw = self.raw() as int;
        seq![
            printed_byte(raw / 0x100_0000),
            printed_byte(raw / 0x1_0000 % 256),
            printed_byte(raw / 256 % 256),
            printed_byte(raw % 256),
        ]
    }

    /// The four bytes of the raw identifier as text. A byte that cannot be printed is
    /// a full stop.
    pub fn fourcc_str(self) -> (s: String)
        ensures
            s@ == self.fourcc(),
    {
        let raw: u32 = self.as_u32();
        let mut s = String::new();
        push_printed(&mut s, (raw / 0x100_0000) as u8);
        push_printed(&mut s, (raw / 0x1_0000 % 256) as u8);
        push_printed(&mut s, (raw / 256 % 256) as u8);
        push_printed(&mut s, (raw % 256) as u8);
        assert(s@ =~= self.fourcc());
        s
    }

    /// Whether the format is one of the AAC profiles.
    pub fn is_aac_family(self) -> (yes: bool)
        ensures
            yes == self.in_aac_family(),
    {
        match self {
            AudioFormatId::Mpeg4AacLc
            | AudioFormatId::Mpeg4AacHe
            | AudioFormatId::Mpeg4AacHeV2
            | AudioFormatId::Mpeg4AacLd
            | AudioFormatId::Mpeg4AacEld => true,
            _ => false,
        }
    }

    /// Whether the format codes PCM without loss.
    pub fn is_lossless(self) -> (yes: bool)
        ensures
            yes == (self is AppleLossless || self is Flac),
    {
        match self {
            AudioFormatId::AppleLossless | AudioFormatId::Flac => true,
            _ => false,
        }
    }

    /// Whether the format is a wired one other than PCM.
    pub fn is_compressed_audio(self) -> (yes: bool)
        ensures
            yes == !(self is LinearPcm || self is Unknown),
    {
        match self {
            AudioFormatId::LinearPcm | AudioFormatId::Unknown(_) => false,
            _ => true,
        }
    }

    /// The identifier of the codec that the format belongs to, where one is wired.
    pub fn codec_id_str(self) -> (id: Option<&'static str>)
        ensures
            match id {
                Some(s) => self.codec_label() == Some(s@),
                None => self.codec_label() is None,
            },
    {
        match self {
            AudioFormatId::Mpeg4AacLc
            | AudioFormatId::Mpeg4AacHe
            | AudioFormatId::Mpeg4AacHeV2
            | AudioFormatId::Mpeg4AacLd
            | AudioFormatId::Mpeg4AacEld => Some("aac"),
            AudioFormatId::AppleLossless => Some("alac"),
            AudioFormatId::Ilbc => Some("ilbc"),
            AudioFormatId::AmrNb => Some("amr_nb"),
            AudioFormatId::AmrWb => Some("amr_wb"),
            AudioFormatId::MpegLayer1 => Some("mp1"),
            AudioFormatId::MpegLayer2 => Some("mp2"),
            AudioFormatId::MpegLayer3 => Some("mp3"),
            AudioFormatId::Flac => Some("flac"),
            AudioFormatId::Opus => Some("opus"),
            AudioFormatId::LinearPcm | AudioFormatId::Unknown(_) => None,
        }
    }

    /// The format that a raw identifier names.
    pub fn from_u32(raw: u32) -> (id: AudioFormatId)
        ensures
            id == format_of(raw),
            id.raw() == raw,
    {
        match raw {
            K_AUDIO_FORMAT_LINEAR_PCM => AudioFormatId::LinearPcm,
            K_AUDIO_FORMAT_MPEG4_AAC => AudioFormatId::Mpeg4AacLc,
            K_AUDIO_FORMAT_MPEG4_AAC_HE => AudioFormatId::Mpeg4AacHe,
            K_AUDIO_FORMAT_MPEG4_AAC_HE_V2 => AudioFormatId::Mpeg4AacHeV2,
            K_AUDIO_FORMAT_MPEG4_AAC_LD => AudioFormatId::Mpeg4AacLd,
            K_AUDIO_FORMAT_MPEG4_AAC_ELD => AudioFormatId::Mpeg4AacEld,
            K_AUDIO_FORMAT_APPLE_LOSSLESS => AudioFormatId::AppleLossless,
            K_AUDIO_FORMAT_ILBC => AudioFormatId::Ilbc,
            K_AUDIO_FORMAT_AMR => AudioFormatId::AmrNb,
            K_AUDIO_FORMAT_AMR_WB => AudioFormatId::AmrWb,
            K_AUDIO_FORMAT_MPEG_LAYER_1 => AudioFormatId::MpegLayer1,
            K_AUDIO_FORMAT_MPEG_LAYER_2 => AudioFormatId::MpegLayer2,
            K_AUDIO_FORMAT_MPEG_LAYER_3 => AudioFormatId::MpegLayer3,
            K_AUDIO_FORMAT_FLAC => AudioFormatId::Flac,
            K_AUDIO_FORMAT_OPUS => AudioFormatId::Opus,
            other => AudioFormatId::Unknown(other),
        }
    }

    /// The raw identifier of the format.
    pub fn as_u32(self) -> (raw: u32)
        ensures
            raw == self.raw(),
    {
        match self {
            AudioFormatId::LinearPcm => K_AUDIO_FORMAT_LINEAR_PCM,
            AudioFormatId::Mpeg4AacLc => K_AUDIO_FORMAT_MPEG4_AAC,
            AudioFormatId::Mpeg4AacHe => K_AUDIO_FORMAT_MPEG4_AAC_HE,
            AudioFormatId::Mpeg4AacHeV2 => K_AUDIO_FORMAT_MPEG4_AAC_HE_V2,
            AudioFormatId::Mpeg4AacLd => K_AUDIO_FORMAT_MPEG4_AAC_LD,
            AudioFormatId::Mpeg4AacEld => K_AUDIO_FORMAT_MPEG4_AAC_ELD,
            AudioFormatId::AppleLossless => K_AUDIO_FORMAT_APPLE_LOSSLESS,
            AudioFormatId::Ilbc => K_AUDIO_FORMAT_ILBC,
            AudioFormatId::AmrNb => K_AUDIO_FORMAT_AMR,
            AudioFormatId::AmrWb => K_AUDIO_FORMAT_AMR_WB,
            AudioFormatId::MpegLayer1 => K_AUDIO_FORMAT_MPEG_LAYER_1,
            AudioFormatId::MpegLayer2 => K_AUDIO_FORMAT_MPEG_LAYER_2,
            AudioFormatId::MpegLayer3 => K_AUDIO_FORMAT_MPEG_LAYER_3,
            AudioFormatId::Flac => K_AUDIO_FORMAT_FLAC,
            AudioFormatId::Opus => K_AUDIO_FORMAT_OPUS,
            AudioFormatId::Unknown(raw) => raw,
        }
    }
}

/// Classifying a raw format identifier loses nothing.
pub proof fn format_classification_round_trips(raw: u32)
    ensures
        format_of(raw).raw() == raw,
{
}

#[verifier::spinoff_prover]
proof fn lemma_printed_code(raw: int)
    requires
        0 <= raw < 0x1_0000_0000,
        0x20 <= raw / 0x100_0000 <= 0x7E,
        0x20 <= raw / 0x1_0000 % 256 <= 0x7E,
        0x20 <= raw / 256 % 256 <= 0x7E,
        0x20 <= raw % 256 <= 0x7E,
    ensures
        (printed_byte(raw / 0x100_0000) as int) * 0x100_0000 + (printed_byte(
            raw / 0x1_0000 % 256,
        ) as int) * 0x1_0000 + (printed_byte(raw / 256 % 256) as int) * 256 + (printed_byte(
            raw % 256,
        ) as int) == raw,
{
    assert(raw / 0x1_0000 == raw / 256 / 256);
    assert(raw / 0x100_0000 == raw / 0x1_0000 / 256);
}

/// A wired format prints as the four characters that the framework names it by.
pub proof fn wired_formats_print_their_code(id: AudioFormatId)
    requires
        id !is Unknown,
    ensures
        ({
            let s = id.fourcc();
            (s[0] as int) * 0x100_0000 + (s[1] as int) * 0x1_0000 + (s[2] as int) * 256 + (
            s[3] as int) == id.raw()
        }),
{
    match id {
        AudioFormatId::LinearPcm => lemma_printed_code(K_AUDIO_FORMAT_LINEAR_PCM as int),
        AudioFormatId::Mpeg4AacLc => lemma_printed_code(K_AUDIO_FORMAT_MPEG4_AAC as int),
        AudioFormatId::Mpeg4AacHe => lemma_printed_code(K_AUDIO_FORMAT_MPEG4_AAC_HE as int),
        AudioFormatId::Mpeg4AacHeV2 => lemma_printed_code(K_AUDIO_FORMAT_MPEG4_AAC_HE_V2 as int),
        AudioFormatId::Mpeg4AacLd => lemma_printed_code(K_AUDIO_FORMAT_MPEG4_AAC_LD as int),
        AudioFormatId::Mpeg4AacEld => lemma_printed_code(K_AUDIO_FORMAT_MPEG4_AAC_ELD as int),
        AudioFormatId::AppleLossless => lemma_printed_code(K_AUDIO_FORMAT_APPLE_LOSSLESS as int),
        AudioFormatId::Ilbc => lemma_printed_code(K_AUDIO_FORMAT_ILBC as int),
        AudioFormatId::AmrNb => lemma_printed_code(K_AUDIO_FORMAT_AMR as int),
        AudioFormatId::AmrWb => lemma_printed_code(K_AUDIO_FORMAT_AMR_WB as int),
        AudioFormatId::MpegLayer1 => lemma_printed_code(K_AUDIO_FORMAT_MPEG_LAYER_1 as int),
        AudioFormatId::MpegLayer2 => lemma_printed_code(K_AUDIO_FORMAT_MPEG_LAYER_2 as int),
        AudioFormatId::MpegLayer3 => lemma_printed_code(K_AUDIO_FORMAT_MPEG_LAYER_3 as int),
        AudioFormatId::Flac => lemma_printed_code(K_AUDIO_FORMAT_FLAC as int),
        AudioFormatId::Opus => lemma_printed_code(K_AUDIO_FORMAT_OPUS as int),
        AudioFormatId::Unknown(_) => {},
    }
}

/// Each wired format is the classification of its own identifier: no two share one.
pub proof fn wired_formats_classify_to_themselves(id: AudioFormatId)
    requires
        id !is Unknown,
    ensures
        format_of(id.raw()) == id,
{
}

/// A converter's edge-priming frame counts.
#[derive(Clone, Copy, Debug, PartialEq, Eq, Structural)]
pub struct AudioConverterPrimeInfo {
    /// Frames of encoder delay before the first sample of the stream.
    pub leading_frames: u32,
    /// Frames of padding after the last one.
    pub trailing_frames: u32,
}

/// A range of values, each bound an IEEE 754 double given by its bits.
#[derive(Clone, Copy, Debug, PartialEq, Eq, Structural)]
pub struct AudioValueRange {
    /// The bits of the lower bound.
    pub minimum_bits: u64,
    /// The bits of the upper bound.
    pub maximum_bits: u64,
}

/// One buffer of audio data.
#[derive(Debug)]
pub struct AudioBuffer {
    /// Interleaved channels in the buffer; 0 where the data is compressed.
    pub number_channels: u32,
    /// Size of the data in bytes.
    pub data_byte_size: u32,
    /// The data.
    pub data: Vec<u8>,
}

/// A list of one buffer.
#[derive(Debug)]
pub struct AudioBufferList1 {
    /// How many buffers the list holds.
    pub number_buffers: u32,
    /// The buffers.
    pub buffers: [AudioBuffer; 1],
}

impl AudioBufferList1 {
    /// The data of the one buffer.
    pub open spec fn bytes(self) -> Seq<u8> {
        self.buffers@[0].data@
    }

    /// The list holds `data`, for `channels` channels.
    pub open spec fn holds(self, data: Seq<u8>, channels: u32) -> bool {
        &&& self.number_buffers == 1
        &&& self.buffers@[0].number_channels == channels
        &&& self.buffers@[0].data_byte_size == data.len() as u32
        &&& self.bytes() == data
    }

    /// A list of one buffer that holds `data`.
    pub fn new(data: Vec<u8>, channels: u32) -> (list: AudioBufferList1)
        ensures
            list.holds(data@, channels),
    {
        let data_byte_size: u32 = data.len() as u32;
        AudioBufferList1 {
            number_buffers: 1,
            buffers: [AudioBuffer { number_channels: channels, data_byte_size, data }],
        }
    }
}

/// Where one compressed packet lies in a buffer.
#[derive(Clone, Copy, Debug, PartialEq, Eq, Structural)]
pub struct AudioStreamPacketDescription {
    /// Offset of the packet in the buffer.
    pub start_offset: i64,
    /// Frames in the packet, or 0 where the format says it.
    pub variable_frames_in_packet: u32,
    /// Size of the packet in bytes.
    pub data_byte_size: u32,
}

/// The description of a stream of audio.
#[derive(Clone, Copy, Debug, PartialEq, Eq, Structural)]
pub struct AudioStreamBasicDescription {
    /// Sample rate in hertz.
    pub sample_rate: u32,
    /// Raw identifier of the format.
    pub format_id: u32,
    /// Flags of the format.
    pub format_flags: u32,
    /// Bytes per packet, 0 where packets vary.
    pub bytes_per_packet: u32,
    /// Frames per packet.
    pub frames_per_packet: u32,
    /// Bytes per frame, 0 where the format is compressed.
    pub bytes_per_frame: u32,
    /// Channels.
    pub channels_per_frame: u32,
    /// Bits per channel, 0 where the format is compressed.
    pub bits_per_channel: u32,
    /// Always 0.
    pub reserved: u32,
}

impl Default for AudioStreamBasicDescription {
    fn default() -> (asbd: AudioStreamBasicDescription)
        ensures
            asbd == compressed_format(0, 0, 0, 0, 0, 0),
    {
        AudioStreamBasicDescription {
            sample_rate: 0,
            format_id: 0,
            format_flags: 0,
            bytes_per_packet: 0,
            frames_per_packet: 0,
            bytes_per_frame: 0,
            channels_per_frame: 0,
            bits_per_channel: 0,
            reserved: 0,
        }
    }
}

/// Interleaved PCM of `bytes` bytes a sample.
pub open spec fn pcm_format(
    sample_rate: u32,
    flags: u32,
    bytes: u32,
    channels: u32,
) -> AudioStreamBasicDescription {
    AudioStreamBasicDescription {
        sample_rate,
        format_id: K_AUDIO_FORMAT_LINEAR_PCM,
        format_flags: flags,
        bytes_per_packet: (bytes * channels) as u32,
        frames_per_packet: 1,
        bytes_per_frame: (bytes * channels) as u32,
        channels_per_frame: channels,
        bits_per_channel: (8 * bytes) as u32,
        reserved: 0,
    }
}

/// 32-bit float PCM.
pub open spec fn float32_format(sample_rate: u32, channels: u32) -> AudioStreamBasicDescription {
    pcm_format(sample_rate, 9, 4, channels)
}

/// 16-bit signed integer PCM.
pub open spec fn s16_format(sample_rate: u32, channels: u32) -> AudioStreamBasicDescription {
    pcm_format(sample_rate, 12, 2, channels)
}

/// 32-bit signed integer PCM.
pub open spec fn s32_format(sample_rate: u32, channels: u32) -> AudioStreamBasicDescription {
    pcm_format(sample_rate, 12, 4, channels)
}

/// A compressed format.
pub open spec fn compressed_format(
    sample_rate: u32,
    format_id: u32,
    flags: u32,
    bytes_per_packet: u32,
    frames_per_packet: u32,
    channels: u32,
) -> AudioStreamBasicDescription {
    AudioStreamBasicDescription {
        sample_rate,
        format_id,
        format_flags: flags,
        bytes_per_packet,
        frames_per_packet,
        bytes_per_frame: 0,
        channels_per_frame: channels,
        bits_per_channel: 0,
        reserved: 0,
    }
}

/// iLBC packets have 38 bytes for 160 frames and 50 bytes for 240; no other
/// geometry is known.
pub open spec fn ilbc_packet_bytes(frames_per_packet: u32) -> u32 {
    if frames_per_packet == 160 {
        38
    } else if frames_per_packet == 240 {
        50
    } else {
        0
    }
}

fn compressed(
    sample_rate: u32,
    format_id: u32,
    flags: u32,
    bytes_per_packet: u32,
    frames_per_packet: u32,
    channels: u32,
) -> (asbd: AudioStreamBasicDescription)
    ensures
        asbd == compressed_format(
            sample_rate,
            format_id,
            flags,
            bytes_per_packet,
            frames_per_packet,
            channels,
        ),
{
    AudioStreamBasicDescription {
        sample_rate,
        format_id,
        format_flags: flags,
        bytes_per_packet,
        frames_per_packet,
        bytes_per_frame: 0,
        channels_per_frame: channels,
        bits_per_channel: 0,
        reserved: 0,
    }
}

impl AudioStreamBasicDescription {
    /// Whether the stream is PCM.
    pub fn is_linear_pcm(&self) -> (yes: bool)
        ensures
            yes == (self.format_id == K_AUDIO_FORMAT_LINEAR_PCM),
    {
        self.format_id == K_AUDIO_FORMAT_LINEAR_PCM
    }

    /// 32-bit float interleaved PCM.
    pub fn pcm_float32(sample_rate: u32, channels: u32) -> (asbd: AudioStreamBasicDescription)
        requires
            4 * channels <= u32::MAX,
        ensures
            asbd == float32_format(sample_rate, channels),
    {
        AudioStreamBasicDescription {
            sample_rate,
            format_id: K_AUDIO_FORMAT_LINEAR_PCM,
            format_flags: K_AF_FLAG_IS_FLOAT + K_AF_FLAG_IS_PACKED,
            bytes_per_packet: 4 * channels,
            frames_per_packet: 1,
            bytes_per_frame: 4 * channels,
            channels_per_frame: channels,
            bits_per_channel: 32,
            reserved: 0,
        }
    }

    /// 16-bit signed integer interleaved PCM.
    pub fn pcm_s16(sample_rate: u32, channels: u32) -> (asbd: AudioStreamBasicDescription)
        requires
            2 * channels <= u32::MAX,
        ensures
            asbd == s16_format(sample_rate, channels),
    {
        AudioStreamBasicDescription {
            sample_rate,
            format_id: K_AUDIO_FORMAT_LINEAR_PCM,
            format_flags: K_AF_FLAG_IS_SIGNED_INTEGER + K_AF_FLAG_IS_PACKED,
            bytes_per_packet: 2 * channels,
            frames_per_packet: 1,
            bytes_per_frame: 2 * channels,
            channels_per_frame: channels,
            bits_per_channel: 16,
            reserved: 0,
        }
    }

    /// 32-bit signed integer interleaved PCM.
    pub fn pcm_s32(sample_rate: u32, channels: u32) -> (asbd: AudioStreamBasicDescription)
        requires
            4 * channels <= u32::MAX,
        ensures
            asbd == s32_format(sample_rate, channels),
    {
        AudioStreamBasicDescription {
            sample_rate,
            format_id: K_AUDIO_FORMAT_LINEAR_PCM,
            format_flags: K_AF_FLAG_IS_SIGNED_INTEGER + K_AF_FLAG_IS_PACKED,
            bytes_per_packet: 4 * channels,
            frames_per_packet: 1,
            bytes_per_frame: 4 * channels,
            channels_per_frame: channels,
            bits_per_channel: 32,
            reserved: 0,
        }
    }

    /// AAC LC: 1024 frames a packet.
    pub fn mpeg4_aac(sample_rate: u32, channels: u32) -> (asbd: AudioStreamBasicDescription)
        ensures
            asbd == compressed_format(sample_rate, K_AUDIO_FORMAT_MPEG4_AAC, 0, 0, 1024, channels),
    {
        compressed(sample_rate, K_AUDIO_FORMAT_MPEG4_AAC, 0, 0, 1024, channels)
    }

    /// HE-AAC at its output rate: SBR doubles the packet to 2048 frames.
    pub fn mpeg4_aac_he(sample_rate: u32, channels: u32) -> (asbd: AudioStreamBasicDescription)
        ensures
            asbd == compressed_format(sample_rate, K_AUDIO_FORMAT_MPEG4_AAC_HE, 0, 0, 2048, channels),
    {
        compressed(sample_rate, K_AUDIO_FORMAT_MPEG4_AAC_HE, 0, 0, 2048, channels)
    }

    /// HE-AAC v2 at its output rate: 2048 frames a packet.
    pub fn mpeg4_aac_he_v2(sample_rate: u32, channels: u32) -> (asbd: AudioStreamBasicDescription)
        ensures
            asbd == compressed_format(sample_rate, K_AUDIO_FORMAT_MPEG4_AAC_HE_V2, 0, 0, 2048, channels),
    {
        compressed(sample_rate, K_AUDIO_FORMAT_MPEG4_AAC_HE_V2, 0, 0, 2048, channels)
    }

    /// AAC-LD: 512 frames a packet.
    pub fn mpeg4_aac_ld(sample_rate: u32, channels: u32) -> (asbd: AudioStreamBasicDescription)
        ensures
            asbd == compressed_format(sample_rate, K_AUDIO_FORMAT_MPEG4_AAC_LD, 0, 0, 512, channels),
    {
        compressed(sample_rate, K_AUDIO_FORMAT_MPEG4_AAC_LD, 0, 0, 512, channels)
    }

    /// AAC-ELD: 512 frames a packet.
    pub fn mpeg4_aac_eld(sample_rate: u32, channels: u32) -> (asbd: AudioStreamBasicDescription)
        ensures
            asbd == compressed_format(sample_rate, K_AUDIO_FORMAT_MPEG4_AAC_ELD, 0, 0, 512, channels),
    {
        compressed(sample_rate, K_AUDIO_FORMAT_MPEG4_AAC_ELD, 0, 0, 512, channels)
    }

    /// MPEG audio Layer II: 1152 frames a packet.
    pub fn mpeg_layer2(sample_rate: u32, channels: u32) -> (asbd: AudioStreamBasicDescription)
        ensures
            asbd == compressed_format(sample_rate, K_AUDIO_FORMAT_MPEG_LAYER_2, 0, 0, 1152, channels),
    {
        compressed(sample_rate, K_AUDIO_FORMAT_MPEG_LAYER_2, 0, 0, 1152, channels)
    }

    /// MPEG audio Layer I: 384 frames a packet.
    pub fn mpeg_layer1(sample_rate: u32, channels: u32) -> (asbd: AudioStreamBasicDescription)
        ensures
            asbd == compressed_format(sample_rate, K_AUDIO_FORMAT_MPEG_LAYER_1, 0, 0, 384, channels),
    {
        compressed(sample_rate, K_AUDIO_FORMAT_MPEG_LAYER_1, 0, 0, 384, channels)
    }

    /// AMR narrowband: 8 kHz mono, 160 frames a packet.
    pub fn amr_nb() -> (asbd: AudioStreamBasicDescription)
        ensures
            asbd == compressed_format(8_000, K_AUDIO_FORMAT_AMR, 0, 0, 160, 1),
    {
        compressed(8_000, K_AUDIO_FORMAT_AMR, 0, 0, 160, 1)
    }

    /// AMR wideband: 16 kHz mono, 320 frames a packet.
    pub fn amr_wb() -> (asbd: AudioStreamBasicDescription)
        ensures
            asbd == compressed_format(16_000, K_AUDIO_FORMAT_AMR_WB, 0, 0, 320, 1),
    {
        compressed(16_000, K_AUDIO_FORMAT_AMR_WB, 0, 0, 320, 1)
    }

    /// iLBC: 8 kHz mono; the frames per packet select the mode.
    pub fn ilbc(frames_per_packet: u32) -> (asbd: AudioStreamBasicDescription)
        ensures
            asbd == compressed_format(
                8_000,
                K_AUDIO_FORMAT_ILBC,
                0,
                ilbc_packet_bytes(frames_per_packet),
                frames_per_packet,
                1,
            ),
    {
        let bytes_per_packet: u32 = match frames_per_packet {
            160 => 38,
            240 => 50,
            _ => 0,
        };
        compressed(8_000, K_AUDIO_FORMAT_ILBC, 0, bytes_per_packet, frames_per_packet, 1)
    }

    /// MPEG audio Layer III.
    pub fn mpeg_layer3(sample_rate: u32, channels: u32, frames_per_packet: u32) -> (asbd:
        AudioStreamBasicDescription)
        ensures
            asbd == compressed_format(
                sample_rate,
                K_AUDIO_FORMAT_MPEG_LAYER_3,
                0,
                0,
                frames_per_packet,
                channels,
            ),
    {
        compressed(sample_rate, K_AUDIO_FORMAT_MPEG_LAYER_3, 0, 0, frames_per_packet, channels)
    }

    /// Opus: no flags.
    pub fn opus(sample_rate: u32, channels: u32, frames_per_packet: u32) -> (asbd:
        AudioStreamBasicDescription)
        ensures
            asbd == compressed_format(
                sample_rate,
                K_AUDIO_FORMAT_OPUS,
                0,
                0,
                frames_per_packet,
                channels,
            ),
    {
        compressed(sample_rate, K_AUDIO_FORMAT_OPUS, 0, 0, frames_per_packet, channels)
    }

    /// Apple Lossless: the flags hold the bit depth of the source.
    pub fn apple_lossless(
        sample_rate: u32,
        channels: u32,
        bit_depth_flag: u32,
        frames_per_packet: u32,
    ) -> (asbd: AudioStreamBasicDescription)
        ensures
            asbd == compressed_format(
                sample_rate,
                K_AUDIO_FORMAT_APPLE_LOSSLESS,
                bit_depth_flag,
                0,
                frames_per_packet,
                channels,
            ),
    {
        compressed(sample_rate, K_AUDIO_FORMAT_APPLE_LOSSLESS, bit_depth_flag, 0, frames_per_packet, channels)
    }

    /// FLAC: the flags hold the bit depth of the source, the frames per packet the
    /// largest block size.
    pub fn flac(
        sample_rate: u32,
        channels: u32,
        bit_depth_flag: u32,
        frames_per_packet: u32,
    ) -> (asbd: AudioStreamBasicDescription)
        ensures
            asbd == compressed_format(
                sample_rate,
                K_AUDIO_FORMAT_FLAC,
                bit_depth_flag,
                0,
                frames_per_packet,
                channels,
            ),
    {
        compressed(sample_rate, K_AUDIO_FORMAT_FLAC, bit_depth_flag, 0, frames_per_packet, channels)
    }

}

/// The framework names each wired format by four characters.
pub proof fn formats_are_named_by_four_characters(id: AudioFormatId)
    ensures
        id is LinearPcm ==> id.raw() == fourcc_value('l', 'p', 'c', 'm'),
        id is Mpeg4AacLc ==> id.raw() == fourcc_value('a', 'a', 'c', ' '),
        id is Mpeg4AacHe ==> id.raw() == fourcc_value('a', 'a', 'c', 'h'),
        id is Mpeg4AacHeV2 ==> id.raw() == fourcc_value('a', 'a', 'c', 'p'),
        id is Mpeg4AacLd ==> id.raw() == fourcc_value('a', 'a', 'c', 'l'),
        id is Mpeg4AacEld ==> id.raw() == fourcc_value('a', 'a', 'c', 'e'),
        id is AppleLossless ==> id.raw() == fourcc_value('a', 'l', 'a', 'c'),
        id is Ilbc ==> id.raw() == fourcc_value('i', 'l', 'b', 'c'),
        id is AmrNb ==> id.raw() == fourcc_value('s', 'a', 'm', 'r'),
        id is AmrWb ==> id.raw() == fourcc_value('s', 'a', 'w', 'b'),
        id is MpegLayer1 ==> id.raw() == fourcc_value('.', 'm', 'p', '1'),
        id is MpegLayer2 ==> id.raw() == fourcc_value('.', 'm', 'p', '2'),
        id is MpegLayer3 ==> id.raw() == fourcc_value('.', 'm', 'p', '3'),
        id is Flac ==> id.raw() == fourcc_value('f', 'l', 'a', 'c'),
        id is Opus ==> id.raw() == fourcc_value('o', 'p', 'u', 's'),
{
}

/// A raw identifier keeps its number, whatever it names, and only one that names no
/// wired format is unknown.
pub proof fn formats_keep_their_number(raw: u32, id: AudioFormatId)
    ensures
        format_of(raw).raw() == raw,
        format_of(raw) is Unknown && id.raw() == raw ==> id is Unknown,
{
}

/// Each wired format belongs to the codec that it is named after, the AAC profiles all to
/// one; PCM and unknown formats belong to none.
pub proof fn formats_belong_to_their_codec(id: AudioFormatId)
    ensures
        id.in_aac_family() <==> id is Mpeg4AacLc || id is Mpeg4AacHe || id is Mpeg4AacHeV2
            || id is Mpeg4AacLd || id is Mpeg4AacEld,
        id.in_aac_family() ==> id.codec_label() == Some("aac"@),
        id is LinearPcm || id is Unknown <==> id.codec_label() is None,
        id is AppleLossless ==> id.codec_label() == Some("alac"@),
        id is Ilbc ==> id.codec_label() == Some("ilbc"@),
        id is AmrNb ==> id.codec_label() == Some("amr_nb"@),
        id is AmrWb ==> id.codec_label() == Some("amr_wb"@),
        id is MpegLayer1 ==> id.codec_label() == Some("mp1"@),
        id is MpegLayer2 ==> id.codec_label() == Some("mp2"@),
        id is MpegLayer3 ==> id.codec_label() == Some("mp3"@),
        id is Flac ==> id.codec_label() == Some("flac"@),
        id is Opus ==> id.codec_label() == Some("opus"@),
{
}

/// A format prints as four characters, one for each byte of its number from the highest
/// to the lowest: the character of that code where it can be printed, a full stop where
/// it cannot.
pub proof fn formats_print_byte_by_byte(id: AudioFormatId, i: int)
    requires
        0 <= i < 4,
    ensures
        id.fourcc().len() == 4,
        ({
            let b = be32_bytes(id.raw() as int)[i] as int;
            &&& 32 <= b < 127 ==> id.fourcc()[i] as int == b
            &&& !(32 <= b < 127) ==> id.fourcc()[i] == '.'
        }),
{
    let raw = id.raw() as int;
    assert(raw / 0x100_0000 % 256 == raw / 0x100_0000);
}

/// The framework's properties are named by four characters too, and success is 0.
pub proof fn properties_are_named_by_four_characters()
    ensures
        NO_ERR == 0,
        K_AUDIO_CONVERTER_ENCODE_BIT_RATE == fourcc_value('b', 'r', 'a', 't'),
        K_AUDIO_CONVERTER_MAX_OUTPUT_PACKET_SIZE == fourcc_value('x', 'o', 'p', 's'),
        K_AUDIO_CONVERTER_CURRENT_INPUT_SD == fourcc_value('a', 'c', 's', 'd'),
        K_AUDIO_CONVERTER_CURRENT_OUTPUT_SD == fourcc_value('a', 'c', 'o', 'd'),
        K_AUDIO_CONVERTER_PRIME_INFO == fourcc_value('p', 'r', 'i', 'm'),
        K_AUDIO_CONVERTER_APPLICABLE_ENCODE_BIT_RATES == fourcc_value('a', 'e', 'b', 'r'),
        K_AUDIO_CONVERTER_AVAILABLE_ENCODE_BIT_RATES == fourcc_value('v', 'e', 'b', 'r'),
        K_AUDIO_CONVERTER_APPLICABLE_ENCODE_SAMPLE_RATES == fourcc_value('a', 'e', 's', 'r'),
        K_AUDIO_CONVERTER_AVAILABLE_ENCODE_SAMPLE_RATES == fourcc_value('v', 'e', 's', 'r'),
        K_AUDIO_CONVERTER_DECOMPRESSION_MAGIC_COOKIE == fourcc_value('d', 'm', 'g', 'c'),
        K_AUDIO_CONVERTER_COMPRESSION_MAGIC_COOKIE == fourcc_value('c', 'm', 'g', 'c'),
        K_AUDIO_FORMAT_PROPERTY_DECODE_FORMAT_IDS == fourcc_value('a', 'c', 'i', 'f'),
        K_AUDIO_FORMAT_PROPERTY_ENCODE_FORMAT_IDS == fourcc_value('a', 'c', 'o', 'f'),
        K_AUDIO_FORMAT_PROPERTY_AVAILABLE_ENCODE_BIT_RATES == fourcc_value('a', 'e', 'b', 'r'),
        K_AUDIO_FORMAT_PROPERTY_AVAILABLE_ENCODE_SAMPLE_RATES == fourcc_value('a', 'e', 's', 'r'),
        K_AUDIO_FORMAT_PROPERTY_FORMAT_IS_VBR == fourcc_value('f', 'v', 'b', 'r'),
        K_AUDIO_FORMAT_PROPERTY_FORMAT_IS_EXTERNALLY_FRAMED == fourcc_value('f', 'e', 'x', 'f'),
{
}

/// Interleaved PCM is packed: a packet is one frame of one sample a channel, and bits and
/// bytes agree. Float PCM has the flags float and packed, integer PCM signed and packed;
/// the widths are 32, 16 and 32 bits.
pub proof fn pcm_is_packed(sample_rate: u32, channels: u32)
    requires
        4 * channels <= u32::MAX,
    ensures
        ({
            let f = float32_format(sample_rate, channels);
            let s = s16_format(sample_rate, channels);
            let w = s32_format(sample_rate, channels);
            &&& f.format_flags == 1 + 8 && s.format_flags == 4 + 8 && w.format_flags == 4 + 8
            &&& f.bits_per_channel == 32 && s.bits_per_channel == 16 && w.bits_per_channel == 32
            &&& f.bytes_per_frame == 4 * channels
            &&& s.bytes_per_frame == 2 * channels
            &&& w.bytes_per_frame == 4 * channels
            &&& f.bytes_per_packet == f.bytes_per_frame
            &&& s.bytes_per_packet == s.bytes_per_frame
            &&& w.bytes_per_packet == w.bytes_per_frame
            &&& f.frames_per_packet == 1 && s.frames_per_packet == 1 && w.frames_per_packet == 1
            &&& f.sample_rate == sample_rate && s.sample_rate == sample_rate && w.sample_rate
                == sample_rate
            &&& f.channels_per_frame == channels && s.channels_per_frame == channels
                && w.channels_per_frame == channels
            &&& f.format_id == fourcc_value('l', 'p', 'c', 'm') && s.format_id == f.format_id
                && w.format_id == f.format_id
            &&& f.reserved == 0 && s.reserved == 0 && w.reserved == 0
        }),
        K_AF_FLAG_IS_FLOAT == 1,
        K_AF_FLAG_IS_SIGNED_INTEGER == 4,
        K_AF_FLAG_IS_PACKED == 8,
        K_AF_FLAG_IS_NON_INTERLEAVED == 32,
{
}

/// A compressed stream is described by its rate, format, flags, packets and channels
/// alone: it has no frames of a fixed size and no width.
pub proof fn compressed_streams_have_no_frame_size(
    sample_rate: u32,
    format_id: u32,
    flags: u32,
    bytes: u32,
    frames: u32,
    channels: u32,
)
    ensures
        ({
            let d = compressed_format(sample_rate, format_id, flags, bytes, frames, channels);
            &&& d.sample_rate == sample_rate
            &&& d.format_id == format_id
            &&& d.format_flags == flags
            &&& d.bytes_per_packet == bytes
            &&& d.frames_per_packet == frames
            &&& d.channels_per_frame == channels
            &&& d.bytes_per_frame == 0
            &&& d.bits_per_channel == 0
            &&& d.reserved == 0
        }),
        frames == 160 ==> ilbc_packet_bytes(frames) == 38,
        frames == 240 ==> ilbc_packet_bytes(frames) == 50,
        frames != 160 && frames != 240 ==> ilbc_packet_bytes(frames) == 0,
{
}

/// A list of one buffer holds the bytes that it was made from, with their number and the
/// channels that they are for.
pub proof fn lists_hold_their_bytes(list: AudioBufferList1, data: Seq<u8>, channels: u32)
    ensures
        list.holds(data, channels) <==> {
            &&& list.number_buffers == 1
            &&& list.buffers@[0].number_channels == channels
            &&& list.buffers@[0].data@ == data
            &&& list.buffers@[0].data_byte_size == list.buffers@[0].data@.len() as u32
        },
{
}

/// The flags of the lossless depths 16, 20, 24 and 32 are 1, 2, 3 and 4.
pub proof fn lossless_flags_count_up()
    ensures
        K_AF_APPLE_LOSSLESS_16_BIT == 1,
        K_AF_APPLE_LOSSLESS_20_BIT == 2,
        K_AF_APPLE_LOSSLESS_24_BIT == 3,
        K_AF_APPLE_LOSSLESS_32_BIT == 4,
{
}

} // verus!
