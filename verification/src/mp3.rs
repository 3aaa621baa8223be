//! MPEG audio frame headers: versions 1, 2 and 2.5, layers I, II and III.
//!
//! A frame begins with 32 bits: an 11-bit sync word of ones, the version (2 bits),
//! the layer (2), a protection bit, the bit rate index (4), the sample rate index
//! (2), a padding bit, a private bit, the channel mode (2) and six bits that this
//! library has no use for.

use vstd::prelude::*;

verus! {

/// The version of MPEG audio.
#[derive(Clone, Copy, Debug, PartialEq, Eq, Structural)]
pub enum Version {
    /// MPEG-1: 32, 44.1 and 48 kHz.
    Mpeg1,
    /// MPEG-2: 16, 22.05 and 24 kHz.
    Mpeg2,
    /// MPEG-2.5: 8, 11.025 and 12 kHz.
    Mpeg25,
}

/// The layer of MPEG audio.
#[derive(Clone, Copy, Debug, PartialEq, Eq, Structural)]
pub enum Layer {
    /// Layer I.
    LayerI,
    /// Layer II.
    LayerII,
    /// Layer III.
    LayerIII,
}

/// The channel mode of a frame.
#[derive(Clone, Copy, Debug, PartialEq, Eq, Structural)]
pub enum ChannelMode {
    /// Two channels.
    Stereo,
    /// Two channels that are coded together.
    JointStereo,
    /// Two channels that have nothing to do with each other.
    DualMono,
    /// One channel.
    Mono,
}

impl Version {
    /// The name of the variant.
    pub open spec fn label(self) -> Seq<char> {
        match self {
            Version::Mpeg1 => "Mpeg1"@,
            Version::Mpeg2 => "Mpeg2"@,
            Version::Mpeg25 => "Mpeg25"@,
        }
    }

    /// The name of the variant.
    pub fn name(self) -> (s: &'static str)
        ensures
            s@ == self.label(),
    {
        match self {
            Version::Mpeg1 => "Mpeg1",
            Version::Mpeg2 => "Mpeg2",
            Version::Mpeg25 => "Mpeg25",
        }
    }
}

impl Layer {
    /// The name of the variant.
    pub open spec fn label(self) -> Seq<char> {
        match self {
            Layer::LayerI => "LayerI"@,
            Layer::LayerII => "LayerII"@,
            Layer::LayerIII => "LayerIII"@,
        }
    }

    /// The name of the variant.
    pub fn name(self) -> (s: &'static str)
        ensures
            s@ == self.label(),
    {
        match self {
            Layer::LayerI => "LayerI",
            Layer::LayerII => "LayerII",
            Layer::LayerIII => "LayerIII",
        }
    }
}

impl ChannelMode {
    /// The number of channels.
    pub open spec fn count(self) -> u32 {
        if self is Mono {
            1
        } else {
            2
        }
    }

    /// The name of the variant.
    pub open spec fn label(self) -> Seq<char> {
        match self {
            ChannelMode::Stereo => "Stereo"@,
            ChannelMode::JointStereo => "JointStereo"@,
            ChannelMode::DualMono => "DualMono"@,
            ChannelMode::Mono => "Mono"@,
        }
    }

    /// The name of the variant.
    pub fn name(self) -> (s: &'static str)
        ensures
            s@ == self.label(),
    {
        match self {
            ChannelMode::Stereo => "Stereo",
            ChannelMode::JointStereo => "JointStereo",
            ChannelMode::DualMono => "DualMono",
            ChannelMode::Mono => "Mono",
        }
    }

    /// The number of channels: one for mono, two otherwise.
    pub fn channel_count(self) -> (n: u32)
        ensures
            n == self.count(),
    {
        match self {
            ChannelMode::Mono => 1,
            _ => 2,
        }
    }
}

/// A frame header.
#[derive(Clone, Copy, Debug, PartialEq, Eq, Structural)]
pub struct FrameHeader {
    /// Version.
    pub version: Version,
    /// Layer.
    pub layer: Layer,
    /// Whether a checksum follows the header.
    pub crc_protected: bool,
    /// Bits per second.
    pub bit_rate: u32,
    /// Sample rate in hertz.
    pub sample_rate: u32,
    /// Whether the frame has one more slot.
    pub padding: bool,
    /// Channel mode.
    pub channel_mode: ChannelMode,
    /// Length of the frame in bytes, header and padding slot included.
    pub frame_length: usize,
    /// PCM samples per channel in the frame.
    pub samples_per_frame: u32,
}

/// The version that bits 4 and 3 of byte 1 name.
pub open spec fn version_of(b1: u8) -> Option<Version> {
    let bits = b1 / 8 % 4;
    if bits == 3 {
        Some(Version::Mpeg1)
    } else if bits == 2 {
        Some(Version::Mpeg2)
    } else if bits == 0 {
        Some(Version::Mpeg25)
    } else {
        None
    }
}

/// The layer that bits 2 and 1 of byte 1 name.
pub open spec fn layer_of(b1: u8) -> Option<Layer> {
    let bits = b1 / 2 % 4;
    if bits == 3 {
        Some(Layer::LayerI)
    } else if bits == 2 {
        Some(Layer::LayerII)
    } else if bits == 1 {
        Some(Layer::LayerIII)
    } else {
        None
    }
}

/// The channel mode that the top bits of byte 3 name.
pub open spec fn channel_mode_of(b3: u8) -> ChannelMode {
    let bits = b3 / 64;
    if bits == 0 {
        ChannelMode::Stereo
    } else if bits == 1 {
        ChannelMode::JointStereo
    } else if bits == 2 {
        ChannelMode::DualMono
    } else {
        ChannelMode::Mono
    }
}

/// The bit rates of a version and a layer, in kbit/s, for the indices 1 to 14.
pub open spec fn bit_rates(version: Version, layer: Layer) -> Seq<u32> {
    match (version, layer) {
        (Version::Mpeg1, Layer::LayerI) => seq![
            32, 64, 96, 128, 160, 192, 224, 256, 288, 320, 352, 384, 416, 448,
        ],
        (Version::Mpeg1, Layer::LayerII) => seq![
            32, 48, 56, 64, 80, 96, 112, 128, 160, 192, 224, 256, 320, 384,
        ],
        (Version::Mpeg1, Layer::LayerIII) => seq![
            32, 40, 48, 56, 64, 80, 96, 112, 128, 160, 192, 224, 256, 320,
        ],
        (_, Layer::LayerI) => seq![
            32, 48, 56, 64, 80, 96, 112, 128, 144, 160, 176, 192, 224, 256,
        ],
        _ => seq![8, 16, 24, 32, 40, 48, 56, 64, 80, 96, 112, 128, 144, 160],
    }
}

/// The bit rate of an index. Index 0 is free format and 15 is reserved.
pub open spec fn bit_rate_of(version: Version, layer: Layer, index: int) -> Option<u32> {
    if 1 <= index <= 14 {
        Some((bit_rates(version, layer)[index - 1] * 1000) as u32)
    } else {
        None
    }
}

/// The sample rate of an index below 3; index 3 is reserved.
pub open spec fn sample_rate_of(version: Version, index: int) -> Option<u32> {
    let base: u32 = if index == 0 {
        44_100
    } else if index == 1 {
        48_000
    } else {
        32_000
    };
    if index == 3 {
        None
    } else {
        match version {
            Version::Mpeg1 => Some(base),
            Version::Mpeg2 => Some((base / 2) as u32),
            Version::Mpeg25 => Some((base / 4) as u32),
        }
    }
}

/// PCM samples per channel in a frame.
pub open spec fn samples_of(version: Version, layer: Layer) -> u32 {
    match layer {
        Layer::LayerI => 384,
        Layer::LayerII => 1152,
        Layer::LayerIII => if version is Mpeg1 {
            1152
        } else {
            576
        },
    }
}

/// The length of a frame in bytes: slots of four bytes in Layer I, of one byte
/// otherwise, as many as the samples of the frame take at its bit rate, and one
/// more where it is padded.
pub open spec fn length_of(
    version: Version,
    layer: Layer,
    bit_rate: u32,
    sample_rate: u32,
    padding: bool,
) -> int {
    let pad: int = if padding {
        1
    } else {
        0
    };
    if layer is LayerI {
        (12 * bit_rate / sample_rate as int + pad) * 4
    } else {
        samples_of(version, layer) as int / 8 * bit_rate / sample_rate as int + pad
    }
}

/// The frame header that four bytes make; `None` if there is no sync word or a
/// field holds a reserved value or the free format.
pub open spec fn header_of(s: Seq<u8>) -> Option<FrameHeader> {
    if s[0] != 0xFF || s[1] / 32 != 7 || version_of(s[1]) is None || layer_of(s[1]) is None {
        None
    } else {
        let version = version_of(s[1])->0;
        let layer = layer_of(s[1])->0;
        let bit_rate = bit_rate_of(version, layer, s[2] as int / 16);
        let sample_rate = sample_rate_of(version, s[2] as int / 4 % 4);
        if bit_rate is None || sample_rate is None {
            None
        } else {
            let padding = s[2] / 2 % 2 == 1;
            Some(
                FrameHeader {
                    version,
                    layer,
                    crc_protected: s[1] % 2 == 0,
                    bit_rate: bit_rate->0,
                    sample_rate: sample_rate->0,
                    padding,
                    channel_mode: channel_mode_of(s[3]),
                    frame_length: length_of(
                        version,
                        layer,
                        bit_rate->0,
                        sample_rate->0,
                        padding,
                    ) as usize,
                    samples_per_frame: samples_of(version, layer),
                },
            )
        }
    }
}

/// What every parsed header keeps: its rates are those of its version, its frame is
/// longer than the header and shorter than three kilobytes.
pub open spec fn is_valid(h: FrameHeader) -> bool {
    &&& 0 < h.bit_rate <= 448_000
    &&& 8_000 <= h.sample_rate <= 48_000
    &&& h.sample_rate >= 32_000 <==> h.version is Mpeg1
    &&& h.samples_per_frame == samples_of(h.version, h.layer)
    &&& h.frame_length == length_of(h.version, h.layer, h.bit_rate, h.sample_rate, h.padding)
    &&& 4 < h.frame_length < 3_000
}

impl FrameHeader {
    /// The number of channels.
    pub fn channels(&self) -> (n: u32)
        ensures
            n == self.channel_mode.count(),
    {
        self.channel_mode.channel_count()
    }

    /// Parse a frame header.
    pub fn parse(bytes: [u8; 4]) -> (r: Option<FrameHeader>)
        ensures
            r == header_of(bytes@),
            r matches Some(h) ==> is_valid(h),
    {
        if bytes[0] != 0xFF || bytes[1] / 32 != 7 {
            return None;
        }
        let version = match bytes[1] / 8 % 4 {
            3 => Version::Mpeg1,
            2 => Version::Mpeg2,
            0 => Version::Mpeg25,
            _ => {
                return None;
            },
        };
        let layer = match bytes[1] / 2 % 4 {
            3 => Layer::LayerI,
            2 => Layer::LayerII,
            1 => Layer::LayerIII,
            _ => {
                return None;
            },
        };
        let crc_protected = bytes[1] % 2 == 0;
        let bit_rate: u32 = match bitrate_lookup(version, layer, bytes[2] / 16) {
            Some(rate) => rate,
            None => {
                return None;
            },
        };
        let sample_rate: u32 = match sample_rate_lookup(version, bytes[2] / 4 % 4) {
            Some(rate) => rate,
            None => {
                return None;
            },
        };
        let padding = bytes[2] / 2 % 2 == 1;
        let channel_mode = match bytes[3] / 64 {
            0 => ChannelMode::Stereo,
            1 => ChannelMode::JointStereo,
            2 => ChannelMode::DualMono,
            _ => ChannelMode::Mono,
        };
        let samples: u32 = samples_per_frame(version, layer);
        let frame_length: usize = frame_length_bytes(
            version,
            layer,
            bit_rate,
            sample_rate,
            padding,
        );
        Some(
            FrameHeader {
                version,
                layer,
                crc_protected,
                bit_rate,
                sample_rate,
                padding,
                channel_mode,
                frame_length,
                samples_per_frame: samples,
            },
        )
    }
}

/// PCM samples per channel in a frame.
fn samples_per_frame(version: Version, layer: Layer) -> (n: u32)
    ensures
        n == samples_of(version, layer),
{
    match layer {
        Layer::LayerI => 384,
        Layer::LayerII => 1152,
        Layer::LayerIII => match version {
            Version::Mpeg1 => 1152,
            Version::Mpeg2 | Version::Mpeg25 => 576,
        },
    }
}

proof fn lemma_quotient_bounds(n: int, d: int, low: int, high: int)
    by (nonlinear_arith)
    requires
        d > 0,
        low * d <= n <= high * d,
    ensures
        low <= n / d <= high,
{
}

/// The length of a frame in bytes.
fn frame_length_bytes(
    version: Version,
    layer: Layer,
    bit_rate: u32,
    sample_rate: u32,
    padding: bool,
) -> (len: usize)
    requires
        8_000 <= bit_rate <= 448_000,
        8_000 <= sample_rate <= 48_000,
        sample_rate >= 32_000 <==> version is Mpeg1,
        version !is Mpeg1 ==> bit_rate <= 256_000,
        version !is Mpeg1 && layer !is LayerI ==> bit_rate <= 160_000,
        layer is LayerI ==> bit_rate >= 32_000,
        version is Mpeg1 ==> bit_rate >= 32_000,
    ensures
        len == length_of(version, layer, bit_rate, sample_rate, padding),
        4 < len < 3_000,
{
    let pad: u32 = if padding {
        1
    } else {
        0
    };
    proof {
        let rate = sample_rate as int;
        if layer is LayerI {
            lemma_quotient_bounds(12 * bit_rate, rate, 2, 700);
        } else if samples_of(version, layer) == 1152 {
            lemma_quotient_bounds(144 * bit_rate, rate, 5, 2_900);
        } else {
            lemma_quotient_bounds(72 * bit_rate, rate, 5, 2_900);
        }
    }
    let len: u32 = match layer {
        Layer::LayerI => (12 * bit_rate / sample_rate + pad) * 4,
        Layer::LayerII => 144 * bit_rate / sample_rate + pad,
        Layer::LayerIII => {
            let slots: u32 = if sample_rate >= 32_000 {
                144
            } else {
                72
            };
            slots * bit_rate / sample_rate + pad
        },
    };
    len as usize
}

/// The bit rate of an index.
fn bitrate_lookup(version: Version, layer: Layer, index: u8) -> (r: Option<u32>)
    requires
        index < 16,
    ensures
        r == bit_rate_of(version, layer, index as int),
        r matches Some(rate) ==> {
            &&& 8_000 <= rate <= 448_000
            &&& version !is Mpeg1 ==> rate <= 256_000
            &&& version !is Mpeg1 && layer !is LayerI ==> rate <= 160_000
            &&& layer is LayerI ==> rate >= 32_000
            &&& version is Mpeg1 ==> rate >= 32_000
        },
{
    if index == 0 || index == 15 {
        return None;
    }
    let row: [u32; 14] = match (version, layer) {
        (Version::Mpeg1, Layer::LayerI) => [
            32, 64, 96, 128, 160, 192, 224, 256, 288, 320, 352, 384, 416, 448,
        ],
        (Version::Mpeg1, Layer::LayerII) => [
            32, 48, 56, 64, 80, 96, 112, 128, 160, 192, 224, 256, 320, 384,
        ],
        (Version::Mpeg1, Layer::LayerIII) => [
            32, 40, 48, 56, 64, 80, 96, 112, 128, 160, 192, 224, 256, 320,
        ],
        (Version::Mpeg2, Layer::LayerI) | (Version::Mpeg25, Layer::LayerI) => [
            32, 48, 56, 64, 80, 96, 112, 128, 144, 160, 176, 192, 224, 256,
        ],
        (Version::Mpeg2, Layer::LayerII) | (Version::Mpeg25, Layer::LayerII) | (
            Version::Mpeg2,
            Layer::LayerIII,
        ) | (Version::Mpeg25, Layer::LayerIII) => [
            8, 16, 24, 32, 40, 48, 56, 64, 80, 96, 112, 128, 144, 160,
        ],
    };
    assert(row@ =~= bit_rates(version, layer));
    Some(row[(index - 1) as usize] * 1_000)
}

/// The sample rate of an index.
fn sample_rate_lookup(version: Version, index: u8) -> (r: Option<u32>)
    requires
        index < 4,
    ensures
        r == sample_rate_of(version, index as int),
        r matches Some(rate) ==> {
            &&& 8_000 <= rate <= 48_000
            &&& rate >= 32_000 <==> version is Mpeg1
        },
{
    if index == 3 {
        return None;
    }
    let row: [u32; 3] = match version {
        Version::Mpeg1 => [44_100, 48_000, 32_000],
        Version::Mpeg2 => [22_050, 24_000, 16_000],
        Version::Mpeg25 => [11_025, 12_000, 8_000],
    };
    Some(row[index as usize])
}

/// Every header that parses keeps to the bounds of its version and layer.
pub proof fn parsed_headers_are_valid(s: Seq<u8>)
    requires
        s.len() >= 4,
        header_of(s) is Some,
    ensures
        is_valid(header_of(s)->0),
{
    let h = header_of(s)->0;
    let index = s[2] as int / 16;
    let row = bit_rates(h.version, h.layer);
    assert(h.bit_rate == row[index - 1] * 1000);
    if h.layer is LayerI {
        lemma_quotient_bounds(12 * h.bit_rate, h.sample_rate as int, 2, 700);
    } else if h.samples_per_frame == 1152 {
        lemma_quotient_bounds(144 * h.bit_rate, h.sample_rate as int, 5, 2_900);
    } else {
        lemma_quotient_bounds(72 * h.bit_rate, h.sample_rate as int, 5, 2_900);
    }
}

/// Setting the padding bit adds one slot to a frame and changes nothing else: four
/// bytes in Layer I, one byte in the other layers.
pub proof fn padding_adds_one_slot(s: Seq<u8>, t: Seq<u8>)
    requires
        s.len() >= 4,
        t == s.update(2, (s[2] + 2) as u8),
        s[2] / 2 % 2 == 0,
        header_of(s) is Some,
    ensures
        header_of(t) is Some,
        ({
            let a = header_of(s)->0;
            let b = header_of(t)->0;
            &&& b.frame_length == a.frame_length + (if a.layer is LayerI {
                4int
            } else {
                1
            })
            &&& b == FrameHeader { padding: true, frame_length: b.frame_length, ..a }
        }),
{
    assert(t[2] as int / 16 == s[2] as int / 16);
    assert(t[2] as int / 4 % 4 == s[2] as int / 4 % 4);
    parsed_headers_are_valid(s);
    parsed_headers_are_valid(t);
}

/// Four bytes make a header exactly if they begin with eleven ones and no field holds a
/// reserved value: version 1, layer 0, bit rate 15 or, for the free format, 0, and
/// sample rate 3.
pub proof fn headers_are_told_by_their_fields(s: Seq<u8>)
    requires
        s.len() >= 4,
    ensures
        header_of(s) is Some <==> {
            &&& s[0] == 255
            &&& s[1] >= 224
            &&& s[1] / 8 % 4 != 1
            &&& s[1] / 2 % 4 != 0
            &&& 16 <= s[2] < 240
            &&& s[2] / 4 % 4 != 3
        },
{
    assert(s[1] / 32 == 7 <==> s[1] >= 224);
    assert(1 <= s[2] as int / 16 <= 14 <==> 16 <= s[2] < 240);
}

/// The version and the layer count down from the top value of their fields: 3 is
/// MPEG-1, 2 MPEG-2 and 0 MPEG-2.5; 3 is Layer I, 2 Layer II and 1 Layer III. A cleared
/// protection bit means that a checksum follows, a set padding bit one more slot, and
/// the channel modes are stereo, joint stereo, two monos and mono, in that order.
pub proof fn fields_are_read_from_their_bits(s: Seq<u8>)
    requires
        s.len() >= 4,
        header_of(s) is Some,
    ensures
        ({
            let h = header_of(s)->0;
            &&& h.version is Mpeg1 <==> s[1] / 8 % 4 == 3
            &&& h.version is Mpeg2 <==> s[1] / 8 % 4 == 2
            &&& h.version is Mpeg25 <==> s[1] / 8 % 4 == 0
            &&& h.layer is LayerI <==> s[1] / 2 % 4 == 3
            &&& h.layer is LayerII <==> s[1] / 2 % 4 == 2
            &&& h.layer is LayerIII <==> s[1] / 2 % 4 == 1
            &&& h.crc_protected <==> s[1] % 2 == 0
            &&& h.padding <==> s[2] / 2 % 2 == 1
            &&& h.channel_mode is Stereo <==> s[3] < 64
            &&& h.channel_mode is JointStereo <==> 64 <= s[3] < 128
            &&& h.channel_mode is DualMono <==> 128 <= s[3] < 192
            &&& h.channel_mode is Mono <==> s[3] >= 192
            &&& h.channel_mode.count() == if s[3] >= 192 {
                1u32
            } else {
                2
            }
        }),
{
    let b = s[3] as int;
    assert(b / 64 == 0 <==> b < 64);
    assert(b / 64 == 1 <==> 64 <= b < 128);
    assert(b / 64 == 2 <==> 128 <= b < 192);
}

/// The bit rates of MPEG-1 that the indices 1 to 14 name, in kbit/s: Layer I has every
/// multiple of 32 up to 448, Layer II and Layer III have the rates given here.
pub proof fn mpeg1_bit_rates(s: Seq<u8>)
    requires
        s.len() >= 4,
        header_of(s) is Some,
        header_of(s)->0.version is Mpeg1,
    ensures
        ({
            let h = header_of(s)->0;
            let i = s[2] as int / 16;
            &&& 1 <= i <= 14
            &&& h.layer is LayerI ==> h.bit_rate == 32_000 * i
            &&& h.layer is LayerII ==> {
                &&& i == 1 ==> h.bit_rate == 32_000
                &&& i == 2 ==> h.bit_rate == 48_000
                &&& i == 3 ==> h.bit_rate == 56_000
                &&& i == 4 ==> h.bit_rate == 64_000
                &&& i == 5 ==> h.bit_rate == 80_000
                &&& i == 6 ==> h.bit_rate == 96_000
                &&& i == 7 ==> h.bit_rate == 112_000
                &&& i == 8 ==> h.bit_rate == 128_000
                &&& i == 9 ==> h.bit_rate == 160_000
                &&& i == 10 ==> h.bit_rate == 192_000
                &&& i == 11 ==> h.bit_rate == 224_000
                &&& i == 12 ==> h.bit_rate == 256_000
                &&& i == 13 ==> h.bit_rate == 320_000
                &&& i == 14 ==> h.bit_rate == 384_000
            }
            &&& h.layer is LayerIII ==> {
                &&& i == 1 ==> h.bit_rate == 32_000
                &&& i == 2 ==> h.bit_rate == 40_000
                &&& i == 3 ==> h.bit_rate == 48_000
                &&& i == 4 ==> h.bit_rate == 56_000
                &&& i == 5 ==> h.bit_rate == 64_000
                &&& i == 6 ==> h.bit_rate == 80_000
                &&& i == 7 ==> h.bit_rate == 96_000
                &&& i == 8 ==> h.bit_rate == 112_000
                &&& i == 9 ==> h.bit_rate == 128_000
                &&& i == 10 ==> h.bit_rate == 160_000
                &&& i == 11 ==> h.bit_rate == 192_000
                &&& i == 12 ==> h.bit_rate == 224_000
                &&& i == 13 ==> h.bit_rate == 256_000
                &&& i == 14 ==> h.bit_rate == 320_000
            }
        }),
{
}

/// The bit rates of MPEG-2 and MPEG-2.5 that the indices 1 to 14 name, in kbit/s:
/// Layer II and Layer III share theirs, in steps of 8 up to 64 and of 16 up to 160.
pub proof fn low_rate_bit_rates(s: Seq<u8>)
    requires
        s.len() >= 4,
        header_of(s) is Some,
        !(header_of(s)->0.version is Mpeg1),
    ensures
        ({
            let h = header_of(s)->0;
            let i = s[2] as int / 16;
            &&& 1 <= i <= 14
            &&& h.layer is LayerI ==> {
                &&& i == 1 ==> h.bit_rate == 32_000
                &&& i == 2 ==> h.bit_rate == 48_000
                &&& i == 3 ==> h.bit_rate == 56_000
                &&& i == 4 ==> h.bit_rate == 64_000
                &&& i == 5 ==> h.bit_rate == 80_000
                &&& i == 6 ==> h.bit_rate == 96_000
                &&& i == 7 ==> h.bit_rate == 112_000
                &&& i == 8 ==> h.bit_rate == 128_000
                &&& i == 9 ==> h.bit_rate == 144_000
                &&& i == 10 ==> h.bit_rate == 160_000
                &&& i == 11 ==> h.bit_rate == 176_000
                &&& i == 12 ==> h.bit_rate == 192_000
                &&& i == 13 ==> h.bit_rate == 224_000
                &&& i == 14 ==> h.bit_rate == 256_000
            }
            &&& !(h.layer is LayerI) ==> h.bit_rate == if i <= 8 {
                8_000 * i
            } else {
                16_000 * (i - 4)
            }
        }),
{
}

/// From index 5 on the bit rates of MPEG-1 Layer III double every four steps, and those
/// of Layer II from index 4 on; within one version and layer a higher index always
/// names a higher rate.
pub proof fn bit_rates_grow(s: Seq<u8>, t: Seq<u8>)
    requires
        s.len() >= 4,
        t.len() >= 4,
        header_of(s) is Some,
        header_of(t) is Some,
        header_of(s)->0.version == header_of(t)->0.version,
        header_of(s)->0.layer == header_of(t)->0.layer,
    ensures
        ({
            let a = header_of(s)->0;
            let b = header_of(t)->0;
            let i = s[2] as int / 16;
            let j = t[2] as int / 16;
            &&& i < j <==> a.bit_rate < b.bit_rate
            &&& a.version is Mpeg1 && a.layer is LayerIII && i >= 5 && j == i + 4 ==> b.bit_rate
                == 2 * a.bit_rate
            &&& a.version is Mpeg1 && a.layer is LayerII && 4 <= i <= 9 && j == i + 4
                ==> b.bit_rate == 2 * a.bit_rate
        }),
{
    if header_of(s)->0.version is Mpeg1 {
        mpeg1_bit_rates(s);
        mpeg1_bit_rates(t);
    } else {
        low_rate_bit_rates(s);
        low_rate_bit_rates(t);
    }
}

/// MPEG-1 has 44.1, 48 and 32 kHz under the indices 0, 1 and 2; MPEG-2 halves these
/// rates and MPEG-2.5 halves them again.
pub proof fn sample_rates_halve(s: Seq<u8>)
    requires
        s.len() >= 4,
        header_of(s) is Some,
    ensures
        ({
            let h = header_of(s)->0;
            let i = s[2] as int / 4 % 4;
            let times = match h.version {
                Version::Mpeg1 => 1int,
                Version::Mpeg2 => 2,
                Version::Mpeg25 => 4,
            };
            &&& 0 <= i <= 2
            &&& i == 0 ==> h.sample_rate * times == 44_100
            &&& i == 1 ==> h.sample_rate * times == 48_000
            &&& i == 2 ==> h.sample_rate * times == 32_000
        }),
{
}

/// A frame has 384 samples in Layer I and 1152 otherwise, but half as many in Layer III
/// of MPEG-2 and MPEG-2.5. It is as many whole slots long as these samples fill at its
/// bit rate, and one more where it is padded; a slot has four bytes in Layer I and one
/// byte otherwise.
pub proof fn frames_last_as_long_as_their_samples(s: Seq<u8>)
    requires
        s.len() >= 4,
        header_of(s) is Some,
    ensures
        ({
            let h = header_of(s)->0;
            let slot = if h.layer is LayerI {
                4int
            } else {
                1
            };
            let plain = if h.padding {
                h.frame_length - slot
            } else {
                h.frame_length as int
            };
            &&& h.layer is LayerI ==> h.samples_per_frame == 384
            &&& h.layer is LayerII ==> h.samples_per_frame == 1152
            &&& h.layer is LayerIII && h.version is Mpeg1 ==> h.samples_per_frame == 1152
            &&& h.layer is LayerIII && !(h.version is Mpeg1) ==> h.samples_per_frame == 576
            &&& plain % slot == 0
            &&& plain * 8 * h.sample_rate <= h.samples_per_frame * h.bit_rate < (plain + slot) * 8
                * h.sample_rate
        }),
{
    let h = header_of(s)->0;
    parsed_headers_are_valid(s);
    let rate = h.sample_rate as int;
    let bits = h.bit_rate as int;
    if h.layer is LayerI {
        lemma_slots(12 * bits, rate);
        let k = 12 * bits / rate;
        assert((k * 4) * 8 * rate <= 384 * bits < (k * 4 + 4) * 8 * rate) by (nonlinear_arith)
            requires
                k * rate <= 12 * bits < (k + 1) * rate,
        ;
    } else if h.samples_per_frame == 1152 {
        lemma_slots(144 * bits, rate);
        let k = 144 * bits / rate;
        assert(k * 8 * rate <= 1152 * bits < (k + 1) * 8 * rate) by (nonlinear_arith)
            requires
                k * rate <= 144 * bits < (k + 1) * rate,
        ;
    } else {
        lemma_slots(72 * bits, rate);
        let k = 72 * bits / rate;
        assert(k * 8 * rate <= 576 * bits < (k + 1) * 8 * rate) by (nonlinear_arith)
            requires
                k * rate <= 72 * bits < (k + 1) * rate,
        ;
    }
}

proof fn lemma_slots(n: int, d: int)
    requires
        n >= 0,
        d > 0,
    ensures
        n / d * d <= n < (n / d + 1) * d,
{
    vstd::arithmetic::div_mod::lemma_fundamental_div_mod(n, d);
    assert(n / d * d <= n < (n / d + 1) * d) by (nonlinear_arith)
        requires
            d > 0,
            n == d * (n / d) + n % d,
            0 <= n % d < d,
    ;
}

/// Each variant is called by its own name.
pub proof fn names_are_those_of_the_variants(v: Version, l: Layer, m: ChannelMode)
    ensures
        v is Mpeg1 ==> v.label() == "Mpeg1"@,
        v is Mpeg2 ==> v.label() == "Mpeg2"@,
        v is Mpeg25 ==> v.label() == "Mpeg25"@,
        l is LayerI ==> l.label() == "LayerI"@,
        l is LayerII ==> l.label() == "LayerII"@,
        l is LayerIII ==> l.label() == "LayerIII"@,
        m is Stereo ==> m.label() == "Stereo"@,
        m is JointStereo ==> m.label() == "JointStereo"@,
        m is DualMono ==> m.label() == "DualMono"@,
        m is Mono ==> m.label() == "Mono"@,
        m.count() == 1 <==> m is Mono,
        m.count() == 2 <==> !(m is Mono),
{
}

} // verus!
