//! Opus packets and identification headers (RFC 6716, RFC 7845).
//!
//! A packet begins with a table-of-contents byte: five bits of configuration, a
//! stereo bit and two bits of packet code. A stream begins with an identification
//! header: the magic `OpusHead`, then a body of at least 11 bytes.

use vstd::prelude::*;
use vstd::slice::slice_subrange;

use crate::bytes::{
    be32, copy_range, le16, le16_bytes, le32, le32_bytes, push_bytes, push_le16, push_le32,
    read_be32, read_le16, read_le32,
};

verus! {

/// Length of the shortest identification header, magic included.
pub const OPUS_HEAD_MIN_LEN: usize = 19;

/// Length of the magic.
pub const OPUS_HEAD_MAGIC_LEN: usize = 8;

/// The magic, `OpusHead`.
pub const OPUS_HEAD_MAGIC: [u8; 8] = [0x4F, 0x70, 0x75, 0x73, 0x48, 0x65, 0x61, 0x64];

/// Samples at 48 kHz that a decoder drops at the start of a stream.
pub const DEFAULT_PRE_SKIP: u16 = 3_840;

/// Samples in a packet of 20 ms at 48 kHz.
pub const DEFAULT_FRAMES_PER_PACKET_48K: u32 = 960;

/// Length of the cookie that the framework's encoder vends.
pub const AT_COMPRESSION_COOKIE_LEN: usize = 28;

/// A sample rate that Opus works at.
pub open spec fn is_opus_rate(rate: u32) -> bool {
    rate == 8_000 || rate == 12_000 || rate == 16_000 || rate == 24_000 || rate == 48_000
}

/// The coding mode of a packet.
#[derive(Clone, Copy, Debug, PartialEq, Eq, Structural)]
pub enum OpusMode {
    /// Linear prediction.
    Silk,
    /// Linear prediction and transform.
    Hybrid,
    /// Transform.
    Celt,
}

/// The audio bandwidth of a packet.
#[derive(Clone, Copy, Debug, PartialEq, Eq, Structural)]
pub enum OpusBandwidth {
    /// Narrowband, 8 kHz inside.
    Nb,
    /// Mediumband, 12 kHz inside.
    Mb,
    /// Wideband, 16 kHz inside.
    Wb,
    /// Super-wideband, 24 kHz inside.
    Swb,
    /// Fullband, 48 kHz inside.
    Fb,
}

impl OpusBandwidth {
    /// The internal sample rate in hertz.
    pub open spec fn rate(self) -> u32 {
        match self {
            OpusBandwidth::Nb => 8_000,
            OpusBandwidth::Mb => 12_000,
            OpusBandwidth::Wb => 16_000,
            OpusBandwidth::Swb => 24_000,
            OpusBandwidth::Fb => 48_000,
        }
    }

    /// The internal sample rate in hertz.
    pub fn internal_sample_rate(self) -> (rate: u32)
        ensures
            rate == self.rate(),
    {
        match self {
            OpusBandwidth::Nb => 8_000,
            OpusBandwidth::Mb => 12_000,
            OpusBandwidth::Wb => 16_000,
            OpusBandwidth::Swb => 24_000,
            OpusBandwidth::Fb => 48_000,
        }
    }
}

/// How many frames a packet holds.
#[derive(Clone, Copy, Debug, PartialEq, Eq, Structural)]
pub enum PacketCode {
    /// One frame.
    Single,
    /// Two frames of one size.
    DoubleEqual,
    /// Two frames of two sizes.
    DoubleUnequal,
    /// Any number of frames.
    Arbitrary,
}

/// The packet code of the two low bits of `bits`.
pub open spec fn code_of(bits: u8) -> PacketCode {
    if bits % 4 == 0 {
        PacketCode::Single
    } else if bits % 4 == 1 {
        PacketCode::DoubleEqual
    } else if bits % 4 == 2 {
        PacketCode::DoubleUnequal
    } else {
        PacketCode::Arbitrary
    }
}

impl PacketCode {
    /// The packet code of the two low bits of `bits`.
    pub fn from_bits(bits: u8) -> (code: PacketCode)
        ensures
            code == code_of(bits),
    {
        match bits % 4 {
            0 => PacketCode::Single,
            1 => PacketCode::DoubleEqual,
            2 => PacketCode::DoubleUnequal,
            _ => PacketCode::Arbitrary,
        }
    }
}

/// A table-of-contents byte.
#[derive(Clone, Copy, Debug, PartialEq, Eq, Structural)]
pub struct Toc {
    /// Configuration, 0 to 31.
    pub config: u8,
    /// Coding mode.
    pub mode: OpusMode,
    /// Audio bandwidth.
    pub bandwidth: OpusBandwidth,
    /// Duration of a frame in tenths of a millisecond.
    pub frame_duration_tenths_ms: u16,
    /// Whether the packet is stereo.
    pub stereo: bool,
    /// How many frames the packet holds.
    pub code: PacketCode,
}

/// The coding mode of a configuration: 12 of SILK, 4 of hybrid, 16 of CELT.
pub open spec fn mode_of(config: u8) -> OpusMode {
    if config < 12 {
        OpusMode::Silk
    } else if config < 16 {
        OpusMode::Hybrid
    } else {
        OpusMode::Celt
    }
}

/// The audio bandwidth of a configuration.
pub open spec fn bandwidth_of(config: u8) -> OpusBandwidth {
    if config < 4 || 16 <= config < 20 {
        OpusBandwidth::Nb
    } else if config < 8 {
        OpusBandwidth::Mb
    } else if config < 12 || 20 <= config < 24 {
        OpusBandwidth::Wb
    } else if config < 14 || 24 <= config < 28 {
        OpusBandwidth::Swb
    } else {
        OpusBandwidth::Fb
    }
}

/// The frame durations of a coding mode, in tenths of a millisecond, in the order
/// of the configurations that name them.
pub open spec fn durations_of(mode: OpusMode) -> Seq<u16> {
    match mode {
        OpusMode::Silk => seq![100, 200, 400, 600],
        OpusMode::Hybrid => seq![100, 200],
        OpusMode::Celt => seq![25, 50, 100, 200],
    }
}

/// The frame duration of a configuration.
pub open spec fn duration_of(config: u8) -> u16 {
    let durations = durations_of(mode_of(config));
    durations[config as int % durations.len() as int]
}

/// The table of contents that a byte makes.
pub open spec fn toc_of(b: u8) -> Toc {
    let config = (b / 8) as u8;
    Toc {
        config,
        mode: mode_of(config),
        bandwidth: bandwidth_of(config),
        frame_duration_tenths_ms: duration_of(config),
        stereo: b / 4 % 2 == 1,
        code: code_of(b),
    }
}

impl Toc {
    /// Parse the table of contents of a packet; `None` only if the packet is empty.
    pub fn parse(bytes: &[u8]) -> (r: Option<Toc>)
        ensures
            r == if bytes@.len() == 0 {
                None
            } else {
                Some(toc_of(bytes@[0]))
            },
    {
        if bytes.len() == 0 {
            return None;
        }
        let b: u8 = bytes[0];
        let config: u8 = b / 8;
        let (mode, bandwidth, duration) = config_to_params(config);
        Some(
            Toc {
                config,
                mode,
                bandwidth,
                frame_duration_tenths_ms: duration,
                stereo: b / 4 % 2 == 1,
                code: PacketCode::from_bits(b),
            },
        )
    }

    /// The number of channels.
    pub fn channels(&self) -> (n: u8)
        ensures
            n == if self.stereo {
                2int
            } else {
                1
            },
    {
        if self.stereo {
            2
        } else {
            1
        }
    }

    /// PCM samples per channel of a frame at 48 kHz.
    pub fn frame_size_at_48khz(&self) -> (n: u32)
        ensures
            n == self.frame_duration_tenths_ms as int * 48 / 10,
    {
        self.frame_duration_tenths_ms as u32 * 48 / 10
    }
}

/// The mode, bandwidth and frame duration of a configuration.
fn config_to_params(config: u8) -> (r: (OpusMode, OpusBandwidth, u16))
    requires
        config < 32,
    ensures
        r == (mode_of(config), bandwidth_of(config), duration_of(config)),
{
    let silk: [u16; 4] = [100, 200, 400, 600];
    let hybrid: [u16; 2] = [100, 200];
    let celt: [u16; 4] = [25, 50, 100, 200];
    match config {
        0..=3 => (OpusMode::Silk, OpusBandwidth::Nb, silk[(config % 4) as usize]),
        4..=7 => (OpusMode::Silk, OpusBandwidth::Mb, silk[(config % 4) as usize]),
        8..=11 => (OpusMode::Silk, OpusBandwidth::Wb, silk[(config % 4) as usize]),
        12..=13 => (OpusMode::Hybrid, OpusBandwidth::Swb, hybrid[(config % 2) as usize]),
        14..=15 => (OpusMode::Hybrid, OpusBandwidth::Fb, hybrid[(config % 2) as usize]),
        16..=19 => (OpusMode::Celt, OpusBandwidth::Nb, celt[(config % 4) as usize]),
        20..=23 => (OpusMode::Celt, OpusBandwidth::Wb, celt[(config % 4) as usize]),
        24..=27 => (OpusMode::Celt, OpusBandwidth::Swb, celt[(config % 4) as usize]),
        _ => (OpusMode::Celt, OpusBandwidth::Fb, celt[(config % 4) as usize]),
    }
}

/// Every frame that a table of contents can announce is one of 120, 240, 480, 960,
/// 1920 and 2880 samples long at 48 kHz.
pub proof fn frame_sizes(b: u8)
    ensures
        ({
            let n = toc_of(b).frame_duration_tenths_ms as int * 48 / 10;
            n == 120 || n == 240 || n == 480 || n == 960 || n == 1920 || n == 2880
        }),
{
    let config = (b / 8) as u8;
    let k = config as int % durations_of(mode_of(config)).len() as int;
    assert(k == 0 || k == 1 || k == 2 || k == 3);
}

/// An identification header.
#[derive(Clone, Debug, PartialEq, Eq)]
pub struct OpusHead {
    /// Version; its upper four bits are 0.
    pub version: u8,
    /// Channels.
    pub channel_count: u8,
    /// Samples at 48 kHz to drop from the start.
    pub pre_skip: u16,
    /// Sample rate of the source in hertz.
    pub input_sample_rate: u32,
    /// Gain in 1/256 dB.
    pub output_gain: i16,
    /// 0 for mono and stereo; any other family has a mapping table.
    pub channel_mapping_family: u8,
    /// Stream count, coupled count and one byte a channel; empty for family 0.
    pub mapping_table: Vec<u8>,
}

/// An [`OpusHead`] with its mapping table as a sequence.
#[verifier::ext_equal]
pub struct OpusHeadView {
    pub version: u8,
    pub channel_count: u8,
    pub pre_skip: u16,
    pub input_sample_rate: u32,
    pub output_gain: i16,
    pub channel_mapping_family: u8,
    pub mapping_table: Seq<u8>,
}

impl View for OpusHead {
    type V = OpusHeadView;

    open spec fn view(&self) -> OpusHeadView {
        OpusHeadView {
            version: self.version,
            channel_count: self.channel_count,
            pre_skip: self.pre_skip,
            input_sample_rate: self.input_sample_rate,
            output_gain: self.output_gain,
            channel_mapping_family: self.channel_mapping_family,
            mapping_table: self.mapping_table@,
        }
    }
}

/// A header of family 0 without pre-skip or gain.
pub open spec fn plain_head(channel_count: u8, input_sample_rate: u32) -> OpusHeadView {
    OpusHeadView {
        version: 1,
        channel_count,
        pre_skip: 0,
        input_sample_rate,
        output_gain: 0,
        channel_mapping_family: 0,
        mapping_table: Seq::empty(),
    }
}

/// The signed number with the 16 bits of `v`.
pub open spec fn signed16(v: int) -> int {
    if v < 0x8000 {
        v
    } else {
        v - 0x1_0000
    }
}

/// The 16 bits of the signed number `v`.
pub open spec fn unsigned16(v: int) -> int {
    if v >= 0 {
        v
    } else {
        v + 0x1_0000
    }
}

/// `s` begins with the magic.
pub open spec fn has_magic(s: Seq<u8>) -> bool {
    s.len() >= OPUS_HEAD_MAGIC_LEN && s.subrange(0, 8) == OPUS_HEAD_MAGIC@
}

/// What the body of an identification header says.
pub open spec fn head_of_body(s: Seq<u8>) -> Option<OpusHeadView> {
    if s.len() < 11 || s[0] >= 16 || s[1] == 0 || (s[10] != 0 && s.len() < 13 + s[1]) {
        None
    } else {
        Some(
            OpusHeadView {
                version: s[0],
                channel_count: s[1],
                pre_skip: le16(s, 2) as u16,
                input_sample_rate: le32(s, 4) as u32,
                output_gain: signed16(le16(s, 8)) as i16,
                channel_mapping_family: s[10],
                mapping_table: if s[10] == 0 {
                    Seq::empty()
                } else {
                    s.subrange(11, 13 + s[1])
                },
            },
        )
    }
}

/// What an identification header says, with its magic or without. `None` if it is
/// too short, of another major version, without channels, or its mapping table is
/// cut off.
pub open spec fn head_of(s: Seq<u8>) -> Option<OpusHeadView> {
    if has_magic(s) {
        head_of_body(s.subrange(8, s.len() as int))
    } else {
        head_of_body(s)
    }
}

/// The body of an identification header.
pub open spec fn head_body_bytes(h: OpusHeadView) -> Seq<u8> {
    seq![h.version, h.channel_count] + le16_bytes(h.pre_skip as int) + le32_bytes(
        h.input_sample_rate as int,
    ) + le16_bytes(unsigned16(h.output_gain as int)) + seq![h.channel_mapping_family] + (
    if h.channel_mapping_family == 0 {
        Seq::empty()
    } else {
        h.mapping_table
    })
}

/// An identification header, magic included.
pub open spec fn head_packet_bytes(h: OpusHeadView) -> Seq<u8> {
    OPUS_HEAD_MAGIC@ + head_body_bytes(h)
}

/// A header that an identification header can hold.
pub open spec fn is_valid_head(h: OpusHeadView) -> bool {
    &&& h.version < 16
    &&& h.channel_count != 0
    &&& h.channel_mapping_family == 0 ==> h.mapping_table.len() == 0
    &&& h.channel_mapping_family != 0 ==> h.mapping_table.len() == 2 + h.channel_count
}

impl Default for OpusHead {
    fn default() -> (head: OpusHead)
        ensures
            head@ == plain_head(2, 48_000),
    {
        OpusHead::stereo(48_000)
    }
}

/// Whether `bytes` begins with the magic.
pub fn starts_with_magic(bytes: &[u8]) -> (yes: bool)
    ensures
        yes == has_magic(bytes@),
{
    if bytes.len() < OPUS_HEAD_MAGIC_LEN {
        return false;
    }
    let mut i: usize = 0;
    while i < OPUS_HEAD_MAGIC_LEN
        invariant
            i <= 8,
            bytes@.len() >= 8,
            forall|k: int| 0 <= k < i ==> bytes@[k] == OPUS_HEAD_MAGIC@[k],
        decreases 8 - i,
    {
        if bytes[i] != OPUS_HEAD_MAGIC[i] {
            assert(bytes@.subrange(0, 8)[i as int] != OPUS_HEAD_MAGIC@[i as int]);
            return false;
        }
        i = i + 1;
    }
    assert(bytes@.subrange(0, 8) =~= OPUS_HEAD_MAGIC@);
    true
}

impl OpusHead {
    /// A mono header.
    pub fn mono(input_sample_rate: u32) -> (head: OpusHead)
        ensures
            head@ == plain_head(1, input_sample_rate),
    {
        OpusHead {
            version: 1,
            channel_count: 1,
            pre_skip: 0,
            input_sample_rate,
            output_gain: 0,
            channel_mapping_family: 0,
            mapping_table: Vec::new(),
        }
    }

    /// A stereo header.
    pub fn stereo(input_sample_rate: u32) -> (head: OpusHead)
        ensures
            head@ == plain_head(2, input_sample_rate),
    {
        OpusHead {
            version: 1,
            channel_count: 2,
            pre_skip: 0,
            input_sample_rate,
            output_gain: 0,
            channel_mapping_family: 0,
            mapping_table: Vec::new(),
        }
    }

    /// Parse an identification header, with its magic or without.
    pub fn parse(bytes: &[u8]) -> (r: Option<OpusHead>)
        ensures
            match r {
                Some(h) => head_of(bytes@) == Some(h@),
                None => head_of(bytes@) is None,
            },
    {
        let body = if starts_with_magic(bytes) {
            slice_subrange(bytes, OPUS_HEAD_MAGIC_LEN, bytes.len())
        } else {
            bytes
        };
        if body.len() < OPUS_HEAD_MIN_LEN - OPUS_HEAD_MAGIC_LEN {
            return None;
        }
        let version: u8 = body[0];
        let channel_count: u8 = body[1];
        if version >= 16 || channel_count == 0 {
            return None;
        }
        let channel_mapping_family: u8 = body[10];
        let mapping_table: Vec<u8> = if channel_mapping_family == 0 {
            Vec::new()
        } else {
            let end: usize = 13 + channel_count as usize;
            if body.len() < end {
                return None;
            }
            copy_range(body, 11, end)
        };
        let gain: u16 = read_le16(body, 8);
        let output_gain: i16 = if gain < 0x8000 {
            gain as i16
        } else {
            (gain as i32 - 0x1_0000) as i16
        };
        Some(
            OpusHead {
                version,
                channel_count,
                pre_skip: read_le16(body, 2),
                input_sample_rate: read_le32(body, 4),
                output_gain,
                channel_mapping_family,
                mapping_table,
            },
        )
    }

    /// The body of the header, without its magic.
    pub fn to_body_bytes(&self) -> (out: Vec<u8>)
        ensures
            out@ == head_body_bytes(self@),
    {
        let mut out: Vec<u8> = Vec::with_capacity(OPUS_HEAD_MIN_LEN - OPUS_HEAD_MAGIC_LEN);
        out.push(self.version);
        out.push(self.channel_count);
        assert(out@ =~= seq![self.version, self.channel_count]);
        push_le16(&mut out, self.pre_skip);
        push_le32(&mut out, self.input_sample_rate);
        let gain: u16 = if self.output_gain >= 0 {
            self.output_gain as u16
        } else {
            (self.output_gain as i32 + 0x1_0000) as u16
        };
        push_le16(&mut out, gain);
        out.push(self.channel_mapping_family);
        if self.channel_mapping_family != 0 {
            push_bytes(&mut out, self.mapping_table.as_slice());
        }
        assert(out@ =~= head_body_bytes(self@));
        out
    }

    /// The header with its magic.
    pub fn to_packet_bytes(&self) -> (out: Vec<u8>)
        ensures
            out@ == head_packet_bytes(self@),
    {
        let mut out: Vec<u8> = Vec::with_capacity(OPUS_HEAD_MIN_LEN);
        push_bytes(&mut out, &OPUS_HEAD_MAGIC);
        push_bytes(&mut out, self.to_body_bytes().as_slice());
        assert(out@ =~= head_packet_bytes(self@));
        out
    }
}

/// What the framework's Opus encoder says of its stream in its magic cookie.
#[derive(Clone, Copy, Debug, PartialEq, Eq, Structural)]
pub struct AtCompressionCookie {
    /// Sample rate in hertz.
    pub sample_rate: u32,
    /// Frames per packet.
    pub frames_per_packet: u32,
    /// Channels.
    pub channel_count: u32,
}

/// What a 28-byte encoder cookie says; `None` if its length is another.
pub open spec fn encoder_cookie_of(s: Seq<u8>) -> Option<AtCompressionCookie> {
    if s.len() != AT_COMPRESSION_COOKIE_LEN {
        None
    } else {
        Some(
            AtCompressionCookie {
                sample_rate: be32(s, 4) as u32,
                frames_per_packet: be32(s, 8) as u32,
                channel_count: be32(s, 16) as u32,
            },
        )
    }
}

/// Parse the encoder's cookie; `None` if it is not 28 bytes long.
pub fn parse_at_compression_cookie(cookie: &[u8]) -> (r: Option<AtCompressionCookie>)
    ensures
        r == encoder_cookie_of(cookie@),
{
    if cookie.len() != AT_COMPRESSION_COOKIE_LEN {
        return None;
    }
    Some(
        AtCompressionCookie {
            sample_rate: read_be32(cookie, 4),
            frames_per_packet: read_be32(cookie, 8),
            channel_count: read_be32(cookie, 16),
        },
    )
}

proof fn lemma_le16(v: int)
    requires
        0 <= v < 0x1_0000,
    ensures
        le16(le16_bytes(v), 0) == v,
{
}

proof fn lemma_le32(v: int)
    requires
        0 <= v < 0x1_0000_0000,
    ensures
        le32(le32_bytes(v), 0) == v,
{
}

/// The body of a valid header says what it was made from.
pub proof fn head_body_round_trips(h: OpusHeadView)
    requires
        is_valid_head(h),
    ensures
        head_body_bytes(h).len() >= 11,
        head_of(head_body_bytes(h)) == Some(h),
{
    let s = head_body_bytes(h);
    let a = le16_bytes(h.pre_skip as int);
    let b = le32_bytes(h.input_sample_rate as int);
    let c = le16_bytes(unsigned16(h.output_gain as int));
    lemma_le16(h.pre_skip as int);
    lemma_le32(h.input_sample_rate as int);
    lemma_le16(unsigned16(h.output_gain as int));
    assert(s[0] == h.version && s[1] == h.channel_count && s[10] == h.channel_mapping_family);
    assert(s[2] == a[0] && s[3] == a[1]);
    assert(s[4] == b[0] && s[5] == b[1] && s[6] == b[2] && s[7] == b[3]);
    assert(s[8] == c[0] && s[9] == c[1]);
    assert(le16(s, 2) == h.pre_skip);
    assert(le32(s, 4) == h.input_sample_rate);
    assert(signed16(le16(s, 8)) == h.output_gain);
    if h.channel_mapping_family != 0 {
        assert(s.subrange(11, 13 + s[1]) =~= h.mapping_table);
    } else {
        assert(h.mapping_table =~= Seq::empty());
    }
    assert(s.subrange(0, 8)[0] != OPUS_HEAD_MAGIC@[0]);
    assert(!has_magic(s));
}

/// A valid header with its magic says what it was made from.
pub proof fn head_packet_round_trips(h: OpusHeadView)
    requires
        is_valid_head(h),
    ensures
        head_packet_bytes(h).len() >= OPUS_HEAD_MIN_LEN,
        head_of(head_packet_bytes(h)) == Some(h),
{
    let s = head_packet_bytes(h);
    head_body_round_trips(h);
    assert(s.subrange(0, 8) =~= OPUS_HEAD_MAGIC@);
    assert(s.subrange(8, s.len() as int) =~= head_body_bytes(h));
    let body = head_body_bytes(h);
    assert(body.subrange(0, 8)[0] != OPUS_HEAD_MAGIC@[0]);
}

/// Every header that parses is valid, so that it can be written and read again.
pub proof fn parsed_heads_are_valid(s: Seq<u8>)
    requires
        head_of(s) is Some,
    ensures
        is_valid_head(head_of(s)->0),
{
}

/// A header that came with its magic is written back byte for byte; what follows it is
/// left out.
pub proof fn head_writes_back(s: Seq<u8>)
    requires
        has_magic(s),
        head_of(s) is Some,
    ensures
        head_packet_bytes(head_of(s)->0).len() <= s.len(),
        head_packet_bytes(head_of(s)->0) == s.subrange(
            0,
            head_packet_bytes(head_of(s)->0).len() as int,
        ),
{
    let h = head_of(s)->0;
    let body = s.subrange(8, s.len() as int);
    let out = head_body_bytes(h);
    assert(le16_bytes(le16(body, 2)) =~= body.subrange(2, 4));
    assert(unsigned16(signed16(le16(body, 8))) == le16(body, 8));
    assert(le16_bytes(le16(body, 8)) =~= body.subrange(8, 10));
    assert(le32_bytes(le32(body, 4)) =~= body.subrange(4, 8)) by {
        lemma_le32_digits(body[4] as int, body[5] as int, body[6] as int, body[7] as int);
    }
    assert(out =~= body.subrange(0, out.len() as int));
    assert(s.subrange(0, 8) + body.subrange(0, out.len() as int) =~= s.subrange(
        0,
        8 + out.len() as int,
    ));
}

proof fn lemma_le32_digits(a: int, b: int, c: int, d: int)
    requires
        0 <= a < 256,
        0 <= b < 256,
        0 <= c < 256,
        0 <= d < 256,
    ensures
        ({
            let v = a + b * 0x100 + c * 0x1_0000 + d * 0x100_0000;
            &&& v / 0x100_0000 % 0x100 == d
            &&& v / 0x1_0000 % 0x100 == c
            &&& v / 0x100 % 0x100 == b
            &&& v % 0x100 == a
        }),
{
    let v = a + b * 0x100 + c * 0x1_0000 + d * 0x100_0000;
    assert(v / 0x100_0000 == d);
    assert(v / 0x1_0000 == d * 0x100 + c);
    assert(v / 0x100 == d * 0x1_0000 + c * 0x100 + b);
}

/// The coding modes and bandwidths of the 32 configurations, as RFC 6716 lays them out:
/// twelve of linear prediction, four to a bandwidth; four hybrid ones, two to a
/// bandwidth; and sixteen of the transform, four to a bandwidth.
pub proof fn configurations_have_their_mode(b: u8)
    ensures
        ({
            let t = toc_of(b);
            let c = b as int / 8;
            &&& t.config == c
            &&& t.mode is Silk <==> b < 96
            &&& t.mode is Hybrid <==> 96 <= b < 128
            &&& t.mode is Celt <==> 128 <= b
            &&& t.mode is Silk ==> {
                &&& c / 4 == 0 ==> t.bandwidth is Nb
                &&& c / 4 == 1 ==> t.bandwidth is Mb
                &&& c / 4 == 2 ==> t.bandwidth is Wb
            }
            &&& t.mode is Hybrid ==> {
                &&& c / 2 == 6 ==> t.bandwidth is Swb
                &&& c / 2 == 7 ==> t.bandwidth is Fb
            }
            &&& t.mode is Celt ==> {
                &&& c / 4 == 4 ==> t.bandwidth is Nb
                &&& c / 4 == 5 ==> t.bandwidth is Wb
                &&& c / 4 == 6 ==> t.bandwidth is Swb
                &&& c / 4 == 7 ==> t.bandwidth is Fb
            }
        }),
{
    let c = b as int / 8;
    assert(c < 12 <==> b < 96);
    assert(c < 16 <==> b < 128);
    assert(0 <= c < 32);
}

/// How long a frame lasts, in tenths of a millisecond: linear prediction has 10, 20, 40
/// and 60 ms, hybrid coding 10 and 20, and the transform begins at 2.5 ms and doubles
/// three times.
pub proof fn configurations_have_their_duration(b: u8)
    ensures
        ({
            let t = toc_of(b);
            let c = b as int / 8;
            let d = t.frame_duration_tenths_ms;
            &&& t.mode is Silk ==> {
                &&& c % 4 == 0 ==> d == 100
                &&& c % 4 == 1 ==> d == 200
                &&& c % 4 == 2 ==> d == 400
                &&& c % 4 == 3 ==> d == 600
            }
            &&& t.mode is Hybrid ==> d == 100 * (c % 2 + 1)
            &&& t.mode is Celt ==> {
                &&& c % 4 == 0 ==> d == 25
                &&& c % 4 == 1 ==> d == 2 * 25
                &&& c % 4 == 2 ==> d == 4 * 25
                &&& c % 4 == 3 ==> d == 8 * 25
            }
        }),
{
    let config = (b / 8) as u8;
    let k = config as int % durations_of(mode_of(config)).len() as int;
    assert(durations_of(mode_of(config)).len() == if mode_of(config) is Hybrid {
        2int
    } else {
        4
    });
}

/// The bit above the two lowest tells stereo, and the two lowest the frames of the
/// packet: one, two of a size, two of different sizes, any number.
pub proof fn low_bits_tell_the_frames(b: u8)
    ensures
        toc_of(b).stereo <==> b / 4 % 2 == 1,
        toc_of(b).code is Single <==> b % 4 == 0,
        toc_of(b).code is DoubleEqual <==> b % 4 == 1,
        toc_of(b).code is DoubleUnequal <==> b % 4 == 2,
        toc_of(b).code is Arbitrary <==> b % 4 == 3,
        code_of(b) == toc_of(b).code,
{
}

/// The bandwidths from the narrowest to the widest work at 8, 12, 16, 24 and 48 kHz, and
/// Opus works at no other rate.
pub proof fn bandwidths_have_their_rates(bandwidth: OpusBandwidth, rate: u32)
    ensures
        bandwidth is Nb ==> bandwidth.rate() == 8_000,
        bandwidth is Mb ==> bandwidth.rate() == 12_000,
        bandwidth is Wb ==> bandwidth.rate() == 16_000,
        bandwidth is Swb ==> bandwidth.rate() == 24_000,
        bandwidth is Fb ==> bandwidth.rate() == 48_000,
        is_opus_rate(bandwidth.rate()),
        is_opus_rate(rate) <==> rate == 8_000 || rate == 12_000 || rate == 16_000 || rate == 24_000
            || rate == 48_000,
{
}

/// Where the fields of an identification header lie, behind its magic or without one:
/// version, channels, then pre-skip, rate and gain with the lowest byte first, the
/// family and its table.
pub proof fn head_layout(s: Seq<u8>)
    requires
        head_of(s) is Some,
    ensures
        ({
            let h = head_of(s)->0;
            let at = if has_magic(s) {
                8int
            } else {
                0
            };
            &&& s.len() >= at + 11
            &&& h.version == s[at]
            &&& h.channel_count == s[at + 1]
            &&& h.pre_skip == s[at + 2] + 256 * s[at + 3]
            &&& h.input_sample_rate == s[at + 4] + 256 * (s[at + 5] + 256 * (s[at + 6] + 256 * s[at
                + 7]))
            &&& (h.output_gain - (s[at + 8] + 256 * s[at + 9])) % 0x1_0000 == 0
            &&& h.channel_mapping_family == s[at + 10]
            &&& s[at + 10] == 0 ==> h.mapping_table.len() == 0
            &&& s[at + 10] != 0 ==> h.mapping_table == s.subrange(at + 11, at + 13 + s[at + 1])
        }),
{
    let at = if has_magic(s) {
        8int
    } else {
        0
    };
    let body = s.subrange(at, s.len() as int);
    assert(body =~= if has_magic(s) {
        s.subrange(8, s.len() as int)
    } else {
        s
    });
    assert(head_of_body(body) == head_of(s));
    assert(forall|i: int| 0 <= i < body.len() ==> body[i] == s[at + i]);
    if s[at + 10] != 0 {
        assert(body.subrange(11, 13 + body[1]) =~= s.subrange(at + 11, at + 13 + s[at + 1]));
    }
}

/// An identification header is accepted exactly if, behind its magic, it has eleven
/// bytes, a version below 16, a channel, and, for any family but 0, two bytes of table
/// and one more for each channel.
pub proof fn heads_are_refused_for_four_reasons(s: Seq<u8>)
    ensures
        ({
            let at = if has_magic(s) {
                8int
            } else {
                0
            };
            head_of(s) is Some <==> {
                &&& s.len() >= at + 11
                &&& s[at] < 16
                &&& s[at + 1] > 0
                &&& s[at + 10] == 0 || s.len() >= at + 13 + s[at + 1]
            }
        }),
{
    if has_magic(s) {
        let body = s.subrange(8, s.len() as int);
        assert(forall|i: int| 0 <= i < body.len() ==> body[i] == s[8 + i]);
    }
}

/// The magic is the eight letters of `OpusHead`.
pub proof fn magic_is_spelled_out(s: Seq<u8>)
    ensures
        has_magic(s) <==> {
            &&& s.len() >= 8
            &&& s[0] == 'O' as u8 && s[1] == 'p' as u8 && s[2] == 'u' as u8 && s[3] == 's' as u8
            &&& s[4] == 'H' as u8 && s[5] == 'e' as u8 && s[6] == 'a' as u8 && s[7] == 'd' as u8
        },
        OPUS_HEAD_MAGIC_LEN == 8,
        OPUS_HEAD_MIN_LEN == 8 + 11,
{
    if s.len() >= 8 {
        let t = s.subrange(0, 8);
        assert(forall|i: int| 0 <= i < 8 ==> #[trigger] t[i] == s[i]);
        let m = OPUS_HEAD_MAGIC@;
        assert(m[0] == 0x4F && m[1] == 0x70 && m[2] == 0x75 && m[3] == 0x73 && m[4] == 0x48 && m[5]
            == 0x65 && m[6] == 0x61 && m[7] == 0x64);
        if s[0] == 'O' as u8 && s[1] == 'p' as u8 && s[2] == 'u' as u8 && s[3] == 's' as u8 && s[4]
            == 'H' as u8 && s[5] == 'e' as u8 && s[6] == 'a' as u8 && s[7] == 'd' as u8 {
            assert(t =~= m);
        }
    }
}

/// A plain header has version 1 and family 0 and neither pre-skip nor gain. By default 20
/// ms make a packet and 80 ms are dropped at the start of a stream, both at 48 kHz.
pub proof fn plain_heads(channel_count: u8, input_sample_rate: u32)
    ensures
        ({
            let h = plain_head(channel_count, input_sample_rate);
            &&& h.version == 1
            &&& h.channel_count == channel_count
            &&& h.input_sample_rate == input_sample_rate
            &&& h.pre_skip == 0
            &&& h.output_gain == 0
            &&& h.channel_mapping_family == 0
            &&& h.mapping_table.len() == 0
        }),
        DEFAULT_PRE_SKIP * 1_000 == 80 * 48_000,
        DEFAULT_FRAMES_PER_PACKET_48K * 1_000 == 20 * 48_000,
{
}

/// A gain and its 16 bits stand for each other.
pub proof fn gains_keep_their_bits(v: int)
    ensures
        -0x8000 <= v < 0x8000 ==> signed16(unsigned16(v)) == v && 0 <= unsigned16(v) < 0x1_0000
            && (unsigned16(v) - v) % 0x1_0000 == 0,
        0 <= v < 0x1_0000 ==> unsigned16(signed16(v)) == v,
{
}

/// The encoder's cookie has 28 bytes: rate, packet and channels stand in its second,
/// third and fifth word, most significant byte first.
pub proof fn encoder_cookie_layout(s: Seq<u8>)
    ensures
        encoder_cookie_of(s) is Some <==> s.len() == 28,
        encoder_cookie_of(s) matches Some(c) ==> {
            &&& c.sample_rate == ((s[4] * 256 + s[5]) * 256 + s[6]) * 256 + s[7]
            &&& c.frames_per_packet == ((s[8] * 256 + s[9]) * 256 + s[10]) * 256 + s[11]
            &&& c.channel_count == ((s[16] * 256 + s[17]) * 256 + s[18]) * 256 + s[19]
        },
{
}

/// A header shows every field of it.
pub proof fn heads_show_their_fields(h: OpusHead)
    ensures
        h@.version == h.version,
        h@.channel_count == h.channel_count,
        h@.pre_skip == h.pre_skip,
        h@.input_sample_rate == h.input_sample_rate,
        h@.output_gain == h.output_gain,
        h@.channel_mapping_family == h.channel_mapping_family,
        h@.mapping_table == h.mapping_table@,
{
}

/// The bytes of a header are the magic and its body; the body has eleven bytes and, for
/// any family but 0, the mapping table.
pub proof fn heads_are_written_in_order(h: OpusHeadView)
    ensures
        ({
            let s = head_packet_bytes(h);
            &&& has_magic(s)
            &&& s.skip(8) == head_body_bytes(h)
            &&& s[8] == h.version
            &&& s[9] == h.channel_count
            &&& s[10] + 256 * s[11] == h.pre_skip
            &&& s[12] + 256 * (s[13] + 256 * (s[14] + 256 * s[15])) == h.input_sample_rate
            &&& (h.output_gain - (s[16] + 256 * s[17])) % 0x1_0000 == 0
            &&& s[18] == h.channel_mapping_family
            &&& h.channel_mapping_family == 0 ==> s.len() == 19
            &&& h.channel_mapping_family != 0 ==> s.skip(19) == h.mapping_table
        }),
{
    let body = head_body_bytes(h);
    let s = head_packet_bytes(h);
    let a = le16_bytes(h.pre_skip as int);
    let b = le32_bytes(h.input_sample_rate as int);
    let c = le16_bytes(unsigned16(h.output_gain as int));
    assert(s.subrange(0, 8) =~= OPUS_HEAD_MAGIC@);
    assert(s.skip(8) =~= body);
    assert(s[8] == body[0] && s[9] == body[1] && s[18] == body[10]);
    assert(s[10] == a[0] && s[11] == a[1]);
    assert(s[12] == b[0] && s[13] == b[1] && s[14] == b[2] && s[15] == b[3]);
    assert(s[16] == c[0] && s[17] == c[1]);
    lemma_le16(h.pre_skip as int);
    lemma_le32(h.input_sample_rate as int);
    lemma_le16(unsigned16(h.output_gain as int));
    if h.channel_mapping_family != 0 {
        assert(s.skip(19) =~= h.mapping_table);
    }
}

} // verus!
