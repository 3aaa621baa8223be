//! The magic cookie of Apple Lossless: 24 bytes, each field most significant byte
//! first, which an optional channel layout may follow.

use vstd::prelude::*;

use crate::bytes::{
    be16, be16_bytes, be16_reads_back, be32, be32_array, be32_bytes, be32_reads_back,
    be16_writes_back, be32_writes_back, read_be16, read_be32,
};
use crate::sys::{
    K_AF_APPLE_LOSSLESS_16_BIT, K_AF_APPLE_LOSSLESS_20_BIT, K_AF_APPLE_LOSSLESS_24_BIT,
    K_AF_APPLE_LOSSLESS_32_BIT,
};

verus! {

/// Length of the mandatory part of a magic cookie.
pub const SPECIFIC_CONFIG_LEN: usize = 24;

/// Frames in a packet unless something else is asked for.
pub const DEFAULT_FRAME_LENGTH: u32 = 4096;

/// The mandatory part of a magic cookie.
#[derive(Clone, Copy, Debug, PartialEq, Eq, Structural)]
pub struct AlacSpecificConfig {
    /// Frames per packet.
    pub frame_length: u32,
    /// Always 0.
    pub compatible_version: u8,
    /// Bits per sample of the source.
    pub bit_depth: u8,
    /// Tuning parameter.
    pub pb: u8,
    /// Tuning parameter.
    pub mb: u8,
    /// Tuning parameter.
    pub kb: u8,
    /// Channels.
    pub num_channels: u8,
    /// Unused.
    pub max_run: u16,
    /// Largest packet in bytes, 0 where unknown.
    pub max_frame_bytes: u32,
    /// Average bit rate, 0 where unknown.
    pub avg_bit_rate: u32,
    /// Sample rate in hertz.
    pub sample_rate: u32,
}

/// The configuration of a stream with the recommended tuning.
pub open spec fn default_config(
    sample_rate: u32,
    num_channels: u8,
    bit_depth: u8,
) -> AlacSpecificConfig {
    AlacSpecificConfig {
        frame_length: DEFAULT_FRAME_LENGTH,
        compatible_version: 0,
        bit_depth,
        pb: 40,
        mb: 10,
        kb: 14,
        num_channels,
        max_run: 255,
        max_frame_bytes: 0,
        avg_bit_rate: 0,
        sample_rate,
    }
}

/// The 24 bytes of a configuration.
pub open spec fn config_bytes(c: AlacSpecificConfig) -> Seq<u8> {
    be32_bytes(c.frame_length as int) + seq![
        c.compatible_version,
        c.bit_depth,
        c.pb,
        c.mb,
        c.kb,
        c.num_channels,
    ] + be16_bytes(c.max_run as int) + be32_bytes(c.max_frame_bytes as int) + be32_bytes(
        c.avg_bit_rate as int,
    ) + be32_bytes(c.sample_rate as int)
}

/// What a magic cookie says; `None` if it has fewer than 24 bytes.
pub open spec fn config_of(s: Seq<u8>) -> Option<AlacSpecificConfig> {
    if s.len() < SPECIFIC_CONFIG_LEN {
        None
    } else {
        Some(
            AlacSpecificConfig {
                frame_length: be32(s, 0) as u32,
                compatible_version: s[4],
                bit_depth: s[5],
                pb: s[6],
                mb: s[7],
                kb: s[8],
                num_channels: s[9],
                max_run: be16(s, 10) as u16,
                max_frame_bytes: be32(s, 12) as u32,
                avg_bit_rate: be32(s, 16) as u32,
                sample_rate: be32(s, 20) as u32,
            },
        )
    }
}

impl AlacSpecificConfig {
    /// The configuration of a stream with the recommended tuning.
    pub fn new(sample_rate: u32, num_channels: u8, bit_depth: u8) -> (c: AlacSpecificConfig)
        ensures
            c == default_config(sample_rate, num_channels, bit_depth),
    {
        AlacSpecificConfig {
            frame_length: DEFAULT_FRAME_LENGTH,
            compatible_version: 0,
            bit_depth,
            pb: 40,
            mb: 10,
            kb: 14,
            num_channels,
            max_run: 255,
            max_frame_bytes: 0,
            avg_bit_rate: 0,
            sample_rate,
        }
    }

    /// The 24 bytes of the configuration.
    pub fn to_bytes(self) -> (out: [u8; 24])
        ensures
            out@ == config_bytes(self),
    {
        let a = be32_array(self.frame_length);
        let b = be32_array(self.max_frame_bytes);
        let c = be32_array(self.avg_bit_rate);
        let d = be32_array(self.sample_rate);
        let out: [u8; 24] = [
            a[0],
            a[1],
            a[2],
            a[3],
            self.compatible_version,
            self.bit_depth,
            self.pb,
            self.mb,
            self.kb,
            self.num_channels,
            (self.max_run / 0x100) as u8,
            (self.max_run % 0x100) as u8,
            b[0],
            b[1],
            b[2],
            b[3],
            c[0],
            c[1],
            c[2],
            c[3],
            d[0],
            d[1],
            d[2],
            d[3],
        ];
        proof {
            assert(out@.subrange(0, 4) =~= a@);
            assert(out@.subrange(10, 12) =~= be16_bytes(self.max_run as int));
            assert(out@.subrange(12, 16) =~= b@);
            assert(out@.subrange(16, 20) =~= c@);
            assert(out@.subrange(20, 24) =~= d@);
            assert(out@ =~= out@.subrange(0, 4) + seq![
                self.compatible_version,
                self.bit_depth,
                self.pb,
                self.mb,
                self.kb,
                self.num_channels,
            ] + out@.subrange(10, 12) + out@.subrange(12, 16) + out@.subrange(16, 20)
                + out@.subrange(20, 24));
        }
        out
    }

    /// Parse the mandatory part of a magic cookie; what follows it is ignored.
    pub fn parse(bytes: &[u8]) -> (r: Option<AlacSpecificConfig>)
        ensures
            r == config_of(bytes@),
    {
        if bytes.len() < SPECIFIC_CONFIG_LEN {
            return None;
        }
        Some(
            AlacSpecificConfig {
                frame_length: read_be32(bytes, 0),
                compatible_version: bytes[4],
                bit_depth: bytes[5],
                pb: bytes[6],
                mb: bytes[7],
                kb: bytes[8],
                num_channels: bytes[9],
                max_run: read_be16(bytes, 10),
                max_frame_bytes: read_be32(bytes, 12),
                avg_bit_rate: read_be32(bytes, 16),
                sample_rate: read_be32(bytes, 20),
            },
        )
    }
}

/// The flag that declares a bit depth to the framework, for 16, 20, 24 and 32 bits.
pub open spec fn depth_flag(bit_depth: u8) -> Option<u32> {
    if bit_depth == 16 {
        Some(K_AF_APPLE_LOSSLESS_16_BIT)
    } else if bit_depth == 20 {
        Some(K_AF_APPLE_LOSSLESS_20_BIT)
    } else if bit_depth == 24 {
        Some(K_AF_APPLE_LOSSLESS_24_BIT)
    } else if bit_depth == 32 {
        Some(K_AF_APPLE_LOSSLESS_32_BIT)
    } else {
        None
    }
}

/// The flag that declares a bit depth to the framework.
pub fn bit_depth_flag(bit_depth: u8) -> (flag: Option<u32>)
    ensures
        flag == depth_flag(bit_depth),
{
    match bit_depth {
        16 => Some(K_AF_APPLE_LOSSLESS_16_BIT),
        20 => Some(K_AF_APPLE_LOSSLESS_20_BIT),
        24 => Some(K_AF_APPLE_LOSSLESS_24_BIT),
        32 => Some(K_AF_APPLE_LOSSLESS_32_BIT),
        _ => None,
    }
}

/// A magic cookie says what it was made from, whatever follows it.
pub proof fn config_round_trips(c: AlacSpecificConfig, rest: Seq<u8>)
    ensures
        config_bytes(c).len() == SPECIFIC_CONFIG_LEN,
        config_of(config_bytes(c) + rest) == Some(c),
{
    let s = config_bytes(c) + rest;
    assert(s.subrange(0, 4) =~= be32_bytes(c.frame_length as int));
    assert(s.subrange(10, 12) =~= be16_bytes(c.max_run as int));
    assert(s.subrange(12, 16) =~= be32_bytes(c.max_frame_bytes as int));
    assert(s.subrange(16, 20) =~= be32_bytes(c.avg_bit_rate as int));
    assert(s.subrange(20, 24) =~= be32_bytes(c.sample_rate as int));
    be32_reads_back(s, 0, c.frame_length as int);
    be16_reads_back(s, 10, c.max_run as int);
    be32_reads_back(s, 12, c.max_frame_bytes as int);
    be32_reads_back(s, 16, c.avg_bit_rate as int);
    be32_reads_back(s, 20, c.sample_rate as int);
}

/// The mandatory part of a magic cookie is written back byte for byte.
pub proof fn config_writes_back(s: Seq<u8>)
    requires
        config_of(s) is Some,
    ensures
        config_bytes(config_of(s)->0) == s.subrange(0, SPECIFIC_CONFIG_LEN as int),
{
    be32_writes_back(s, 0);
    be16_writes_back(s, 10);
    be32_writes_back(s, 12);
    be32_writes_back(s, 16);
    be32_writes_back(s, 20);
    assert(s.subrange(0, 24) =~= s.subrange(0, 4) + seq![s[4], s[5], s[6], s[7], s[8], s[9]]
        + s.subrange(10, 12) + s.subrange(12, 16) + s.subrange(16, 20) + s.subrange(20, 24));
}

/// Where the fields of a magic cookie lie, and that 24 bytes are all that it needs.
pub proof fn config_layout(s: Seq<u8>)
    ensures
        config_of(s) is Some <==> s.len() >= 24,
        config_of(s) matches Some(c) ==> {
            &&& c.frame_length == ((s[0] * 256 + s[1]) * 256 + s[2]) * 256 + s[3]
            &&& c.compatible_version == s[4]
            &&& c.bit_depth == s[5]
            &&& c.pb == s[6]
            &&& c.mb == s[7]
            &&& c.kb == s[8]
            &&& c.num_channels == s[9]
            &&& c.max_run == s[10] * 256 + s[11]
            &&& c.max_frame_bytes == ((s[12] * 256 + s[13]) * 256 + s[14]) * 256 + s[15]
            &&& c.avg_bit_rate == ((s[16] * 256 + s[17]) * 256 + s[18]) * 256 + s[19]
            &&& c.sample_rate == ((s[20] * 256 + s[21]) * 256 + s[22]) * 256 + s[23]
        },
{
}

/// The recommended tuning: packets of 4096 frames, 40, 10 and 14 for the three
/// parameters and a run of 255; sizes and rates that are not known are 0.
pub proof fn recommended_tuning(sample_rate: u32, num_channels: u8, bit_depth: u8)
    ensures
        ({
            let c = default_config(sample_rate, num_channels, bit_depth);
            &&& c.frame_length == 4096
            &&& c.compatible_version == 0
            &&& c.pb == 40 && c.mb == 10 && c.kb == 14
            &&& c.max_run == 255
            &&& c.max_frame_bytes == 0
            &&& c.avg_bit_rate == 0
            &&& c.sample_rate == sample_rate
            &&& c.num_channels == num_channels
            &&& c.bit_depth == bit_depth
        }),
        DEFAULT_FRAME_LENGTH == 4096,
        SPECIFIC_CONFIG_LEN == 24,
{
}

/// Only the depths 16, 20, 24 and 32 can be declared, by the flags 1 to 4 in that order.
pub proof fn depth_flags(bits: u8)
    ensures
        depth_flag(bits) is Some <==> bits == 16 || bits == 20 || bits == 24 || bits == 32,
        bits == 16 ==> depth_flag(bits) == Some(1u32),
        bits == 20 ==> depth_flag(bits) == Some(2u32),
        bits == 24 ==> depth_flag(bits) == Some(3u32),
        bits == 32 ==> depth_flag(bits) == Some(4u32),
{
}

} // verus!
