//! FLAC stream metadata: the STREAMINFO block, the `dfLa` magic cookie and the
//! fixed part of a frame header (RFC 9639).
//!
//! The framework takes a FLAC stream's metadata as a `dfLa` box: an 8-byte box
//! header, a 4-byte version-and-flags word, and a chain of metadata blocks of which the
//! first is a STREAMINFO block.

use vstd::arithmetic::div_mod::lemma_div_denominator;
use vstd::arithmetic::power2::{lemma2_to64, pow2};
use vstd::prelude::*;
use vstd::slice::slice_subrange;

use crate::bytes::{
    be16, be16_bytes, be16_reads_back, be16_writes_back, be24, be24_bytes, be24_reads_back,
    be24_writes_back, be32, be32_bytes, be64, be64_array, be64_bytes, be64_reads_back,
    be64_writes_back, push_be32, push_bytes, read_be16, read_be24, read_be32, read_be64,
};
use crate::sys::{
    K_AF_APPLE_LOSSLESS_16_BIT, K_AF_APPLE_LOSSLESS_20_BIT, K_AF_APPLE_LOSSLESS_24_BIT,
    K_AF_APPLE_LOSSLESS_32_BIT,
};

verus! {

/// Length of a STREAMINFO body.
pub const STREAMINFO_BODY_LEN: usize = 34;

/// Length of a metadata block header: a last-block bit, 7 bits of type, 24 bits of
/// length.
pub const METADATA_BLOCK_HEADER_LEN: usize = 4;

/// Length of the `fLaC` stream signature, which is no part of a magic cookie.
pub const FLAC_SIGNATURE_LEN: usize = 4;

/// The `fLaC` stream signature.
pub const FLAC_SIGNATURE: [u8; 4] = [0x66, 0x4C, 0x61, 0x43];

/// Length of a box header: four bytes of size, four of type.
pub const BOX_HEADER_LEN: usize = 8;

/// Length of the version-and-flags word of a `dfLa` box.
pub const FULLBOX_HEADER_LEN: usize = 4;

/// Length of the smallest magic cookie.
pub const MAGIC_COOKIE_MIN_LEN: usize = 50;

/// Length of the largest magic cookie that the framework takes.
pub const MAGIC_COOKIE_MAX_LEN: usize = 256;

/// The type of the FLAC-specific box, `dfLa`.
pub const DFLA_BOX_TYPE: [u8; 4] = [0x64, 0x66, 0x4C, 0x61];

/// The STREAMINFO block of a stream.
#[derive(Clone, Copy, Debug, PartialEq, Eq)]
pub struct StreamInfo {
    /// Smallest block size in samples.
    pub min_blocksize: u16,
    /// Largest block size in samples.
    pub max_blocksize: u16,
    /// Smallest frame size in bytes, 0 where unknown.
    pub min_framesize: u32,
    /// Largest frame size in bytes, 0 where unknown.
    pub max_framesize: u32,
    /// Sample rate in hertz.
    pub sample_rate: u32,
    /// Channels, 1 to 8.
    pub channels: u8,
    /// Bits per sample, 4 to 32.
    pub bits_per_sample: u8,
    /// Samples per channel, 0 where unknown.
    pub total_samples: u64,
    /// MD5 of the decoded PCM.
    pub md5: [u8; 16],
}

/// The fields of a STREAMINFO body. Bytes 10 to 17 pack 20 bits of sample rate, 3
/// bits of channels less one, 5 bits of sample width less one and 36 bits of
/// sample count.
pub open spec fn streaminfo_fields(s: Seq<u8>) -> StreamInfo {
    StreamInfo {
        min_blocksize: be16(s, 0) as u16,
        max_blocksize: be16(s, 2) as u16,
        min_framesize: be24(s, 4) as u32,
        max_framesize: be24(s, 7) as u32,
        sample_rate: (be64(s, 10) / 0x10_0000_0000 / 256) as u32,
        channels: (be64(s, 10) / 0x10_0000_0000 / 32 % 8 + 1) as u8,
        bits_per_sample: (be64(s, 10) / 0x10_0000_0000 % 32 + 1) as u8,
        total_samples: (be64(s, 10) % 0x10_0000_0000) as u64,
        md5: [
            s[18], s[19], s[20], s[21], s[22], s[23], s[24], s[25],
            s[26], s[27], s[28], s[29], s[30], s[31], s[32], s[33],
        ],
    }
}

/// What a STREAMINFO body says; `None` where it is too short, has no sample rate
/// or a reserved sample width.
pub open spec fn streaminfo_of(s: Seq<u8>) -> Option<StreamInfo> {
    if s.len() < STREAMINFO_BODY_LEN {
        None
    } else {
        let info = streaminfo_fields(s);
        if info.sample_rate == 0 || info.bits_per_sample < 4 {
            None
        } else {
            Some(info)
        }
    }
}

/// The 64 bits that pack sample rate, channels, sample width and sample count.
pub open spec fn packed_fields(info: StreamInfo) -> int {
    ((info.sample_rate as int % 0x10_0000) * 256 + ((info.channels - 1) % 8) * 32 + (
    info.bits_per_sample - 1) % 32) * 0x10_0000_0000 + info.total_samples as int % 0x10_0000_0000
}

/// The STREAMINFO body of `info`.
pub open spec fn streaminfo_bytes(info: StreamInfo) -> Seq<u8> {
    be16_bytes(info.min_blocksize as int) + be16_bytes(info.max_blocksize as int) + be24_bytes(
        info.min_framesize as int,
    ) + be24_bytes(info.max_framesize as int) + be64_bytes(packed_fields(info)) + info.md5@
}

/// Every field fits its place in a STREAMINFO body.
pub open spec fn is_representable(info: StreamInfo) -> bool {
    &&& info.min_framesize < 0x100_0000
    &&& info.max_framesize < 0x100_0000
    &&& 0 < info.sample_rate < 0x10_0000
    &&& 1 <= info.channels <= 8
    &&& 4 <= info.bits_per_sample <= 32
    &&& info.total_samples < 0x10_0000_0000
}

impl StreamInfo {
    /// Parse a STREAMINFO body; `None` if it is shorter than 34 bytes, its sample
    /// rate is 0 or its sample width is reserved.
    pub fn parse(bytes: &[u8]) -> (r: Option<StreamInfo>)
        ensures
            r == streaminfo_of(bytes@),
    {
        if bytes.len() < STREAMINFO_BODY_LEN {
            return None;
        }
        let packed: u64 = read_be64(bytes, 10);
        let top: u64 = packed / 0x10_0000_0000;
        let sample_rate: u32 = (top / 256) as u32;
        let channels: u8 = (top / 32 % 8) as u8 + 1;
        let bits_per_sample: u8 = (top % 32) as u8 + 1;
        let info = StreamInfo {
            min_blocksize: read_be16(bytes, 0),
            max_blocksize: read_be16(bytes, 2),
            min_framesize: read_be24(bytes, 4),
            max_framesize: read_be24(bytes, 7),
            sample_rate,
            channels,
            bits_per_sample,
            total_samples: packed % 0x10_0000_0000,
            md5: [
                bytes[18], bytes[19], bytes[20], bytes[21], bytes[22], bytes[23],
                bytes[24], bytes[25], bytes[26], bytes[27], bytes[28], bytes[29],
                bytes[30], bytes[31], bytes[32], bytes[33],
            ],
        };
        assert(info.md5@ =~= streaminfo_fields(bytes@).md5@);
        assert(info == streaminfo_fields(bytes@));
        if sample_rate == 0 || bits_per_sample < 4 {
            return None;
        }
        Some(info)
    }

    fn packed(&self) -> (v: u64)
        requires
            self.channels >= 1,
            self.bits_per_sample >= 1,
        ensures
            v == packed_fields(*self),
    {
        let channels: u64 = (self.channels as u64 - 1) % 8;
        let width: u64 = (self.bits_per_sample as u64 - 1) % 32;
        ((self.sample_rate as u64 % 0x10_0000) * 256 + channels * 32 + width) * 0x10_0000_0000
            + self.total_samples % 0x10_0000_0000
    }

    /// The 34 bytes of the STREAMINFO body.
    pub fn to_bytes(&self) -> (out: [u8; 34])
        requires
            self.channels >= 1,
            self.bits_per_sample >= 1,
        ensures
            out@ == streaminfo_bytes(*self),
    {
        let p = be64_array(self.packed());
        let mn: u32 = self.min_framesize;
        let mx: u32 = self.max_framesize;
        let out: [u8; 34] = [
            (self.min_blocksize / 0x100) as u8,
            (self.min_blocksize % 0x100) as u8,
            (self.max_blocksize / 0x100) as u8,
            (self.max_blocksize % 0x100) as u8,
            (mn / 0x1_0000 % 0x100) as u8,
            (mn / 0x100 % 0x100) as u8,
            (mn % 0x100) as u8,
            (mx / 0x1_0000 % 0x100) as u8,
            (mx / 0x100 % 0x100) as u8,
            (mx % 0x100) as u8,
            p[0],
            p[1],
            p[2],
            p[3],
            p[4],
            p[5],
            p[6],
            p[7],
            self.md5[0], self.md5[1], self.md5[2], self.md5[3], self.md5[4], self.md5[5],
            self.md5[6], self.md5[7], self.md5[8], self.md5[9], self.md5[10], self.md5[11],
            self.md5[12], self.md5[13], self.md5[14], self.md5[15],
        ];
        proof {
            let sizes = be16_bytes(self.min_blocksize as int) + be16_bytes(
                self.max_blocksize as int,
            ) + be24_bytes(mn as int) + be24_bytes(mx as int);
            assert(out@.subrange(0, 10) =~= sizes);
            assert(out@.subrange(10, 18) =~= p@);
            assert(out@.subrange(18, 34) =~= self.md5@);
            assert(out@ =~= out@.subrange(0, 10) + out@.subrange(10, 18) + out@.subrange(18, 34));
        }
        out
    }

    /// Whether every block has the same size.
    pub fn is_fixed_blocksize(&self) -> (fixed: bool)
        ensures
            fixed == (self.min_blocksize == self.max_blocksize),
    {
        self.min_blocksize == self.max_blocksize
    }
}

proof fn lemma_packed_fields(info: StreamInfo)
    requires
        is_representable(info),
    ensures
        0 <= packed_fields(info) < 0x1_0000_0000_0000_0000,
        packed_fields(info) / 0x10_0000_0000 / 256 == info.sample_rate,
        packed_fields(info) / 0x10_0000_0000 / 32 % 8 + 1 == info.channels,
        packed_fields(info) / 0x10_0000_0000 % 32 + 1 == info.bits_per_sample,
        packed_fields(info) % 0x10_0000_0000 == info.total_samples,
{
    let top = info.sample_rate * 256 + (info.channels - 1) * 32 + (info.bits_per_sample - 1);
    assert(packed_fields(info) == top * 0x10_0000_0000 + info.total_samples);
    assert(packed_fields(info) / 0x10_0000_0000 == top);
    assert(top / 32 == info.sample_rate * 8 + (info.channels - 1));
}

#[verifier::spinoff_prover]
proof fn lemma_streaminfo_layout(info: StreamInfo)
    ensures
        streaminfo_bytes(info).len() == 34,
        streaminfo_bytes(info).subrange(0, 2) == be16_bytes(info.min_blocksize as int),
        streaminfo_bytes(info).subrange(2, 4) == be16_bytes(info.max_blocksize as int),
        streaminfo_bytes(info).subrange(4, 7) == be24_bytes(info.min_framesize as int),
        streaminfo_bytes(info).subrange(7, 10) == be24_bytes(info.max_framesize as int),
        streaminfo_bytes(info).subrange(10, 18) == be64_bytes(packed_fields(info)),
        streaminfo_bytes(info).subrange(18, 34) == info.md5@,
{
    let a = be16_bytes(info.min_blocksize as int);
    let b = be16_bytes(info.max_blocksize as int);
    let c = be24_bytes(info.min_framesize as int);
    let d = be24_bytes(info.max_framesize as int);
    let e = be64_bytes(packed_fields(info));
    let s = a + b + c + d + e + info.md5@;
    assert(a.len() == 2 && b.len() == 2 && c.len() == 3 && d.len() == 3 && e.len() == 8);
    assert(s.subrange(0, 2) =~= a);
    assert(s.subrange(2, 4) =~= b);
    assert(s.subrange(4, 7) =~= c);
    assert(s.subrange(7, 10) =~= d);
    assert(s.subrange(10, 18) =~= e);
    assert(s.subrange(18, 34) =~= info.md5@);
}

/// A STREAMINFO body says what it was made from.
pub proof fn streaminfo_round_trips(info: StreamInfo)
    requires
        is_representable(info),
    ensures
        streaminfo_bytes(info).len() == STREAMINFO_BODY_LEN,
        streaminfo_of(streaminfo_bytes(info)) == Some(info),
{
    let s = streaminfo_bytes(info);
    assert(s.len() == 34) by {
        lemma_streaminfo_layout(info);
    }
    assert(be16(s, 0) == info.min_blocksize && be16(s, 2) == info.max_blocksize) by {
        lemma_streaminfo_layout(info);
        be16_reads_back(s, 0, info.min_blocksize as int);
        be16_reads_back(s, 2, info.max_blocksize as int);
    }
    assert(be24(s, 4) == info.min_framesize && be24(s, 7) == info.max_framesize) by {
        lemma_streaminfo_layout(info);
        be24_reads_back(s, 4, info.min_framesize as int);
        be24_reads_back(s, 7, info.max_framesize as int);
    }
    lemma_packed_fields(info);
    assert(be64(s, 10) == packed_fields(info)) by {
        lemma_streaminfo_layout(info);
        be64_reads_back(s, 10, packed_fields(info));
    }
    assert(streaminfo_fields(s).md5 == info.md5) by {
        lemma_streaminfo_layout(info);
        let t = s.subrange(18, 34);
        assert(forall|i: int| 0 <= i < 16 ==> s[18 + i] == #[trigger] t[i]);
        assert(streaminfo_fields(s).md5@ =~= info.md5@);
    }
}

proof fn lemma_split_packed(v: int)
    requires
        0 <= v < 0x1_0000_0000_0000_0000,
    ensures
        0 <= v / 0x10_0000_0000 < 0x1000_0000,
        v == v / 0x10_0000_0000 * 0x10_0000_0000 + v % 0x10_0000_0000,
{
}

proof fn lemma_split_top(top: int)
    requires
        0 <= top < 0x1000_0000,
    ensures
        0 <= top / 256 < 0x10_0000,
        0 <= top / 32 % 8 < 8,
        0 <= top % 32 < 32,
        top == top / 256 * 256 + top / 32 % 8 * 32 + top % 32,
{
    lemma_div_denominator(top, 32, 8);
    let q = top / 32;
    assert(q / 8 == top / 256);
    assert(q == q / 8 * 8 + q % 8);
    assert(top == q * 32 + top % 32);
}

#[verifier::spinoff_prover]
proof fn lemma_streaminfo_fields(s: Seq<u8>)
    requires
        s.len() >= STREAMINFO_BODY_LEN,
        streaminfo_fields(s).sample_rate != 0,
        streaminfo_fields(s).bits_per_sample >= 4,
    ensures
        is_representable(streaminfo_fields(s)),
        packed_fields(streaminfo_fields(s)) == be64(s, 10),
        streaminfo_fields(s).min_blocksize == be16(s, 0),
        streaminfo_fields(s).max_blocksize == be16(s, 2),
        streaminfo_fields(s).min_framesize == be24(s, 4),
        streaminfo_fields(s).max_framesize == be24(s, 7),
{
    let v = be64(s, 10);
    assert(0 <= v < 0x1_0000_0000_0000_0000) by {
        be64_writes_back(s, 10);
    }
    lemma_split_packed(v);
    lemma_split_top(v / 0x10_0000_0000);
}

/// A parsed STREAMINFO body is written back byte for byte.
pub proof fn streaminfo_writes_back(s: Seq<u8>)
    requires
        streaminfo_of(s) is Some,
    ensures
        is_representable(streaminfo_of(s)->0),
        streaminfo_bytes(streaminfo_of(s)->0) == s.subrange(0, STREAMINFO_BODY_LEN as int),
{
    let info = streaminfo_fields(s);
    lemma_streaminfo_fields(s);
    be16_writes_back(s, 0);
    be16_writes_back(s, 2);
    be24_writes_back(s, 4);
    be24_writes_back(s, 7);
    be64_writes_back(s, 10);
    assert(info.md5@ =~= s.subrange(18, 34));
    assert(s.subrange(0, 34) =~= s.subrange(0, 2) + s.subrange(2, 4) + s.subrange(4, 7)
        + s.subrange(7, 10) + s.subrange(10, 18) + s.subrange(18, 34));
}

/// The flag that declares a bit depth to the framework: the smallest of 16, 20, 24
/// and 32 bits that holds it.
pub open spec fn depth_flag(bits_per_sample: u8) -> Option<u32> {
    if bits_per_sample < 4 || bits_per_sample > 32 {
        None
    } else if bits_per_sample <= 16 {
        Some(K_AF_APPLE_LOSSLESS_16_BIT)
    } else if bits_per_sample <= 20 {
        Some(K_AF_APPLE_LOSSLESS_20_BIT)
    } else if bits_per_sample <= 24 {
        Some(K_AF_APPLE_LOSSLESS_24_BIT)
    } else {
        Some(K_AF_APPLE_LOSSLESS_32_BIT)
    }
}

/// The flag that declares a bit depth of 4 to 32 bits to the framework.
pub fn bit_depth_flag(bits_per_sample: u8) -> (flag: Option<u32>)
    ensures
        flag == depth_flag(bits_per_sample),
{
    match bits_per_sample {
        4..=16 => Some(K_AF_APPLE_LOSSLESS_16_BIT),
        17..=20 => Some(K_AF_APPLE_LOSSLESS_20_BIT),
        21..=24 => Some(K_AF_APPLE_LOSSLESS_24_BIT),
        25..=32 => Some(K_AF_APPLE_LOSSLESS_32_BIT),
        _ => None,
    }
}

/// The magic cookie of a stream: the box header, the version-and-flags word, the
/// header of a last block of type 0, and the STREAMINFO body.
pub open spec fn cookie_bytes(info: StreamInfo) -> Seq<u8> {
    be32_bytes(MAGIC_COOKIE_MIN_LEN as int) + DFLA_BOX_TYPE@ + seq![0u8, 0, 0, 0] + be32_bytes(
        0x8000_0000 + STREAMINFO_BODY_LEN,
    ) + streaminfo_bytes(info)
}

/// Build the magic cookie of a stream.
pub fn build_magic_cookie(info: &StreamInfo) -> (cookie: Vec<u8>)
    requires
        info.channels >= 1,
        info.bits_per_sample >= 1,
    ensures
        cookie@ == cookie_bytes(*info),
{
    let mut out: Vec<u8> = Vec::with_capacity(MAGIC_COOKIE_MIN_LEN);
    push_be32(&mut out, MAGIC_COOKIE_MIN_LEN as u32);
    push_bytes(&mut out, &DFLA_BOX_TYPE);
    push_bytes(&mut out, &[0u8, 0, 0, 0]);
    push_be32(&mut out, 0x8000_0000 + STREAMINFO_BODY_LEN as u32);
    push_bytes(&mut out, &info.to_bytes());
    out
}

/// What a magic cookie says of its stream: its first metadata block must be a STREAMINFO
/// block, of type 0, and must lie in the box. What follows it is ignored.
pub open spec fn cookie_info(s: Seq<u8>) -> Option<StreamInfo> {
    if s.len() < MAGIC_COOKIE_MIN_LEN || be32(s, 0) > s.len() || s.subrange(4, 8)
        != DFLA_BOX_TYPE@ {
        None
    } else if s[12] % 128 != 0 || 16 + be24(s, 13) > be32(s, 0) {
        None
    } else {
        streaminfo_of(s.subrange(16, 16 + be24(s, 13)))
    }
}

/// Parse a magic cookie. `None` if it is too short, its size field exceeds it, its
/// box type is not `dfLa`, its first metadata block is no STREAMINFO block or runs past
/// the box, or that block does not parse.
pub fn parse_magic_cookie(cookie: &[u8]) -> (r: Option<StreamInfo>)
    ensures
        r == cookie_info(cookie@),
{
    if cookie.len() < MAGIC_COOKIE_MIN_LEN {
        return None;
    }
    let box_size: u32 = read_be32(cookie, 0);
    if box_size as u64 > cookie.len() as u64 {
        return None;
    }
    let is_dfla = cookie[4] == DFLA_BOX_TYPE[0] && cookie[5] == DFLA_BOX_TYPE[1] && cookie[6]
        == DFLA_BOX_TYPE[2] && cookie[7] == DFLA_BOX_TYPE[3];
    proof {
        let t = cookie@.subrange(4, 8);
        assert(t[0] == cookie@[4] && t[1] == cookie@[5] && t[2] == cookie@[6] && t[3]
            == cookie@[7]);
        assert(is_dfla == (t =~= DFLA_BOX_TYPE@));
    }
    if !is_dfla {
        return None;
    }
    let block: usize = BOX_HEADER_LEN + FULLBOX_HEADER_LEN;
    if cookie[block] % 128 != 0 {
        return None;
    }
    let body: usize = block + METADATA_BLOCK_HEADER_LEN;
    let length: u32 = read_be24(cookie, block + 1);
    if body as u64 + length as u64 > box_size as u64 {
        return None;
    }
    StreamInfo::parse(slice_subrange(cookie, body, body + length as usize))
}

/// A magic cookie says what it was made from.
pub proof fn cookie_round_trips(info: StreamInfo)
    requires
        is_representable(info),
    ensures
        cookie_bytes(info).len() == MAGIC_COOKIE_MIN_LEN,
        cookie_info(cookie_bytes(info)) == Some(info),
{
    let s = cookie_bytes(info);
    let t = streaminfo_bytes(info);
    streaminfo_round_trips(info);
    lemma_cookie_layout(t);
    assert(s.subrange(16, 16 + be24(s, 13)) == t);
}

proof fn lemma_cookie_layout(t: Seq<u8>)
    requires
        t.len() == 34,
    ensures
        ({
            let s = be32_bytes(50) + DFLA_BOX_TYPE@ + seq![0u8, 0, 0, 0] + be32_bytes(0x8000_0022)
                + t;
            &&& s.len() == 50
            &&& be32(s, 0) == 50
            &&& s.subrange(4, 8) == DFLA_BOX_TYPE@
            &&& s[12] == 128
            &&& be24(s, 13) == 34
            &&& s.subrange(16, 50) == t
        }),
{
    let a = be32_bytes(50);
    let b = be32_bytes(0x8000_0022);
    assert(a =~= seq![0u8, 0, 0, 50]);
    assert(b =~= seq![128u8, 0, 0, 34]);
    let s = a + DFLA_BOX_TYPE@ + seq![0u8, 0, 0, 0] + b + t;
    assert(s.subrange(4, 8) =~= DFLA_BOX_TYPE@);
    assert(s.subrange(16, 50) =~= t);
}

/// Every magic cookie that is built fits the framework's limit.
pub proof fn cookie_fits_the_limit(info: StreamInfo)
    ensures
        cookie_bytes(info).len() <= MAGIC_COOKIE_MAX_LEN,
{
    lemma_streaminfo_layout(info);
}

/// A box whose size field leaves no room for a STREAMINFO block is no magic cookie,
/// whatever bytes follow it.
pub proof fn small_boxes_are_rejected(s: Seq<u8>)
    requires
        s.len() >= 4,
        be32(s, 0) < MAGIC_COOKIE_MIN_LEN,
    ensures
        cookie_info(s) is None,
{
}

/// A cookie that begins with a block of another type is refused, whatever blocks follow.
pub proof fn streaminfo_comes_first(s: Seq<u8>)
    requires
        s.len() > 12,
        s[12] % 128 != 0,
    ensures
        cookie_info(s) is None,
{
}

/// The blocks behind the STREAMINFO block are ignored: cookies that agree up to its end,
/// and whose boxes hold it, say the same.
pub proof fn later_blocks_are_ignored(s: Seq<u8>, t: Seq<u8>)
    requires
        MAGIC_COOKIE_MIN_LEN <= s.len(),
        MAGIC_COOKIE_MIN_LEN <= t.len(),
        16 + be24(s, 13) <= be32(s, 0) <= s.len(),
        16 + be24(s, 13) <= be32(t, 0) <= t.len(),
        s.subrange(4, 16 + be24(s, 13)) == t.subrange(4, 16 + be24(s, 13)),
    ensures
        cookie_info(s) == cookie_info(t),
{
    let end = 16 + be24(s, 13);
    assert forall|i: int| 4 <= i < end implies s[i] == t[i] by {
        assert(s.subrange(4, end)[i - 4] == t.subrange(4, end)[i - 4]);
    }
    assert(s.subrange(4, 8) =~= t.subrange(4, 8));
    assert(s.subrange(16, end) =~= t.subrange(16, end));
}

/// The sample rate of a frame header code; codes 0 and 12 to 15 name none.
pub open spec fn rate_of_code(code: u8) -> Option<u32> {
    match code {
        1 => Some(88_200),
        2 => Some(176_400),
        3 => Some(192_000),
        4 => Some(8_000),
        5 => Some(16_000),
        6 => Some(22_050),
        7 => Some(24_000),
        8 => Some(32_000),
        9 => Some(44_100),
        10 => Some(48_000),
        11 => Some(96_000),
        _ => None,
    }
}

/// The sample rate of a frame header code. Code 0 defers to the STREAMINFO block,
/// 12 to 14 to bytes further on in the header, and 15 is reserved.
pub fn sample_rate_from_code(code: u8) -> (rate: Option<u32>)
    ensures
        rate == rate_of_code(code),
{
    match code {
        1 => Some(88_200),
        2 => Some(176_400),
        3 => Some(192_000),
        4 => Some(8_000),
        5 => Some(16_000),
        6 => Some(22_050),
        7 => Some(24_000),
        8 => Some(32_000),
        9 => Some(44_100),
        10 => Some(48_000),
        11 => Some(96_000),
        _ => None,
    }
}

/// The block size of a frame header code: 192, then 576 doubled up to three times,
/// then 256 doubled up to seven times. Codes 0, 6 and 7 name none.
pub open spec fn size_of_code(code: u8) -> Option<u32> {
    if code == 1 {
        Some(192)
    } else if 2 <= code <= 5 {
        Some((576 * pow2((code - 2) as nat)) as u32)
    } else if 8 <= code <= 15 {
        Some((256 * pow2((code - 8) as nat)) as u32)
    } else {
        None
    }
}

/// The block size of a frame header code. Code 0 is reserved, 6 and 7 defer to
/// bytes further on in the header.
pub fn block_size_from_code(code: u8) -> (size: Option<u32>)
    ensures
        size == size_of_code(code),
{
    proof {
        lemma2_to64();
    }
    match code {
        1 => Some(192),
        2 => Some(576),
        3 => Some(1152),
        4 => Some(2304),
        5 => Some(4608),
        8 => Some(256),
        9 => Some(512),
        10 => Some(1024),
        11 => Some(2048),
        12 => Some(4096),
        13 => Some(8192),
        14 => Some(16_384),
        15 => Some(32_768),
        _ => None,
    }
}

/// The sample width of a frame header code; codes 0 and 3 name none.
pub open spec fn width_of_code(code: u8) -> Option<u8> {
    match code {
        1 => Some(8),
        2 => Some(12),
        4 => Some(16),
        5 => Some(20),
        6 => Some(24),
        7 => Some(32),
        _ => None,
    }
}

/// The sample width of a frame header code. Code 0 defers to the STREAMINFO block
/// and 3 is reserved.
pub fn bits_per_sample_from_code(code: u8) -> (width: Option<u8>)
    ensures
        width == width_of_code(code),
{
    match code {
        1 => Some(8),
        2 => Some(12),
        4 => Some(16),
        5 => Some(20),
        6 => Some(24),
        7 => Some(32),
        _ => None,
    }
}

/// How the subframes of a frame make its channels.
#[derive(Clone, Copy, Debug, PartialEq, Eq, Structural)]
pub enum ChannelAssignment {
    /// One channel per subframe; the number is that of the channels less one.
    Independent(u8),
    /// Left and side.
    LeftSide,
    /// Side and right.
    SideRight,
    /// Mid and side.
    MidSide,
}

/// The channel assignment of a frame header code; codes above 10 are reserved.
pub open spec fn assignment_of_code(code: u8) -> Option<ChannelAssignment> {
    if code <= 7 {
        Some(ChannelAssignment::Independent(code))
    } else if code == 8 {
        Some(ChannelAssignment::LeftSide)
    } else if code == 9 {
        Some(ChannelAssignment::SideRight)
    } else if code == 10 {
        Some(ChannelAssignment::MidSide)
    } else {
        None
    }
}

impl ChannelAssignment {
    /// The number of channels.
    pub open spec fn count(self) -> int {
        match self {
            ChannelAssignment::Independent(n) => n + 1,
            _ => 2,
        }
    }

    /// The number of channels.
    pub fn channel_count(self) -> (n: u8)
        requires
            self.count() <= u8::MAX,
        ensures
            n == self.count(),
    {
        match self {
            ChannelAssignment::Independent(n) => n + 1,
            ChannelAssignment::LeftSide | ChannelAssignment::SideRight
            | ChannelAssignment::MidSide => 2,
        }
    }

    /// The channel assignment of a frame header code.
    pub fn from_code(code: u8) -> (r: Option<ChannelAssignment>)
        ensures
            r == assignment_of_code(code),
            r matches Some(a) ==> 1 <= a.count() <= 8,
    {
        match code {
            0..=7 => Some(ChannelAssignment::Independent(code)),
            8 => Some(ChannelAssignment::LeftSide),
            9 => Some(ChannelAssignment::SideRight),
            10 => Some(ChannelAssignment::MidSide),
            _ => None,
        }
    }
}

/// The fixed part of a frame header.
#[derive(Clone, Copy, Debug, PartialEq, Eq, Structural)]
pub struct FrameHeader {
    /// 0 where every block has one size, 1 where block sizes vary.
    pub blocking_strategy: u8,
    /// Block size in samples per channel.
    pub block_size: u32,
    /// Sample rate in hertz.
    pub sample_rate: u32,
    /// How the subframes make the channels.
    pub channel_assignment: ChannelAssignment,
    /// Bits per sample.
    pub bits_per_sample: u8,
}

/// The fixed part of the frame header at the start of `s`, in a stream with the
/// STREAMINFO block `info`.
///
/// Thirteen one bits and two zero bits make the sync code. No field may hold a
/// reserved value: block size code 0, sample rate code 15, a channel assignment
/// above 10, sample width code 3, or a set reserved bit. What a code defers to a
/// later byte is bounded by, or equal to, what the STREAMINFO block says.
pub open spec fn frame_header_of(s: Seq<u8>, info: StreamInfo) -> Option<FrameHeader> {
    if s.len() < 5 || s[0] != 0xFF || s[1] / 2 != 0x7C {
        None
    } else {
        let size_code = (s[2] / 16) as u8;
        let rate_code = (s[2] % 16) as u8;
        let assignment = assignment_of_code((s[3] / 16) as u8);
        let width_code = (s[3] / 2 % 8) as u8;
        if size_code == 0 || rate_code == 15 || assignment is None || width_code == 3 || s[3] % 2
            != 0 {
            None
        } else {
            Some(
                FrameHeader {
                    blocking_strategy: (s[1] % 2) as u8,
                    block_size: match size_of_code(size_code) {
                        Some(size) => size,
                        None => info.max_blocksize as u32,
                    },
                    sample_rate: match rate_of_code(rate_code) {
                        Some(rate) => rate,
                        None => info.sample_rate,
                    },
                    channel_assignment: assignment->0,
                    bits_per_sample: match width_of_code(width_code) {
                        Some(width) => width,
                        None => info.bits_per_sample,
                    },
                },
            )
        }
    }
}

/// Read the fixed part of a frame header. `None` if there is no sync code, a field
/// holds a reserved value, or fewer than five bytes are there. The header's
/// checksum is left to the framework.
pub fn parse_frame_header(bytes: &[u8], info: &StreamInfo) -> (r: Option<FrameHeader>)
    ensures
        r == frame_header_of(bytes@, *info),
        r matches Some(h) ==> 1 <= h.channel_assignment.count() <= 8,
{
    if bytes.len() < 5 {
        return None;
    }
    if bytes[0] != 0xFF || bytes[1] / 2 != 0x7C {
        return None;
    }
    let size_code: u8 = bytes[2] / 16;
    let rate_code: u8 = bytes[2] % 16;
    let width_code: u8 = bytes[3] / 2 % 8;
    if size_code == 0 || rate_code == 15 || width_code == 3 || bytes[3] % 2 != 0 {
        return None;
    }
    let channel_assignment = match ChannelAssignment::from_code(bytes[3] / 16) {
        Some(a) => a,
        None => {
            return None;
        },
    };
    let bits_per_sample: u8 = match bits_per_sample_from_code(width_code) {
        Some(width) => width,
        None => info.bits_per_sample,
    };
    let sample_rate: u32 = match sample_rate_from_code(rate_code) {
        Some(rate) => rate,
        None => info.sample_rate,
    };
    let block_size: u32 = match block_size_from_code(size_code) {
        Some(size) => size,
        None => info.max_blocksize as u32,
    };
    Some(
        FrameHeader {
            blocking_strategy: bytes[1] % 2,
            block_size,
            sample_rate,
            channel_assignment,
            bits_per_sample,
        },
    )
}

impl FrameHeader {
    /// The number of channels of the frame.
    pub fn channels(&self) -> (n: u8)
        requires
            self.channel_assignment.count() <= u8::MAX,
        ensures
            n == self.channel_assignment.count(),
    {
        self.channel_assignment.channel_count()
    }
}

/// A frame that names no rate and no width of its own agrees with its stream.
pub proof fn deferring_frames_agree_with_the_stream(s: Seq<u8>, info: StreamInfo)
    requires
        frame_header_of(s, info) is Some,
        rate_of_code((s[2] % 16) as u8) is None,
        width_of_code((s[3] / 2 % 8) as u8) is None,
    ensures
        frame_header_of(s, info)->0.sample_rate == info.sample_rate,
        frame_header_of(s, info)->0.bits_per_sample == info.bits_per_sample,
{
}

/// The width codes 1, 2, 4, 5, 6 and 7 name 8, 12, 16, 20, 24 and 32 bits, and no other
/// code names a width. Among the codes that do, the width grows strictly with the code,
/// and the codes 4 to 6 name four bits for each unit.
pub proof fn width_codes(code: u8, other: u8)
    ensures
        width_of_code(code) is Some <==> 1 <= code <= 7 && code != 3,
        code == 1 ==> width_of_code(code) == Some(8u8),
        code == 2 ==> width_of_code(code) == Some(12u8),
        code == 4 ==> width_of_code(code) == Some(16u8),
        code == 5 ==> width_of_code(code) == Some(20u8),
        code == 6 ==> width_of_code(code) == Some(24u8),
        code == 7 ==> width_of_code(code) == Some(32u8),
        4 <= code <= 6 ==> width_of_code(code)->0 == 4 * code,
        width_of_code(code) is Some && width_of_code(other) is Some && code < other
            ==> width_of_code(code)->0 < width_of_code(other)->0,
{
}

/// The rate codes 1 to 11 name 88.2, 176.4, 192, 8, 16, 22.05, 24, 32, 44.1, 48 and 96
/// kHz, and no other code names a rate.
pub proof fn rate_codes(code: u8)
    ensures
        rate_of_code(code) is Some <==> 1 <= code <= 11,
        code == 1 ==> rate_of_code(code) == Some(88_200u32),
        code == 2 ==> rate_of_code(code) == Some(176_400u32),
        code == 3 ==> rate_of_code(code) == Some(192_000u32),
        code == 4 ==> rate_of_code(code) == Some(8_000u32),
        code == 5 ==> rate_of_code(code) == Some(16_000u32),
        code == 6 ==> rate_of_code(code) == Some(22_050u32),
        code == 7 ==> rate_of_code(code) == Some(24_000u32),
        code == 8 ==> rate_of_code(code) == Some(32_000u32),
        code == 9 ==> rate_of_code(code) == Some(44_100u32),
        code == 10 ==> rate_of_code(code) == Some(48_000u32),
        code == 11 ==> rate_of_code(code) == Some(96_000u32),
{
}

/// The size codes name 192 samples, 576 and its doubles up to 4608, and 256 and its
/// doubles up to 32768; the codes 0, 6 and 7 name no size.
pub proof fn size_codes(code: u8)
    ensures
        size_of_code(code) is Some <==> 1 <= code <= 15 && code != 6 && code != 7,
        code == 1 ==> size_of_code(code) == Some(192u32),
        code == 2 ==> size_of_code(code) == Some(576u32),
        code == 3 ==> size_of_code(code) == Some(1_152u32),
        code == 4 ==> size_of_code(code) == Some(2_304u32),
        code == 5 ==> size_of_code(code) == Some(4_608u32),
        code == 8 ==> size_of_code(code) == Some(256u32),
        code == 9 ==> size_of_code(code) == Some(512u32),
        code == 10 ==> size_of_code(code) == Some(1_024u32),
        code == 11 ==> size_of_code(code) == Some(2_048u32),
        code == 12 ==> size_of_code(code) == Some(4_096u32),
        code == 13 ==> size_of_code(code) == Some(8_192u32),
        code == 14 ==> size_of_code(code) == Some(16_384u32),
        code == 15 ==> size_of_code(code) == Some(32_768u32),
{
    lemma2_to64();
}

/// A channel code up to 7 stands for one channel more than itself, each coded on its
/// own; 8, 9 and 10 are the two-channel forms left and side, side and right, mid and
/// side; no other code stands for any.
pub proof fn channel_codes(code: u8)
    ensures
        assignment_of_code(code) is Some <==> code <= 10,
        code <= 7 ==> {
            &&& assignment_of_code(code)->0 is Independent
            &&& assignment_of_code(code)->0.count() == code + 1
        },
        8 <= code <= 10 ==> assignment_of_code(code)->0.count() == 2,
        code == 8 ==> assignment_of_code(code)->0 is LeftSide,
        code == 9 ==> assignment_of_code(code)->0 is SideRight,
        code == 10 ==> assignment_of_code(code)->0 is MidSide,
{
}

/// Five bytes begin a frame exactly if they hold the sync code and no reserved value:
/// size code 0, rate code 15, a channel code above 10, width code 3, or a last bit that
/// is set.
pub proof fn frames_begin_with_the_sync_code(s: Seq<u8>, info: StreamInfo)
    ensures
        frame_header_of(s, info) is Some <==> {
            &&& s.len() >= 5
            &&& s[0] == 255
            &&& s[1] == 248 || s[1] == 249
            &&& s[2] >= 16
            &&& s[2] % 16 != 15
            &&& s[3] < 176
            &&& s[3] / 2 % 8 != 3
            &&& s[3] % 2 == 0
        },
{
    if s.len() >= 5 {
        let b = s[1] as int;
        let c = s[2] as int;
        let d = s[3] as int;
        assert(b / 2 == 124 <==> b == 248 || b == 249);
        assert(c / 16 == 0 <==> c < 16);
        assert(d / 16 <= 10 <==> d < 176);
    }
}

/// What a frame says of itself: the last bit of the sync byte is its blocking strategy,
/// and each of the four codes gives what it names. A size that follows later in the
/// header is bounded by the largest block of the stream; a rate or a width that a code
/// does not name is that of the stream.
pub proof fn frames_say_what_their_codes_name(s: Seq<u8>, info: StreamInfo)
    requires
        frame_header_of(s, info) is Some,
    ensures
        ({
            let h = frame_header_of(s, info)->0;
            let size = (s[2] / 16) as u8;
            let rate = (s[2] % 16) as u8;
            let channels = (s[3] / 16) as u8;
            let width = (s[3] / 2 % 8) as u8;
            &&& h.blocking_strategy == s[1] - 248
            &&& size == 6 || size == 7 ==> h.block_size == info.max_blocksize
            &&& size != 6 && size != 7 ==> Some(h.block_size) == size_of_code(size)
            &&& rate == 0 || rate >= 12 ==> h.sample_rate == info.sample_rate
            &&& 1 <= rate <= 11 ==> Some(h.sample_rate) == rate_of_code(rate)
            &&& width == 0 ==> h.bits_per_sample == info.bits_per_sample
            &&& width != 0 ==> Some(h.bits_per_sample) == width_of_code(width)
            &&& Some(h.channel_assignment) == assignment_of_code(channels)
        }),
{
    frames_begin_with_the_sync_code(s, info);
    let b = s[1] as int;
    assert(b % 2 == b - 248);
    size_codes((s[2] / 16) as u8);
}

#[verifier::spinoff_prover]
proof fn lemma_packed_bytes(a: int, b: int, c: int, d: int, low: int)
    requires
        0 <= a < 256,
        0 <= b < 256,
        0 <= c < 256,
        0 <= d < 256,
        0 <= low < 0x1_0000_0000,
    ensures
        ({
            let v = (a * 0x100_0000 + b * 0x1_0000 + c * 0x100 + d) * 0x1_0000_0000 + low;
            let top = v / 0x10_0000_0000;
            &&& top / 256 == a * 4096 + b * 16 + c / 16
            &&& top / 32 % 8 == c / 2 % 8
            &&& top % 32 == c % 2 * 16 + d / 16
            &&& v % 0x10_0000_0000 == d % 16 * 0x1_0000_0000 + low
        }),
{
    let v = (a * 0x100_0000 + b * 0x1_0000 + c * 0x100 + d) * 0x1_0000_0000 + low;
    let top = a * 0x10_0000 + b * 0x1000 + c * 16 + d / 16;
    let rest = d % 16 * 0x1_0000_0000 + low;
    assert(v == top * 0x10_0000_0000 + rest);
    assert(0 <= rest < 0x10_0000_0000);
    assert(v / 0x10_0000_0000 == top && v % 0x10_0000_0000 == rest);
    assert(top / 256 == a * 4096 + b * 16 + c / 16);
    assert(top / 32 == a * 0x8000 + b * 128 + c / 2);
    assert(top % 32 == c % 2 * 16 + d / 16);
}

/// Where the fields of a STREAMINFO body lie: block sizes and frame sizes in whole bytes,
/// then 20 bits of sample rate, 3 of channels less one, 5 of sample width less one and
/// 36 of sample count, then the checksum.
pub proof fn streaminfo_layout(s: Seq<u8>)
    requires
        streaminfo_of(s) is Some,
    ensures
        ({
            let info = streaminfo_of(s)->0;
            &&& info.min_blocksize == s[0] * 256 + s[1]
            &&& info.max_blocksize == s[2] * 256 + s[3]
            &&& info.min_framesize == (s[4] * 256 + s[5]) * 256 + s[6]
            &&& info.max_framesize == (s[7] * 256 + s[8]) * 256 + s[9]
            &&& info.sample_rate == s[10] * 4096 + s[11] * 16 + s[12] as int / 16
            &&& info.channels == s[12] as int / 2 % 8 + 1
            &&& info.bits_per_sample == s[12] as int % 2 * 16 + s[13] as int / 16 + 1
            &&& info.total_samples == s[13] as int % 16 * 0x1_0000_0000 + ((s[14] * 256 + s[15])
                * 256 + s[16]) * 256 + s[17]
            &&& forall|i: int| 0 <= i < 16 ==> #[trigger] info.md5@[i] == s[18 + i]
        }),
{
    let (a, b, c, d) = (s[10] as int, s[11] as int, s[12] as int, s[13] as int);
    let low = be32(s, 14);
    lemma_packed_bytes(a, b, c, d, low);
    assert(be64(s, 10) == (a * 0x100_0000 + b * 0x1_0000 + c * 0x100 + d) * 0x1_0000_0000 + low);
}

/// A STREAMINFO body is accepted exactly if it has 34 bytes or more, its sample rate is
/// not 0, and its sample width is at least 4 bits.
pub proof fn streaminfo_is_refused_for_three_reasons(s: Seq<u8>)
    ensures
        streaminfo_of(s) is Some <==> {
            &&& s.len() >= 34
            &&& s[10] > 0 || s[11] > 0 || s[12] >= 16
            &&& s[12] % 2 == 1 || s[13] >= 48
        },
{
    if s.len() >= 34 {
        let (a, b, c, d) = (s[10] as int, s[11] as int, s[12] as int, s[13] as int);
        let low = be32(s, 14);
        lemma_packed_bytes(a, b, c, d, low);
        assert(be64(s, 10) == (a * 0x100_0000 + b * 0x1_0000 + c * 0x100 + d) * 0x1_0000_0000
            + low);
        assert(c / 16 > 0 <==> c >= 16);
        assert(d / 16 >= 3 <==> d >= 48);
        assert(a * 4096 + b * 16 + c / 16 == 0 <==> a == 0 && b == 0 && c < 16);
    }
}

/// Of a field that is too large for its place in a STREAMINFO body, the low bits are
/// written.
#[verifier::spinoff_prover]
pub proof fn streaminfo_writes_low_bits(info: StreamInfo)
    requires
        info.channels >= 1,
        info.bits_per_sample >= 1,
    ensures
        ({
            let low = StreamInfo {
                min_framesize: (info.min_framesize % 0x100_0000) as u32,
                max_framesize: (info.max_framesize % 0x100_0000) as u32,
                sample_rate: (info.sample_rate % 0x10_0000) as u32,
                channels: ((info.channels - 1) % 8 + 1) as u8,
                bits_per_sample: ((info.bits_per_sample - 1) % 32 + 1) as u8,
                total_samples: (info.total_samples % 0x10_0000_0000) as u64,
                ..info
            };
            streaminfo_bytes(info) == streaminfo_bytes(low)
        }),
{
    lemma_low24(info.min_framesize as int);
    lemma_low24(info.max_framesize as int);
    lemma_low_packed(info);
}

#[verifier::spinoff_prover]
proof fn lemma_low_packed(info: StreamInfo)
    requires
        info.channels >= 1,
        info.bits_per_sample >= 1,
    ensures
        packed_fields(info) == packed_fields(
            StreamInfo {
                min_framesize: (info.min_framesize % 0x100_0000) as u32,
                max_framesize: (info.max_framesize % 0x100_0000) as u32,
                sample_rate: (info.sample_rate % 0x10_0000) as u32,
                channels: ((info.channels - 1) % 8 + 1) as u8,
                bits_per_sample: ((info.bits_per_sample - 1) % 32 + 1) as u8,
                total_samples: (info.total_samples % 0x10_0000_0000) as u64,
                ..info
            },
        ),
{
    let a = info.sample_rate as int;
    let b = info.channels - 1;
    let c = info.bits_per_sample - 1;
    let d = info.total_samples as int;
    assert(a % 0x10_0000 % 0x10_0000 == a % 0x10_0000);
    assert(b % 8 % 8 == b % 8);
    assert(c % 32 % 32 == c % 32);
    assert(d % 0x10_0000_0000 % 0x10_0000_0000 == d % 0x10_0000_0000);
}

#[verifier::spinoff_prover]
proof fn lemma_low24(v: int)
    requires
        0 <= v,
    ensures
        be24_bytes(v) == be24_bytes(v % 0x100_0000),
{
    let w = v % 0x100_0000;
    let q = v / 0x100_0000;
    assert(v == q * 0x100_0000 + w);
    assert(v / 0x1_0000 == q * 0x100 + w / 0x1_0000);
    assert(v / 0x100 == q * 0x1_0000 + w / 0x100);
}

/// The magic cookie of a stream has 50 bytes: its size, the letters `dfLa`, four zeros,
/// the header of a last block of type 0 and 34 bytes, and the STREAMINFO body.
pub proof fn cookie_layout(info: StreamInfo)
    ensures
        ({
            let s = cookie_bytes(info);
            &&& s.len() == 50
            &&& s.subrange(0, 8) == seq![0u8, 0, 0, 50, 0x64, 0x66, 0x4C, 0x61]
            &&& s.subrange(8, 16) == seq![0u8, 0, 0, 0, 128, 0, 0, 34]
            &&& s.subrange(16, 50) == streaminfo_bytes(info)
        }),
{
    lemma_streaminfo_layout(info);
    let t = streaminfo_bytes(info);
    let a = be32_bytes(50);
    let b = be32_bytes(0x8000_0022);
    assert(a =~= seq![0u8, 0, 0, 50]);
    assert(b =~= seq![128u8, 0, 0, 34]);
    let s = cookie_bytes(info);
    assert(s.subrange(0, 8) =~= seq![0u8, 0, 0, 50, 0x64, 0x66, 0x4C, 0x61]);
    assert(s.subrange(8, 16) =~= seq![0u8, 0, 0, 0, 128, 0, 0, 34]);
    assert(s.subrange(16, 50) =~= t);
}

/// What a box needs to be a magic cookie: 50 bytes, a size that is no more than it has,
/// the letters `dfLa`, and a first block of type 0 that lies in the box. What it says is
/// then what the body of that block says.
pub proof fn cookies_are_read_from_their_first_block(s: Seq<u8>)
    ensures
        ({
            let size = ((s[0] * 256 + s[1]) * 256 + s[2]) * 256 + s[3];
            let length = (s[13] * 256 + s[14]) * 256 + s[15];
            let fits = {
                &&& s.len() >= 50
                &&& size <= s.len()
                &&& s[4] == 0x64 && s[5] == 0x66 && s[6] == 0x4C && s[7] == 0x61
                &&& s[12] == 0 || s[12] == 128
                &&& 16 + length <= size
            };
            &&& fits ==> cookie_info(s) == streaminfo_of(s.subrange(16, 16 + length))
            &&& !fits ==> cookie_info(s) is None
        }),
{
    if s.len() >= 50 {
        let t = s.subrange(4, 8);
        assert(t[0] == s[4] && t[1] == s[5] && t[2] == s[6] && t[3] == s[7]);
        let name = seq![0x64u8, 0x66, 0x4C, 0x61];
        assert(DFLA_BOX_TYPE@ =~= name);
        if s[4] == 0x64 && s[5] == 0x66 && s[6] == 0x4C && s[7] == 0x61 {
            assert(t =~= name);
        } else {
            assert(name[0] == 0x64 && name[1] == 0x66 && name[2] == 0x4C && name[3] == 0x61);
            assert(t != name);
        }
        let b = s[12] as int;
        assert(b % 128 == 0 <==> b == 0 || b == 128);
    }
}

/// A depth is declared by the flag of the smallest of 16, 20, 24 and 32 bits that holds
/// it, 1 to 4; a depth below 4 or above 32 bits has none.
pub proof fn depth_flags(bits: u8)
    ensures
        depth_flag(bits) is Some <==> 4 <= bits <= 32,
        4 <= bits <= 16 ==> depth_flag(bits) == Some(1u32),
        17 <= bits <= 20 ==> depth_flag(bits) == Some(2u32),
        21 <= bits <= 24 ==> depth_flag(bits) == Some(3u32),
        25 <= bits <= 32 ==> depth_flag(bits) == Some(4u32),
{
}

/// The signatures are the letters that they spell, and the lengths those of what they
/// measure: the smallest cookie is a box header, a version-and-flags word, a block
/// header and a STREAMINFO body.
pub proof fn signatures_and_lengths()
    ensures
        FLAC_SIGNATURE@ == seq!['f' as u8, 'L' as u8, 'a' as u8, 'C' as u8],
        DFLA_BOX_TYPE@ == seq!['d' as u8, 'f' as u8, 'L' as u8, 'a' as u8],
        FLAC_SIGNATURE_LEN == 4,
        STREAMINFO_BODY_LEN == 2 + 2 + 3 + 3 + 8 + 16,
        METADATA_BLOCK_HEADER_LEN == 4,
        BOX_HEADER_LEN == 8,
        FULLBOX_HEADER_LEN == 4,
        MAGIC_COOKIE_MIN_LEN == 8 + 4 + 4 + 34,
        MAGIC_COOKIE_MAX_LEN == 256,
{
    assert(FLAC_SIGNATURE@ =~= seq!['f' as u8, 'L' as u8, 'a' as u8, 'C' as u8]);
    assert(DFLA_BOX_TYPE@ =~= seq!['d' as u8, 'f' as u8, 'L' as u8, 'a' as u8]);
}

} // verus!
