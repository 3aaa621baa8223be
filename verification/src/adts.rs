//! ADTS framing of AAC (ISO/IEC 14496-3).
//!
//! A header of seven bytes, or nine with a checksum, precedes each raw AAC frame:
//! a 12-bit sync word, the version, the layer, a protection bit, the profile (2
//! bits), the sampling frequency index (4), a private bit, the channel
//! configuration (3), four bits of provenance, the frame length (13, header
//! included), the buffer fullness (11) and the number of further blocks (2).

use vstd::prelude::*;

verus! {

/// Sample rates in the order of their indices.
pub const SAMPLE_RATES: [u32; 13] = [
    96_000,
    88_200,
    64_000,
    48_000,
    44_100,
    32_000,
    24_000,
    22_050,
    16_000,
    12_000,
    11_025,
    8_000,
    7_350,
];

/// The index of a sample rate, or `None` if it has none.
pub fn sample_rate_index(sample_rate: u32) -> (r: Option<u8>)
    ensures
        match r {
            Some(i) => i < 13 && SAMPLE_RATES@[i as int] == sample_rate,
            None => !SAMPLE_RATES@.contains(sample_rate),
        },
{
    let mut i: usize = 0;
    while i < SAMPLE_RATES.len()
        invariant
            i <= 13,
            forall|k: int| 0 <= k < i ==> SAMPLE_RATES@[k] != sample_rate,
        decreases 13 - i,
    {
        if SAMPLE_RATES[i] == sample_rate {
            return Some(i as u8);
        }
        i = i + 1;
    }
    None
}

/// What a decoder needs of an ADTS header.
#[derive(Clone, Copy, Debug, PartialEq, Eq, Structural)]
pub struct AdtsHeader {
    /// Length of the frame in bytes, header included.
    pub frame_length: usize,
    /// Whether no checksum follows the header.
    pub protection_absent: bool,
    /// Sampling frequency index.
    pub sampling_freq_index: u8,
    /// Channel configuration.
    pub channel_configuration: u8,
}

impl AdtsHeader {
    /// Length of the header in bytes, checksum included.
    pub open spec fn length(self) -> int {
        if self.protection_absent {
            7
        } else {
            9
        }
    }

    /// Length of the header in bytes, checksum included.
    pub fn header_len(&self) -> (n: usize)
        ensures
            n == self.length(),
    {
        if self.protection_absent {
            7
        } else {
            9
        }
    }
}

/// The header at the start of `s`; `None` if fewer than seven bytes are there or the
/// sync word is missing.
pub open spec fn header_of(s: Seq<u8>) -> Option<AdtsHeader> {
    if s.len() < 7 || s[0] != 0xFF || s[1] / 16 != 15 {
        None
    } else {
        Some(
            AdtsHeader {
                frame_length: (s[3] % 4 * 2048 + s[4] * 8 + s[5] / 32) as usize,
                protection_absent: s[1] % 2 == 1,
                sampling_freq_index: (s[2] / 4 % 16) as u8,
                channel_configuration: (s[2] % 2 * 4 + s[3] / 64) as u8,
            },
        )
    }
}

/// Parse the header at the start of `data`.
pub fn parse(data: &[u8]) -> (r: Option<AdtsHeader>)
    ensures
        r == header_of(data@),
        r matches Some(h) ==> h.frame_length < 8192 && h.sampling_freq_index < 16
            && h.channel_configuration < 8,
{
    if data.len() < 7 {
        return None;
    }
    if data[0] != 0xFF || data[1] / 16 != 15 {
        return None;
    }
    Some(
        AdtsHeader {
            frame_length: (data[3] % 4) as usize * 2048 + data[4] as usize * 8 + (data[5]
                / 32) as usize,
            protection_absent: data[1] % 2 == 1,
            sampling_freq_index: data[2] / 4 % 16,
            channel_configuration: data[2] % 2 * 4 + data[3] / 64,
        },
    )
}

/// The header, without checksum, of a frame whose payload has `payload_len` bytes.
/// Each field keeps the low bits that fit it; the buffer fullness is that of a
/// variable bit rate.
pub open spec fn header_bytes(
    payload_len: int,
    sf_index: u8,
    channel_config: u8,
    profile: u8,
) -> Seq<u8> {
    let total = payload_len + 7;
    seq![
        0xFF,
        0xF1,
        (profile as int % 4 * 64 + sf_index as int % 16 * 4 + channel_config as int / 4 % 2) as u8,
        (channel_config as int % 4 * 64 + total / 2048 % 4) as u8,
        (total / 8 % 256) as u8,
        (total % 8 * 32 + 31) as u8,
        0xFC,
    ]
}

/// Build the header of a frame whose payload has `payload_len` bytes. The profile is
/// the audio object type less one.
pub fn build_header(payload_len: usize, sf_index: u8, channel_config: u8, profile: u8) -> (out:
    [u8; 7])
    requires
        payload_len + 7 <= usize::MAX,
    ensures
        out@ == header_bytes(payload_len as int, sf_index, channel_config, profile),
{
    let total: usize = payload_len + 7;
    let out: [u8; 7] = [
        0xFF,
        0xF1,
        profile % 4 * 64 + sf_index % 16 * 4 + channel_config / 4 % 2,
        channel_config % 4 * 64 + (total / 2048 % 4) as u8,
        (total / 8 % 256) as u8,
        (total % 8 * 32 + 31) as u8,
        0xFC,
    ];
    assert(out@ =~= header_bytes(payload_len as int, sf_index, channel_config, profile));
    out
}

/// A header says what it was built from, whatever follows it, as long as the frame's
/// length fits the 13 bits that hold it.
pub proof fn header_round_trips(
    payload_len: int,
    sf_index: u8,
    channel_config: u8,
    profile: u8,
    payload: Seq<u8>,
)
    requires
        0 <= payload_len,
        payload_len + 7 < 8192,
        sf_index < 16,
        channel_config < 8,
    ensures
        header_of(header_bytes(payload_len, sf_index, channel_config, profile) + payload) == Some(
            AdtsHeader {
                frame_length: (payload_len + 7) as usize,
                protection_absent: true,
                sampling_freq_index: sf_index,
                channel_configuration: channel_config,
            },
        ),
{
    let h = header_bytes(payload_len, sf_index, channel_config, profile);
    let s = h + payload;
    assert(s[0] == h[0] && s[1] == h[1] && s[2] == h[2] && s[3] == h[3] && s[4] == h[4] && s[5]
        == h[5]);
}

/// The sample rates that the indices 0 to 12 name.
pub proof fn rates_have_their_indices(i: int)
    ensures
        i == 0 ==> SAMPLE_RATES@[i] == 96_000,
        i == 1 ==> SAMPLE_RATES@[i] == 88_200,
        i == 2 ==> SAMPLE_RATES@[i] == 64_000,
        i == 3 ==> SAMPLE_RATES@[i] == 48_000,
        i == 4 ==> SAMPLE_RATES@[i] == 44_100,
        i == 5 ==> SAMPLE_RATES@[i] == 32_000,
        i == 6 ==> SAMPLE_RATES@[i] == 24_000,
        i == 7 ==> SAMPLE_RATES@[i] == 22_050,
        i == 8 ==> SAMPLE_RATES@[i] == 16_000,
        i == 9 ==> SAMPLE_RATES@[i] == 12_000,
        i == 10 ==> SAMPLE_RATES@[i] == 11_025,
        i == 11 ==> SAMPLE_RATES@[i] == 8_000,
        i == 12 ==> SAMPLE_RATES@[i] == 7_350,
        SAMPLE_RATES@.len() == 13,
{
}

/// The rates fall from index to index, and three steps halve each of the first nine: the
/// families of 96, 88.2 and 64 kHz take turns.
pub proof fn rates_fall_in_turns(i: int, j: int)
    requires
        0 <= i < j < 13,
    ensures
        SAMPLE_RATES@[i] > SAMPLE_RATES@[j],
        i < 9 && j == i + 3 ==> SAMPLE_RATES@[i] == 2 * SAMPLE_RATES@[j],
{
}

/// Seven bytes begin a frame exactly if the first twelve bits are ones. A set last bit of
/// the second byte means that no checksum follows; the index of the rate has four bits,
/// the channel configuration three and the length thirteen, each from the highest to the
/// lowest.
pub proof fn headers_are_read_from_their_bits(s: Seq<u8>)
    ensures
        header_of(s) is Some <==> s.len() >= 7 && s[0] == 255 && s[1] >= 240,
        header_of(s) matches Some(h) ==> {
            &&& h.protection_absent <==> s[1] % 2 == 1
            &&& h.sampling_freq_index == s[2] as int / 4 % 16
            &&& h.channel_configuration == s[2] as int % 2 * 4 + s[3] as int / 64
            &&& h.frame_length == (s[3] as int % 4 * 256 + s[4]) * 8 + s[5] as int / 32
            &&& h.protection_absent ==> h.length() == 7
            &&& !h.protection_absent ==> h.length() == 9
        },
{
    if s.len() >= 7 {
        let b = s[1] as int;
        assert(b / 16 == 15 <==> b >= 240);
    }
}

/// A header of its own has seven bytes and no checksum, whatever it is built from. The
/// profile leads the third byte, every bit of provenance is clear, the buffer fullness
/// is all ones and one block is all there is. Of a field that is too large, the low bits
/// are written.
pub proof fn headers_have_their_fields(
    payload_len: int,
    sf_index: u8,
    channel_config: u8,
    profile: u8,
)
    requires
        0 <= payload_len,
    ensures
        ({
            let s = header_bytes(payload_len, sf_index, channel_config, profile);
            let h = header_of(s);
            &&& s.len() == 7
            &&& h is Some
            &&& h->0.protection_absent
            &&& h->0.sampling_freq_index == sf_index as int % 16
            &&& h->0.channel_configuration == channel_config as int % 8
            &&& h->0.frame_length == (payload_len + 7) % 8192
            &&& s[1] == 0xF1
            &&& s[2] as int / 64 == profile as int % 4
            &&& s[2] as int / 2 % 2 == 0
            &&& s[3] as int / 4 % 16 == 0
            &&& s[5] as int % 32 == 31
            &&& s[6] == 0xFC
        }),
{
    let total = payload_len + 7;
    lemma_length_bits(total);
    lemma_third_byte(profile as int % 4, sf_index as int % 16, channel_config as int / 4 % 2);
    lemma_fourth_byte(channel_config as int % 4, total / 2048 % 4);
    let c = channel_config as int;
    assert(c % 8 == c / 4 % 2 * 4 + c % 4);
    let low = total % 8;
    assert((low * 32 + 31) / 32 == low && (low * 32 + 31) % 32 == 31);
}

#[verifier::spinoff_prover]
proof fn lemma_length_bits(total: int)
    requires
        0 <= total,
    ensures
        (total / 2048 % 4 * 256 + total / 8 % 256) * 8 + total % 8 == total % 8192,
{
    assert(total == total / 8 * 8 + total % 8);
    assert(total / 8 == total / 2048 * 256 + total / 8 % 256);
    assert(total / 2048 == total / 8192 * 4 + total / 2048 % 4);
    assert(total == total / 8192 * 8192 + (total / 2048 % 4 * 256 + total / 8 % 256) * 8 + total
        % 8);
}

#[verifier::spinoff_prover]
proof fn lemma_third_byte(a: int, b: int, c: int)
    requires
        0 <= a < 4,
        0 <= b < 16,
        0 <= c < 2,
    ensures
        ({
            let v = a * 64 + b * 4 + c;
            &&& 0 <= v < 256
            &&& v / 64 == a
            &&& v / 4 % 16 == b
            &&& v % 2 == c
            &&& v / 2 % 2 == 0
        }),
{
    let v = a * 64 + b * 4 + c;
    assert(v / 4 == a * 16 + b);
    assert(v / 2 == a * 32 + b * 2);
}

#[verifier::spinoff_prover]
proof fn lemma_fourth_byte(a: int, b: int)
    requires
        0 <= a < 4,
        0 <= b < 4,
    ensures
        ({
            let v = a * 64 + b;
            &&& 0 <= v < 256
            &&& v / 64 == a
            &&& v % 4 == b
            &&& v / 4 % 16 == 0
        }),
{
    let v = a * 64 + b;
    assert(v / 4 == a * 16);
}

} // verus!
