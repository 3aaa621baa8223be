//! AMR wideband frame types (RFC 4867): 16 kHz mono speech in packets of 20 ms.
//!
//! A packet begins with a table-of-contents byte: a follow-up bit, four bits of
//! frame type, a quality bit and two padding bits.

use vstd::prelude::*;

verus! {

/// The type of a frame.
#[derive(Clone, Copy, Debug, PartialEq, Eq, Structural)]
pub enum FrameType {
    /// 6.6 kbit/s.
    Mr660,
    /// 8.85 kbit/s.
    Mr885,
    /// 12.65 kbit/s.
    Mr1265,
    /// 14.25 kbit/s.
    Mr1425,
    /// 15.85 kbit/s.
    Mr1585,
    /// 18.25 kbit/s.
    Mr1825,
    /// 19.85 kbit/s.
    Mr1985,
    /// 23.05 kbit/s.
    Mr2305,
    /// 23.85 kbit/s.
    Mr2385,
    /// Silence descriptor.
    Sid,
    /// No frame was sent.
    NoData,
}

/// The frame type of an index; 10 to 14 are reserved.
pub open spec fn type_of_index(ft: int) -> Option<FrameType> {
    if ft == 0 {
        Some(FrameType::Mr660)
    } else if ft == 1 {
        Some(FrameType::Mr885)
    } else if ft == 2 {
        Some(FrameType::Mr1265)
    } else if ft == 3 {
        Some(FrameType::Mr1425)
    } else if ft == 4 {
        Some(FrameType::Mr1585)
    } else if ft == 5 {
        Some(FrameType::Mr1825)
    } else if ft == 6 {
        Some(FrameType::Mr1985)
    } else if ft == 7 {
        Some(FrameType::Mr2305)
    } else if ft == 8 {
        Some(FrameType::Mr2385)
    } else if ft == 9 {
        Some(FrameType::Sid)
    } else if ft == 15 {
        Some(FrameType::NoData)
    } else {
        None
    }
}

/// The frame type that a table-of-contents byte names, by its bits 6 to 3.
pub open spec fn type_of_toc(toc: u8) -> Option<FrameType> {
    type_of_index(toc as int / 8 % 16)
}

impl FrameType {
    /// The index of the frame type.
    pub open spec fn index(self) -> u8 {
        match self {
            FrameType::Mr660 => 0,
            FrameType::Mr885 => 1,
            FrameType::Mr1265 => 2,
            FrameType::Mr1425 => 3,
            FrameType::Mr1585 => 4,
            FrameType::Mr1825 => 5,
            FrameType::Mr1985 => 6,
            FrameType::Mr2305 => 7,
            FrameType::Mr2385 => 8,
            FrameType::Sid => 9,
            FrameType::NoData => 15,
        }
    }

    /// Bytes of a packet, table of contents included.
    pub open spec fn packet_bytes(self) -> usize {
        match self {
            FrameType::Mr660 => 17,
            FrameType::Mr885 => 23,
            FrameType::Mr1265 => 32,
            FrameType::Mr1425 => 36,
            FrameType::Mr1585 => 40,
            FrameType::Mr1825 => 46,
            FrameType::Mr1985 => 50,
            FrameType::Mr2305 => 58,
            FrameType::Mr2385 => 60,
            FrameType::Sid => 6,
            FrameType::NoData => 1,
        }
    }

    /// Bits per second of a speech frame type.
    pub open spec fn net_bit_rate(self) -> Option<u32> {
        match self {
            FrameType::Mr660 => Some(6_600),
            FrameType::Mr885 => Some(8_850),
            FrameType::Mr1265 => Some(12_650),
            FrameType::Mr1425 => Some(14_250),
            FrameType::Mr1585 => Some(15_850),
            FrameType::Mr1825 => Some(18_250),
            FrameType::Mr1985 => Some(19_850),
            FrameType::Mr2305 => Some(23_050),
            FrameType::Mr2385 => Some(23_850),
            FrameType::Sid => None,
            FrameType::NoData => None,
        }
    }

    /// The frame type that a table-of-contents byte names; `None` if it is reserved.
    pub fn from_toc(toc: u8) -> (r: Option<FrameType>)
        ensures
            r == type_of_toc(toc),
    {
        match toc / 8 % 16 {
            0 => Some(FrameType::Mr660),
            1 => Some(FrameType::Mr885),
            2 => Some(FrameType::Mr1265),
            3 => Some(FrameType::Mr1425),
            4 => Some(FrameType::Mr1585),
            5 => Some(FrameType::Mr1825),
            6 => Some(FrameType::Mr1985),
            7 => Some(FrameType::Mr2305),
            8 => Some(FrameType::Mr2385),
            9 => Some(FrameType::Sid),
            15 => Some(FrameType::NoData),
            _ => None,
        }
    }

    /// Bytes of a packet, table of contents included.
    pub fn bytes_per_packet(self) -> (n: usize)
        ensures
            n == self.packet_bytes(),
    {
        match self {
            FrameType::Mr660 => 17,
            FrameType::Mr885 => 23,
            FrameType::Mr1265 => 32,
            FrameType::Mr1425 => 36,
            FrameType::Mr1585 => 40,
            FrameType::Mr1825 => 46,
            FrameType::Mr1985 => 50,
            FrameType::Mr2305 => 58,
            FrameType::Mr2385 => 60,
            FrameType::Sid => 6,
            FrameType::NoData => 1,
        }
    }

    /// The index of the frame type.
    pub fn ft_index(self) -> (i: u8)
        ensures
            i == self.index(),
    {
        match self {
            FrameType::Mr660 => 0,
            FrameType::Mr885 => 1,
            FrameType::Mr1265 => 2,
            FrameType::Mr1425 => 3,
            FrameType::Mr1585 => 4,
            FrameType::Mr1825 => 5,
            FrameType::Mr1985 => 6,
            FrameType::Mr2305 => 7,
            FrameType::Mr2385 => 8,
            FrameType::Sid => 9,
            FrameType::NoData => 15,
        }
    }

    /// Bits per second of a speech frame type; `None` for silence and no data.
    pub fn bit_rate(self) -> (r: Option<u32>)
        ensures
            r == self.net_bit_rate(),
    {
        match self {
            FrameType::Mr660 => Some(6_600),
            FrameType::Mr885 => Some(8_850),
            FrameType::Mr1265 => Some(12_650),
            FrameType::Mr1425 => Some(14_250),
            FrameType::Mr1585 => Some(15_850),
            FrameType::Mr1825 => Some(18_250),
            FrameType::Mr1985 => Some(19_850),
            FrameType::Mr2305 => Some(23_050),
            FrameType::Mr2385 => Some(23_850),
            FrameType::Sid => None,
            FrameType::NoData => None,
        }
    }

    /// The name of the variant.
    pub open spec fn label(self) -> Seq<char> {
        match self {
            FrameType::Mr660 => "Mr660"@,
            FrameType::Mr885 => "Mr885"@,
            FrameType::Mr1265 => "Mr1265"@,
            FrameType::Mr1425 => "Mr1425"@,
            FrameType::Mr1585 => "Mr1585"@,
            FrameType::Mr1825 => "Mr1825"@,
            FrameType::Mr1985 => "Mr1985"@,
            FrameType::Mr2305 => "Mr2305"@,
            FrameType::Mr2385 => "Mr2385"@,
            FrameType::Sid => "Sid"@,
            FrameType::NoData => "NoData"@,
        }
    }

    /// The name of the variant.
    pub fn name(self) -> (s: &'static str)
        ensures
            s@ == self.label(),
    {
        match self {
            FrameType::Mr660 => "Mr660",
            FrameType::Mr885 => "Mr885",
            FrameType::Mr1265 => "Mr1265",
            FrameType::Mr1425 => "Mr1425",
            FrameType::Mr1585 => "Mr1585",
            FrameType::Mr1825 => "Mr1825",
            FrameType::Mr1985 => "Mr1985",
            FrameType::Mr2305 => "Mr2305",
            FrameType::Mr2385 => "Mr2385",
            FrameType::Sid => "Sid",
            FrameType::NoData => "NoData",
        }
    }
}

/// PCM samples in a packet: 20 ms at 16 kHz.
pub const FRAMES_PER_PACKET: u32 = 320;

/// The table-of-contents byte of a last, good frame: the index above a set quality
/// bit and two padding bits.
pub fn make_toc(ft: FrameType) -> (toc: u8)
    ensures
        toc == ft.index() * 8 + 4,
{
    ft.ft_index() * 8 + 4
}

/// A table-of-contents byte names the frame type that it was made for, whatever its
/// follow-up, quality and padding bits are.
pub proof fn toc_round_trips(ft: FrameType, toc: u8)
    requires
        toc as int / 8 % 16 == ft.index(),
    ensures
        type_of_toc(toc) == Some(ft),
{
}

/// No two frame types share an index.
pub proof fn indices_are_distinct(a: FrameType, b: FrameType)
    requires
        a.index() == b.index(),
    ensures
        a == b,
{
}

/// A speech packet is as long as the bits of 20 ms at its bit rate, in whole bytes.
pub proof fn packet_bytes_follow_the_bit_rate(ft: FrameType)
    requires
        ft.net_bit_rate() is Some,
    ensures
        ft.packet_bytes() == (ft.net_bit_rate()->0 / 50 + 7) / 8,
{
}

/// The frame types in the order of their indices are the speech rates from the lowest to
/// the highest and the silence descriptor; no data has the last index, and those between
/// are reserved.
pub proof fn types_have_their_indices(ft: int)
    requires
        0 <= ft < 16,
    ensures
        type_of_index(ft) is Some <==> ft <= 9 || ft == 15,
        type_of_index(ft) matches Some(t) ==> t.index() == ft,
        ft == 0 ==> type_of_index(ft)->0 is Mr660 && type_of_index(ft)->0.net_bit_rate()
            == Some(6_600u32),
        ft == 1 ==> type_of_index(ft)->0 is Mr885 && type_of_index(ft)->0.net_bit_rate()
            == Some(8_850u32),
        ft == 2 ==> type_of_index(ft)->0 is Mr1265 && type_of_index(ft)->0.net_bit_rate()
            == Some(12_650u32),
        ft == 3 ==> type_of_index(ft)->0 is Mr1425 && type_of_index(ft)->0.net_bit_rate()
            == Some(14_250u32),
        ft == 4 ==> type_of_index(ft)->0 is Mr1585 && type_of_index(ft)->0.net_bit_rate()
            == Some(15_850u32),
        ft == 5 ==> type_of_index(ft)->0 is Mr1825 && type_of_index(ft)->0.net_bit_rate()
            == Some(18_250u32),
        ft == 6 ==> type_of_index(ft)->0 is Mr1985 && type_of_index(ft)->0.net_bit_rate()
            == Some(19_850u32),
        ft == 7 ==> type_of_index(ft)->0 is Mr2305 && type_of_index(ft)->0.net_bit_rate()
            == Some(23_050u32),
        ft == 8 ==> type_of_index(ft)->0 is Mr2385 && type_of_index(ft)->0.net_bit_rate()
            == Some(23_850u32),
        ft == 9 ==> type_of_index(ft)->0 is Sid,
        ft == 15 ==> type_of_index(ft)->0 is NoData,
        ft == 9 || ft == 15 ==> type_of_index(ft)->0.net_bit_rate() is None,
{
}

/// A table-of-contents byte names its type by the four bits below the highest: neither
/// the follow-up bit nor the three lowest bits matter.
pub proof fn types_are_read_from_four_bits(ft: int, more: int, low: int)
    requires
        0 <= ft < 16,
        0 <= more < 2,
        0 <= low < 8,
    ensures
        type_of_toc((more * 128 + ft * 8 + low) as u8) == type_of_index(ft),
{
    let v = more * 128 + ft * 8 + low;
    assert(v / 8 == more * 16 + ft);
}

/// The bytes of a packet, its table of contents included.
pub proof fn packets_have_their_sizes(ft: FrameType)
    ensures
        ft is Mr660 ==> ft.packet_bytes() == 17,
        ft is Mr885 ==> ft.packet_bytes() == 23,
        ft is Mr1265 ==> ft.packet_bytes() == 32,
        ft is Mr1425 ==> ft.packet_bytes() == 36,
        ft is Mr1585 ==> ft.packet_bytes() == 40,
        ft is Mr1825 ==> ft.packet_bytes() == 46,
        ft is Mr1985 ==> ft.packet_bytes() == 50,
        ft is Mr2305 ==> ft.packet_bytes() == 58,
        ft is Mr2385 ==> ft.packet_bytes() == 60,
        ft is Sid ==> ft.packet_bytes() == 6,
        ft is NoData ==> ft.packet_bytes() == 1,
        FRAMES_PER_PACKET * 50 == 16_000,
{
}

/// Each frame type is called by its own name.
pub proof fn types_have_their_names(ft: FrameType)
    ensures
        ft is Mr660 ==> ft.label() == "Mr660"@,
        ft is Mr885 ==> ft.label() == "Mr885"@,
        ft is Mr1265 ==> ft.label() == "Mr1265"@,
        ft is Mr1425 ==> ft.label() == "Mr1425"@,
        ft is Mr1585 ==> ft.label() == "Mr1585"@,
        ft is Mr1825 ==> ft.label() == "Mr1825"@,
        ft is Mr1985 ==> ft.label() == "Mr1985"@,
        ft is Mr2305 ==> ft.label() == "Mr2305"@,
        ft is Mr2385 ==> ft.label() == "Mr2385"@,
        ft is Sid ==> ft.label() == "Sid"@,
        ft is NoData ==> ft.label() == "NoData"@,
{
}

} // verus!
