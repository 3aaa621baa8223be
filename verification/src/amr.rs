//! AMR narrowband frame types (RFC 4867): 8 kHz mono speech in packets of 20 ms.
//!
//! A packet begins with a table-of-contents byte: a follow-up bit, four bits of
//! frame type, a quality bit and two padding bits.

use vstd::prelude::*;

verus! {

/// The type of a frame.
#[derive(Clone, Copy, Debug, PartialEq, Eq, Structural)]
pub enum FrameType {
    /// 4.75 kbit/s.
    Mr475,
    /// 5.15 kbit/s.
    Mr515,
    /// 5.9 kbit/s.
    Mr59,
    /// 6.7 kbit/s.
    Mr67,
    /// 7.4 kbit/s.
    Mr74,
    /// 7.95 kbit/s.
    Mr795,
    /// 10.2 kbit/s.
    Mr102,
    /// 12.2 kbit/s.
    Mr122,
    /// Silence descriptor.
    Sid,
    /// No frame was sent.
    NoData,
}

/// The frame type of an index; 9 to 14 are reserved.
pub open spec fn type_of_index(ft: int) -> Option<FrameType> {
    if ft == 0 {
        Some(FrameType::Mr475)
    } else if ft == 1 {
        Some(FrameType::Mr515)
    } else if ft == 2 {
        Some(FrameType::Mr59)
    } else if ft == 3 {
        Some(FrameType::Mr67)
    } else if ft == 4 {
        Some(FrameType::Mr74)
    } else if ft == 5 {
        Some(FrameType::Mr795)
    } else if ft == 6 {
        Some(FrameType::Mr102)
    } else if ft == 7 {
        Some(FrameType::Mr122)
    } else if ft == 8 {
        Some(FrameType::Sid)
    } else if ft == 15 {
        Some(FrameType::NoData)
    } else {
        None
    }
}

/// The frame type that a table-of-contents byte names, by its bits 6 to 3.
pub open spec fn type_of_toc(toc: u8) -> Option<FrameType> {
    type_of_index(toc as int / 8 % 16)
}

impl FrameType {
    /// The index of the frame type.
    pub open spec fn index(self) -> u8 {
        match self {
            FrameType::Mr475 => 0,
            FrameType::Mr515 => 1,
            FrameType::Mr59 => 2,
            FrameType::Mr67 => 3,
            FrameType::Mr74 => 4,
            FrameType::Mr795 => 5,
            FrameType::Mr102 => 6,
            FrameType::Mr122 => 7,
            FrameType::Sid => 8,
            FrameType::NoData => 15,
        }
    }

    /// Bytes of a packet, table of contents included.
    pub open spec fn packet_bytes(self) -> usize {
        match self {
            FrameType::Mr475 => 13,
            FrameType::Mr515 => 14,
            FrameType::Mr59 => 16,
            FrameType::Mr67 => 18,
            FrameType::Mr74 => 20,
            FrameType::Mr795 => 21,
            FrameType::Mr102 => 27,
            FrameType::Mr122 => 32,
            FrameType::Sid => 6,
            FrameType::NoData => 1,
        }
    }

    /// Bits per second of a speech frame type.
    pub open spec fn net_bit_rate(self) -> Option<u32> {
        match self {
            FrameType::Mr475 => Some(4_750),
            FrameType::Mr515 => Some(5_150),
            FrameType::Mr59 => Some(5_900),
            FrameType::Mr67 => Some(6_700),
            FrameType::Mr74 => Some(7_400),
            FrameType::Mr795 => Some(7_950),
            FrameType::Mr102 => Some(10_200),
            FrameType::Mr122 => Some(12_200),
            FrameType::Sid => None,
            FrameType::NoData => None,
        }
    }

    /// The frame type that a table-of-contents byte names; `None` if it is reserved.
    pub fn from_toc(toc: u8) -> (r: Option<FrameType>)
        ensures
            r == type_of_toc(toc),
    {
        match toc / 8 % 16 {
            0 => Some(FrameType::Mr475),
            1 => Some(FrameType::Mr515),
            2 => Some(FrameType::Mr59),
            3 => Some(FrameType::Mr67),
            4 => Some(FrameType::Mr74),
            5 => Some(FrameType::Mr795),
            6 => Some(FrameType::Mr102),
            7 => Some(FrameType::Mr122),
            8 => Some(FrameType::Sid),
            15 => Some(FrameType::NoData),
            _ => None,
        }
    }

    /// Bytes of a packet, table of contents included.
    pub fn bytes_per_packet(self) -> (n: usize)
        ensures
            n == self.packet_bytes(),
    {
        match self {
            FrameType::Mr475 => 13,
            FrameType::Mr515 => 14,
            FrameType::Mr59 => 16,
            FrameType::Mr67 => 18,
            FrameType::Mr74 => 20,
            FrameType::Mr795 => 21,
            FrameType::Mr102 => 27,
            FrameType::Mr122 => 32,
            FrameType::Sid => 6,
            FrameType::NoData => 1,
        }
    }

    /// The index of the frame type.
    pub fn ft_index(self) -> (i: u8)
        ensures
            i == self.index(),
    {
        match self {
            FrameType::Mr475 => 0,
            FrameType::Mr515 => 1,
            FrameType::Mr59 => 2,
            FrameType::Mr67 => 3,
            FrameType::Mr74 => 4,
            FrameType::Mr795 => 5,
            FrameType::Mr102 => 6,
            FrameType::Mr122 => 7,
            FrameType::Sid => 8,
            FrameType::NoData => 15,
        }
    }

    /// Bits per second of a speech frame type; `None` for silence and no data.
    pub fn bit_rate(self) -> (r: Option<u32>)
        ensures
            r == self.net_bit_rate(),
    {
        match self {
            FrameType::Mr475 => Some(4_750),
            FrameType::Mr515 => Some(5_150),
            FrameType::Mr59 => Some(5_900),
            FrameType::Mr67 => Some(6_700),
            FrameType::Mr74 => Some(7_400),
            FrameType::Mr795 => Some(7_950),
            FrameType::Mr102 => Some(10_200),
            FrameType::Mr122 => Some(12_200),
            FrameType::Sid => None,
            FrameType::NoData => None,
        }
    }

    /// The name of the variant.
    pub open spec fn label(self) -> Seq<char> {
        match self {
            FrameType::Mr475 => "Mr475"@,
            FrameType::Mr515 => "Mr515"@,
            FrameType::Mr59 => "Mr59"@,
            FrameType::Mr67 => "Mr67"@,
            FrameType::Mr74 => "Mr74"@,
            FrameType::Mr795 => "Mr795"@,
            FrameType::Mr102 => "Mr102"@,
            FrameType::Mr122 => "Mr122"@,
            FrameType::Sid => "Sid"@,
            FrameType::NoData => "NoData"@,
        }
    }

    /// The name of the variant.
    pub fn name(self) -> (s: &'static str)
        ensures
            s@ == self.label(),
    {
        match self {
            FrameType::Mr475 => "Mr475",
            FrameType::Mr515 => "Mr515",
            FrameType::Mr59 => "Mr59",
            FrameType::Mr67 => "Mr67",
            FrameType::Mr74 => "Mr74",
            FrameType::Mr795 => "Mr795",
            FrameType::Mr102 => "Mr102",
            FrameType::Mr122 => "Mr122",
            FrameType::Sid => "Sid",
            FrameType::NoData => "NoData",
        }
    }
}

/// PCM samples in a packet: 20 ms at 8 kHz.
pub const FRAMES_PER_PACKET: u32 = 160;

/// The table-of-contents byte of a last, good frame: the index above a set quality
/// bit and two padding bits.
pub fn make_toc(ft: FrameType) -> (toc: u8)
    ensures
        toc == ft.index() * 8 + 4,
{
    ft.ft_index() * 8 + 4
}

/// A table-of-contents byte names the frame type that it was made for, whatever its
/// follow-up, quality and padding bits are.
pub proof fn toc_round_trips(ft: FrameType, toc: u8)
    requires
        toc as int / 8 % 16 == ft.index(),
    ensures
        type_of_toc(toc) == Some(ft),
{
}

/// No two frame types share an index.
pub proof fn indices_are_distinct(a: FrameType, b: FrameType)
    requires
        a.index() == b.index(),
    ensures
        a == b,
{
}

/// A speech packet holds its table of contents and the bits of 20 ms at its bit rate,
/// in whole bytes.
pub proof fn packet_bytes_follow_the_bit_rate(ft: FrameType)
    requires
        ft.net_bit_rate() is Some,
    ensures
        ft.packet_bytes() == 1 + (ft.net_bit_rate()->0 / 50 + 7) / 8,
{
}

/// The frame types in the order of their indices are the speech rates from the lowest to
/// the highest and the silence descriptor; no data has the last index, and those between
/// are reserved.
pub proof fn types_have_their_indices(ft: int)
    requires
        0 <= ft < 16,
    ensures
        type_of_index(ft) is Some <==> ft <= 8 || ft == 15,
        type_of_index(ft) matches Some(t) ==> t.index() == ft,
        ft == 0 ==> type_of_index(ft)->0 is Mr475 && type_of_index(ft)->0.net_bit_rate()
            == Some(4_750u32),
        ft == 1 ==> type_of_index(ft)->0 is Mr515 && type_of_index(ft)->0.net_bit_rate()
            == Some(5_150u32),
        ft == 2 ==> type_of_index(ft)->0 is Mr59 && type_of_index(ft)->0.net_bit_rate()
            == Some(5_900u32),
        ft == 3 ==> type_of_index(ft)->0 is Mr67 && type_of_index(ft)->0.net_bit_rate()
            == Some(6_700u32),
        ft == 4 ==> type_of_index(ft)->0 is Mr74 && type_of_index(ft)->0.net_bit_rate()
            == Some(7_400u32),
        ft == 5 ==> type_of_index(ft)->0 is Mr795 && type_of_index(ft)->0.net_bit_rate()
            == Some(7_950u32),
        ft == 6 ==> type_of_index(ft)->0 is Mr102 && type_of_index(ft)->0.net_bit_rate()
            == Some(10_200u32),
        ft == 7 ==> type_of_index(ft)->0 is Mr122 && type_of_index(ft)->0.net_bit_rate()
            == Some(12_200u32),
        ft == 8 ==> type_of_index(ft)->0 is Sid,
        ft == 15 ==> type_of_index(ft)->0 is NoData,
        ft == 8 || ft == 15 ==> type_of_index(ft)->0.net_bit_rate() is None,
{
}

/// A table-of-contents byte names its type by the four bits below the highest: neither
/// the follow-up bit nor the three lowest bits matter.
pub proof fn types_are_read_from_four_bits(ft: int, more: int, low: int)
    requires
        0 <= ft < 16,
        0 <= more < 2,
        0 <= low < 8,
    ensures
        type_of_toc((more * 128 + ft * 8 + low) as u8) == type_of_index(ft),
{
    let v = more * 128 + ft * 8 + low;
    assert(v / 8 == more * 16 + ft);
}

/// The bytes of a packet, its table of contents included.
pub proof fn packets_have_their_sizes(ft: FrameType)
    ensures
        ft is Mr475 ==> ft.packet_bytes() == 13,
        ft is Mr515 ==> ft.packet_bytes() == 14,
        ft is Mr59 ==> ft.packet_bytes() == 16,
        ft is Mr67 ==> ft.packet_bytes() == 18,
        ft is Mr74 ==> ft.packet_bytes() == 20,
        ft is Mr795 ==> ft.packet_bytes() == 21,
        ft is Mr102 ==> ft.packet_bytes() == 27,
        ft is Mr122 ==> ft.packet_bytes() == 32,
        ft is Sid ==> ft.packet_bytes() == 6,
        ft is NoData ==> ft.packet_bytes() == 1,
        FRAMES_PER_PACKET * 50 == 8_000,
{
}

/// Each frame type is called by its own name.
pub proof fn types_have_their_names(ft: FrameType)
    ensures
        ft is Mr475 ==> ft.label() == "Mr475"@,
        ft is Mr515 ==> ft.label() == "Mr515"@,
        ft is Mr59 ==> ft.label() == "Mr59"@,
        ft is Mr67 ==> ft.label() == "Mr67"@,
        ft is Mr74 ==> ft.label() == "Mr74"@,
        ft is Mr795 ==> ft.label() == "Mr795"@,
        ft is Mr102 ==> ft.label() == "Mr102"@,
        ft is Mr122 ==> ft.label() == "Mr122"@,
        ft is Sid ==> ft.label() == "Sid"@,
        ft is NoData ==> ft.label() == "NoData"@,
{
}

} // verus!
