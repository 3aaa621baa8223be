//! The two modes of iLBC (RFC 3951): 8 kHz mono speech in blocks of 20 or 30 ms.

use vstd::prelude::*;

use crate::text::same_text;

verus! {

/// The length of a block.
#[derive(Clone, Copy, Debug, PartialEq, Eq, Structural)]
pub enum IlbcMode {
    /// 20 ms: 160 samples in, 38 bytes out.
    Ms20,
    /// 30 ms: 240 samples in, 50 bytes out.
    Ms30,
}

/// The mode that an option names; 30 ms unless 20 ms is asked for.
pub open spec fn mode_of(option: Option<Seq<char>>) -> IlbcMode {
    match option {
        Some(s) => if s == "20"@ || s == "20ms"@ || s == "ms20"@ {
            IlbcMode::Ms20
        } else {
            IlbcMode::Ms30
        },
        None => IlbcMode::Ms30,
    }
}

impl Default for IlbcMode {
    fn default() -> (mode: IlbcMode)
        ensures
            mode == IlbcMode::Ms30,
    {
        IlbcMode::Ms30
    }
}

impl IlbcMode {
    /// Samples in a block.
    pub open spec fn frames(self) -> u32 {
        match self {
            IlbcMode::Ms20 => 160,
            IlbcMode::Ms30 => 240,
        }
    }

    /// Bytes of a coded block.
    pub open spec fn packet_bytes(self) -> u32 {
        match self {
            IlbcMode::Ms20 => 38,
            IlbcMode::Ms30 => 50,
        }
    }

    /// The option that names the mode.
    pub open spec fn label(self) -> Seq<char> {
        match self {
            IlbcMode::Ms20 => "20"@,
            IlbcMode::Ms30 => "30"@,
        }
    }

    /// The name of the variant.
    pub open spec fn variant_label(self) -> Seq<char> {
        match self {
            IlbcMode::Ms20 => "Ms20"@,
            IlbcMode::Ms30 => "Ms30"@,
        }
    }

    /// Bits per second: the bytes of a block over its duration, rounded down.
    pub open spec fn net_bit_rate(self) -> int {
        self.packet_bytes() * 8 * 8_000 / self.frames() as int
    }

    /// The mode that an option names. Unknown and missing values mean 30 ms.
    pub fn parse(opt: Option<&str>) -> (mode: IlbcMode)
        ensures
            mode == mode_of(match opt {
                Some(s) => Some(s@),
                None => None,
            }),
    {
        match opt {
            Some(s) => if same_text(s, "20") || same_text(s, "20ms") || same_text(s, "ms20") {
                IlbcMode::Ms20
            } else {
                IlbcMode::Ms30
            },
            None => IlbcMode::Ms30,
        }
    }

    /// Samples in a block.
    pub fn frames_per_packet(self) -> (n: u32)
        ensures
            n == self.frames(),
    {
        match self {
            IlbcMode::Ms20 => 160,
            IlbcMode::Ms30 => 240,
        }
    }

    /// Bytes of a coded block.
    pub fn bytes_per_packet(self) -> (n: u32)
        ensures
            n == self.packet_bytes(),
    {
        match self {
            IlbcMode::Ms20 => 38,
            IlbcMode::Ms30 => 50,
        }
    }

    /// Bits per second, rounded down.
    pub fn bit_rate(self) -> (n: u64)
        ensures
            n == self.net_bit_rate(),
    {
        match self {
            IlbcMode::Ms20 => 15_200,
            IlbcMode::Ms30 => 13_333,
        }
    }

    /// The option that names the mode.
    pub fn tag(self) -> (s: &'static str)
        ensures
            s@ == self.label(),
    {
        match self {
            IlbcMode::Ms20 => "20",
            IlbcMode::Ms30 => "30",
        }
    }

    /// The name of the variant.
    pub fn name(self) -> (s: &'static str)
        ensures
            s@ == self.variant_label(),
    {
        match self {
            IlbcMode::Ms20 => "Ms20",
            IlbcMode::Ms30 => "Ms30",
        }
    }
}

/// A mode's own option names it.
pub proof fn tag_round_trips(mode: IlbcMode)
    ensures
        mode_of(Some(mode.label())) == mode,
{
    reveal_strlit("20");
    reveal_strlit("30");
    reveal_strlit("20ms");
    reveal_strlit("ms20");
    assert("30"@[0] == '3' && "20"@[0] == '2' && "20ms"@[0] == '2' && "ms20"@[0] == 'm');
}

/// 20 ms are named in three ways; every other option, and none, means 30 ms.
pub proof fn modes_are_named(s: Seq<char>)
    ensures
        mode_of(Some(s)) is Ms20 <==> s == "20"@ || s == "20ms"@ || s == "ms20"@,
        mode_of(None) is Ms30,
{
}

/// At 8 kHz a block of 20 ms has 160 samples and one of 30 ms has 240; they are coded in
/// 38 and 50 bytes, which is 15200 and 13333 bits a second.
pub proof fn blocks_have_their_sizes(mode: IlbcMode)
    ensures
        mode is Ms20 ==> {
            &&& mode.frames() * 1000 == 8_000 * 20
            &&& mode.packet_bytes() == 38
            &&& mode.net_bit_rate() == 15_200
            &&& mode.label() == "20"@
            &&& mode.variant_label() == "Ms20"@
        },
        mode is Ms30 ==> {
            &&& mode.frames() * 1000 == 8_000 * 30
            &&& mode.packet_bytes() == 50
            &&& mode.net_bit_rate() == 13_333
            &&& mode.label() == "30"@
            &&& mode.variant_label() == "Ms30"@
        },
{
}

} // verus!
