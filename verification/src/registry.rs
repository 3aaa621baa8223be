//! What the bridge registers: a decoder and, where the framework has one, an encoder
//! for each codec that the system backs.

use vstd::prelude::*;

use crate::inventory::OsInventory;
use crate::sys::AudioFormatId;

verus! {

/// The priority of every factory; lower numbers win.
pub const PRIORITY: i32 = 10;

/// The priority of a codec in software.
pub const SOFTWARE_PRIORITY: i32 = 100;

/// The codecs of the bridge.
#[derive(Clone, Copy, Debug, PartialEq, Eq, Structural)]
pub enum Codec {
    /// AAC in all its profiles.
    Aac,
    /// Apple Lossless.
    Alac,
    /// iLBC.
    Ilbc,
    /// AMR narrowband.
    AmrNb,
    /// AMR wideband.
    AmrWb,
    /// MPEG audio Layer I.
    Mp1,
    /// MPEG audio Layer II.
    Mp2,
    /// MPEG audio Layer III.
    Mp3,
    /// FLAC.
    Flac,
    /// Opus.
    Opus,
}

/// One half of a codec.
#[derive(Clone, Copy, Debug, PartialEq, Eq, Structural)]
pub enum Half {
    /// The decoder.
    Decoder,
    /// The encoder.
    Encoder,
}

/// A factory to register.
#[derive(Clone, Copy, Debug, PartialEq, Eq, Structural)]
pub struct Registration {
    /// The codec.
    pub codec: Codec,
    /// Which half of it.
    pub half: Half,
}

/// What a factory is registered as being able to do.
#[derive(Clone, Copy, Debug)]
pub struct Capabilities {
    /// The name of the implementation.
    pub implementation: &'static str,
    /// Whether coding loses something.
    pub lossy: bool,
    /// Whether every packet stands on its own.
    pub intra_only: bool,
    /// Whether the codec runs in hardware.
    pub hardware: bool,
    /// The priority; lower numbers win.
    pub priority: i32,
    /// Most channels.
    pub max_channels: u16,
    /// Highest sample rate in hertz.
    pub max_sample_rate: u32,
}

/// [`Capabilities`] as mathematics.
#[verifier::ext_equal]
pub struct CapabilitiesView {
    pub implementation: Seq<char>,
    pub lossy: bool,
    pub intra_only: bool,
    pub hardware: bool,
    pub priority: i32,
    pub max_channels: u16,
    pub max_sample_rate: u32,
}

impl View for Capabilities {
    type V = CapabilitiesView;

    open spec fn view(&self) -> CapabilitiesView {
        CapabilitiesView {
            implementation: self.implementation@,
            lossy: self.lossy,
            intra_only: self.intra_only,
            hardware: self.hardware,
            priority: self.priority,
            max_channels: self.max_channels,
            max_sample_rate: self.max_sample_rate,
        }
    }
}

/// How a container names a codec.
#[derive(Clone, Copy, Debug)]
pub enum Tag {
    /// A four-character code.
    Fourcc([u8; 4]),
    /// A WAVE format number.
    WaveFormat(u16),
    /// An MPEG-4 object type.
    Mp4ObjectType(u8),
    /// A Matroska codec identifier.
    Matroska(&'static str),
}

/// A [`Tag`] as mathematics.
#[verifier::ext_equal]
pub enum TagView {
    Fourcc(Seq<u8>),
    WaveFormat(u16),
    Mp4ObjectType(u8),
    Matroska(Seq<char>),
}

impl View for Tag {
    type V = TagView;

    open spec fn view(&self) -> TagView {
        match self {
            Tag::Fourcc(b) => TagView::Fourcc(b@),
            Tag::WaveFormat(n) => TagView::WaveFormat(*n),
            Tag::Mp4ObjectType(n) => TagView::Mp4ObjectType(*n),
            Tag::Matroska(s) => TagView::Matroska(s@),
        }
    }
}

/// Tags as mathematics.
pub open spec fn tag_views(v: Seq<Tag>) -> Seq<TagView> {
    v.map_values(|t: Tag| t@)
}

/// The codecs in the order of their registration.
pub open spec fn codecs() -> Seq<Codec> {
    seq![
        Codec::Aac,
        Codec::Alac,
        Codec::Ilbc,
        Codec::AmrNb,
        Codec::AmrWb,
        Codec::Mp1,
        Codec::Mp2,
        Codec::Mp3,
        Codec::Flac,
        Codec::Opus,
    ]
}

impl Codec {
    /// The codec's identifier.
    pub open spec fn label(self) -> Seq<char> {
        match self {
            Codec::Aac => "aac"@,
            Codec::Alac => "alac"@,
            Codec::Ilbc => "ilbc"@,
            Codec::AmrNb => "amr_nb"@,
            Codec::AmrWb => "amr_wb"@,
            Codec::Mp1 => "mp1"@,
            Codec::Mp2 => "mp2"@,
            Codec::Mp3 => "mp3"@,
            Codec::Flac => "flac"@,
            Codec::Opus => "opus"@,
        }
    }

    /// The name of the bridge's implementation.
    pub open spec fn implementation_label(self) -> Seq<char> {
        match self {
            Codec::Aac => "aac_audiotoolbox"@,
            Codec::Alac => "alac_audiotoolbox"@,
            Codec::Ilbc => "ilbc_audiotoolbox"@,
            Codec::AmrNb => "amr_nb_audiotoolbox"@,
            Codec::AmrWb => "amr_wb_audiotoolbox"@,
            Codec::Mp1 => "mp1_audiotoolbox"@,
            Codec::Mp2 => "mp2_audiotoolbox"@,
            Codec::Mp3 => "mp3_audiotoolbox"@,
            Codec::Flac => "flac_audiotoolbox"@,
            Codec::Opus => "opus_audiotoolbox"@,
        }
    }

    /// The format by which the system's inventory is searched.
    pub open spec fn inventory_format(self) -> AudioFormatId {
        match self {
            Codec::Aac => AudioFormatId::Mpeg4AacLc,
            Codec::Alac => AudioFormatId::AppleLossless,
            Codec::Ilbc => AudioFormatId::Ilbc,
            Codec::AmrNb => AudioFormatId::AmrNb,
            Codec::AmrWb => AudioFormatId::AmrWb,
            Codec::Mp1 => AudioFormatId::MpegLayer1,
            Codec::Mp2 => AudioFormatId::MpegLayer2,
            Codec::Mp3 => AudioFormatId::MpegLayer3,
            Codec::Flac => AudioFormatId::Flac,
            Codec::Opus => AudioFormatId::Opus,
        }
    }

    /// The bridge has an encoder for the codec; the framework has none for AMR and MPEG
    /// audio.
    pub open spec fn has_encoder(self) -> bool {
        self is Aac || self is Alac || self is Ilbc || self is Flac || self is Opus
    }

    /// Coding loses something.
    pub open spec fn is_lossy(self) -> bool {
        !(self is Alac || self is Flac)
    }

    /// Most channels.
    pub open spec fn channel_limit(self) -> u16 {
        match self {
            Codec::Aac | Codec::Alac | Codec::Flac => 8,
            Codec::Ilbc | Codec::AmrNb | Codec::AmrWb => 1,
            Codec::Mp1 | Codec::Mp2 | Codec::Mp3 | Codec::Opus => 2,
        }
    }

    /// Highest sample rate in hertz.
    pub open spec fn rate_limit(self) -> u32 {
        match self {
            Codec::Aac => 96_000,
            Codec::Alac => 384_000,
            Codec::Ilbc | Codec::AmrNb => 8_000,
            Codec::AmrWb => 16_000,
            Codec::Mp1 | Codec::Mp2 | Codec::Mp3 | Codec::Opus => 48_000,
            Codec::Flac => 192_000,
        }
    }

    /// How containers name the codec.
    pub open spec fn tag_list(self) -> Seq<TagView> {
        match self {
            Codec::Aac => seq![
                TagView::WaveFormat(0x00FF),
                TagView::WaveFormat(0x706D),
                TagView::WaveFormat(0x4143),
                TagView::WaveFormat(0xA106),
                TagView::Mp4ObjectType(0x40),
                TagView::Matroska("A_AAC"@),
            ],
            Codec::Alac => seq![
                TagView::Fourcc(seq![0x61, 0x6C, 0x61, 0x63]),
                TagView::Matroska("A_ALAC"@),
            ],
            Codec::Ilbc => seq![
                TagView::Fourcc(seq![0x69, 0x6C, 0x62, 0x63]),
                TagView::Matroska("A_REAL/iLBC"@),
            ],
            Codec::AmrNb => seq![
                TagView::Fourcc(seq![0x73, 0x61, 0x6D, 0x72]),
                TagView::Matroska("A_AMR/NB"@),
            ],
            Codec::AmrWb => seq![
                TagView::Fourcc(seq![0x73, 0x61, 0x77, 0x62]),
                TagView::Matroska("A_AMR/WB"@),
            ],
            Codec::Mp1 => seq![
                TagView::Fourcc(seq![0x2E, 0x6D, 0x70, 0x31]),
                TagView::Matroska("A_MPEG/L1"@),
            ],
            Codec::Mp2 => seq![
                TagView::Fourcc(seq![0x2E, 0x6D, 0x70, 0x32]),
                TagView::Matroska("A_MPEG/L2"@),
                TagView::WaveFormat(0x0050),
            ],
            Codec::Mp3 => seq![
                TagView::Fourcc(seq![0x2E, 0x6D, 0x70, 0x33]),
                TagView::Mp4ObjectType(0x6B),
                TagView::Matroska("A_MPEG/L3"@),
                TagView::WaveFormat(0x0055),
            ],
            Codec::Flac => seq![
                TagView::Fourcc(seq![0x66, 0x6C, 0x61, 0x63]),
                TagView::Matroska("A_FLAC"@),
            ],
            Codec::Opus => seq![
                TagView::Fourcc(seq![0x4F, 0x70, 0x75, 0x73]),
                TagView::Matroska("A_OPUS"@),
            ],
        }
    }

    /// The codec's identifier.
    pub fn id(self) -> (s: &'static str)
        ensures
            s@ == self.label(),
    {
        match self {
            Codec::Aac => "aac",
            Codec::Alac => "alac",
            Codec::Ilbc => "ilbc",
            Codec::AmrNb => "amr_nb",
            Codec::AmrWb => "amr_wb",
            Codec::Mp1 => "mp1",
            Codec::Mp2 => "mp2",
            Codec::Mp3 => "mp3",
            Codec::Flac => "flac",
            Codec::Opus => "opus",
        }
    }

    /// The name of the bridge's implementation.
    pub fn implementation(self) -> (s: &'static str)
        ensures
            s@ == self.implementation_label(),
    {
        match self {
            Codec::Aac => "aac_audiotoolbox",
            Codec::Alac => "alac_audiotoolbox",
            Codec::Ilbc => "ilbc_audiotoolbox",
            Codec::AmrNb => "amr_nb_audiotoolbox",
            Codec::AmrWb => "amr_wb_audiotoolbox",
            Codec::Mp1 => "mp1_audiotoolbox",
            Codec::Mp2 => "mp2_audiotoolbox",
            Codec::Mp3 => "mp3_audiotoolbox",
            Codec::Flac => "flac_audiotoolbox",
            Codec::Opus => "opus_audiotoolbox",
        }
    }

    /// The format by which the system's inventory is searched.
    pub fn format(self) -> (id: AudioFormatId)
        ensures
            id == self.inventory_format(),
    {
        match self {
            Codec::Aac => AudioFormatId::Mpeg4AacLc,
            Codec::Alac => AudioFormatId::AppleLossless,
            Codec::Ilbc => AudioFormatId::Ilbc,
            Codec::AmrNb => AudioFormatId::AmrNb,
            Codec::AmrWb => AudioFormatId::AmrWb,
            Codec::Mp1 => AudioFormatId::MpegLayer1,
            Codec::Mp2 => AudioFormatId::MpegLayer2,
            Codec::Mp3 => AudioFormatId::MpegLayer3,
            Codec::Flac => AudioFormatId::Flac,
            Codec::Opus => AudioFormatId::Opus,
        }
    }

    /// Whether the bridge has an encoder for the codec.
    pub fn encodes(self) -> (yes: bool)
        ensures
            yes == self.has_encoder(),
    {
        match self {
            Codec::Aac | Codec::Alac | Codec::Ilbc | Codec::Flac | Codec::Opus => true,
            _ => false,
        }
    }

    /// Whether coding loses something.
    pub fn lossy(self) -> (yes: bool)
        ensures
            yes == self.is_lossy(),
    {
        match self {
            Codec::Alac | Codec::Flac => false,
            _ => true,
        }
    }

    /// Most channels.
    pub fn max_channels(self) -> (n: u16)
        ensures
            n == self.channel_limit(),
    {
        match self {
            Codec::Aac | Codec::Alac | Codec::Flac => 8,
            Codec::Ilbc | Codec::AmrNb | Codec::AmrWb => 1,
            Codec::Mp1 | Codec::Mp2 | Codec::Mp3 | Codec::Opus => 2,
        }
    }

    /// Highest sample rate in hertz.
    pub fn max_sample_rate(self) -> (n: u32)
        ensures
            n == self.rate_limit(),
    {
        match self {
            Codec::Aac => 96_000,
            Codec::Alac => 384_000,
            Codec::Ilbc | Codec::AmrNb => 8_000,
            Codec::AmrWb => 16_000,
            Codec::Mp1 | Codec::Mp2 | Codec::Mp3 | Codec::Opus => 48_000,
            Codec::Flac => 192_000,
        }
    }
}

impl Registration {
    /// What the half is registered as being able to do: every half of every codec is
    /// marked as hardware and has the bridge's priority.
    pub open spec fn abilities(self) -> CapabilitiesView {
        CapabilitiesView {
            implementation: self.codec.implementation_label(),
            lossy: self.codec.is_lossy(),
            intra_only: true,
            hardware: true,
            priority: PRIORITY,
            max_channels: self.codec.channel_limit(),
            max_sample_rate: self.codec.rate_limit(),
        }
    }

    /// What the half is registered as being able to do.
    pub fn capabilities(self) -> (c: Capabilities)
        ensures
            c@ == self.abilities(),
    {
        Capabilities {
            implementation: self.codec.implementation(),
            lossy: self.codec.lossy(),
            intra_only: true,
            hardware: true,
            priority: PRIORITY,
            max_channels: self.codec.max_channels(),
            max_sample_rate: self.codec.max_sample_rate(),
        }
    }

    /// The tags that a half claims: those of the codec come with its decoder.
    pub open spec fn tag_list(self) -> Seq<TagView> {
        match self.half {
            Half::Decoder => self.codec.tag_list(),
            Half::Encoder => Seq::empty(),
        }
    }

    /// The tags that a half claims.
    pub fn tags(self) -> (tags: Vec<Tag>)
        ensures
            tag_views(tags@) == self.tag_list(),
    {
        let tags: Vec<Tag> = match self.half {
            Half::Encoder => Vec::new(),
            Half::Decoder => match self.codec {
                Codec::Aac => vec![
                    Tag::WaveFormat(0x00FF),
                    Tag::WaveFormat(0x706D),
                    Tag::WaveFormat(0x4143),
                    Tag::WaveFormat(0xA106),
                    Tag::Mp4ObjectType(0x40),
                    Tag::Matroska("A_AAC"),
                ],
                Codec::Alac => named([0x61, 0x6C, 0x61, 0x63], "A_ALAC"),
                Codec::Ilbc => named([0x69, 0x6C, 0x62, 0x63], "A_REAL/iLBC"),
                Codec::AmrNb => named([0x73, 0x61, 0x6D, 0x72], "A_AMR/NB"),
                Codec::AmrWb => named([0x73, 0x61, 0x77, 0x62], "A_AMR/WB"),
                Codec::Mp1 => named([0x2E, 0x6D, 0x70, 0x31], "A_MPEG/L1"),
                Codec::Mp2 => vec![
                    Tag::Fourcc([0x2E, 0x6D, 0x70, 0x32]),
                    Tag::Matroska("A_MPEG/L2"),
                    Tag::WaveFormat(0x0050),
                ],
                Codec::Mp3 => vec![
                    Tag::Fourcc([0x2E, 0x6D, 0x70, 0x33]),
                    Tag::Mp4ObjectType(0x6B),
                    Tag::Matroska("A_MPEG/L3"),
                    Tag::WaveFormat(0x0055),
                ],
                Codec::Flac => named([0x66, 0x6C, 0x61, 0x63], "A_FLAC"),
                Codec::Opus => named([0x4F, 0x70, 0x75, 0x73], "A_OPUS"),
            },
        };
        assert(tag_views(tags@) =~~= self.tag_list());
        tags
    }
}

fn named(fourcc: [u8; 4], matroska: &'static str) -> (tags: Vec<Tag>)
    ensures
        tag_views(tags@) == seq![TagView::Fourcc(fourcc@), TagView::Matroska(matroska@)],
{
    let tags: Vec<Tag> = vec![Tag::Fourcc(fourcc), Tag::Matroska(matroska)];
    assert(tag_views(tags@) =~= seq![TagView::Fourcc(fourcc@), TagView::Matroska(matroska@)]);
    tags
}

/// What is registered of a codec: the halves that the bridge has and the system backs.
pub open spec fn halves(codec: Codec, inv: OsInventory) -> Seq<Registration> {
    let decoder = if inv.has_decoder(codec.inventory_format()) {
        seq![Registration { codec, half: Half::Decoder }]
    } else {
        Seq::empty()
    };
    let encoder = if codec.has_encoder() && inv.has_encoder(codec.inventory_format()) {
        seq![Registration { codec, half: Half::Encoder }]
    } else {
        Seq::empty()
    };
    decoder + encoder
}

/// What is registered of the first `n` codecs.
pub open spec fn plan(inv: OsInventory, n: nat) -> Seq<Registration>
    decreases n,
{
    if n == 0 {
        Seq::empty()
    } else {
        plan(inv, (n - 1) as nat) + halves(codecs()[n - 1], inv)
    }
}

/// The factories to register on a system with the given inventory; none where the
/// framework, and with it the inventory, could not be loaded.
pub fn register(inventory: Option<&OsInventory>) -> (out: Vec<Registration>)
    ensures
        out@ == match inventory {
            Some(inv) => plan(*inv, codecs().len()),
            None => Seq::empty(),
        },
        forall|i: int|
            0 <= i < out@.len() ==> (#[trigger] out@[i]).abilities().hardware
                && out@[i].abilities().priority == PRIORITY,
{
    let inv = match inventory {
        Some(inv) => inv,
        None => return Vec::new(),
    };
    let all: [Codec; 10] = [
        Codec::Aac,
        Codec::Alac,
        Codec::Ilbc,
        Codec::AmrNb,
        Codec::AmrWb,
        Codec::Mp1,
        Codec::Mp2,
        Codec::Mp3,
        Codec::Flac,
        Codec::Opus,
    ];
    assert(all@ =~= codecs());
    let mut out: Vec<Registration> = Vec::new();
    let mut i: usize = 0;
    while i < 10
        invariant
            i <= 10,
            all@ == codecs(),
            out@ == plan(*inv, i as nat),
        decreases 10 - i,
    {
        let codec = all[i];
        let id = codec.format();
        if inv.decodes(id) {
            out.push(Registration { codec, half: Half::Decoder });
        }
        if codec.encodes() && inv.encodes(id) {
            out.push(Registration { codec, half: Half::Encoder });
        }
        assert(out@ =~= plan(*inv, i as nat) + halves(codec, *inv));
        i = i + 1;
    }
    out
}

/// A half is registered exactly if the bridge has it and the system backs it.
pub proof fn registration_mirrors_the_inventory(inv: OsInventory, r: Registration)
    ensures
        plan(inv, codecs().len()).contains(r) <==> match r.half {
            Half::Decoder => inv.has_decoder(r.codec.inventory_format()),
            Half::Encoder => r.codec.has_encoder() && inv.has_encoder(
                r.codec.inventory_format(),
            ),
        },
{
    lemma_plan_contains(inv, codecs().len(), r);
    let c = codecs();
    assert(c[0] is Aac && c[1] is Alac && c[2] is Ilbc && c[3] is AmrNb && c[4] is AmrWb && c[5] is
        Mp1 && c[6] is Mp2 && c[7] is Mp3 && c[8] is Flac && c[9] is Opus);
    assert(exists|k: int| 0 <= k < c.len() && c[k] == r.codec);
}

proof fn lemma_halves(codec: Codec, inv: OsInventory, r: Registration)
    ensures
        halves(codec, inv).contains(r) <==> r.codec == codec && match r.half {
            Half::Decoder => inv.has_decoder(codec.inventory_format()),
            Half::Encoder => codec.has_encoder() && inv.has_encoder(codec.inventory_format()),
        },
{
    let d = inv.has_decoder(codec.inventory_format());
    let e = codec.has_encoder() && inv.has_encoder(codec.inventory_format());
    let h = halves(codec, inv);
    if d {
        assert(h[0] == (Registration { codec, half: Half::Decoder }));
    }
    if e {
        assert(h[h.len() - 1] == (Registration { codec, half: Half::Encoder }));
    }
}

proof fn lemma_plan_contains(inv: OsInventory, n: nat, r: Registration)
    requires
        n <= codecs().len(),
    ensures
        plan(inv, n).contains(r) <==> (exists|k: int| 0 <= k < n && codecs()[k] == r.codec)
            && match r.half {
            Half::Decoder => inv.has_decoder(r.codec.inventory_format()),
            Half::Encoder => r.codec.has_encoder() && inv.has_encoder(
                r.codec.inventory_format(),
            ),
        },
    decreases n,
{
    if n > 0 {
        let before = plan(inv, (n - 1) as nat);
        let here = halves(codecs()[n - 1], inv);
        lemma_plan_contains(inv, (n - 1) as nat, r);
        lemma_halves(codecs()[n - 1], inv, r);
        if before.contains(r) {
            let i = choose|i: int| 0 <= i < before.len() && before[i] == r;
            assert((before + here)[i] == r);
        }
        if here.contains(r) {
            let i = choose|i: int| 0 <= i < here.len() && here[i] == r;
            assert((before + here)[before.len() + i] == r);
        }
        if plan(inv, n).contains(r) {
            let i = choose|i: int| 0 <= i < plan(inv, n).len() && plan(inv, n)[i] == r;
            if i < before.len() {
                assert(before[i] == r);
            } else {
                assert(here[i - before.len()] == r);
            }
        }
        if exists|k: int| 0 <= k < n && codecs()[k] == r.codec {
            let k = choose|k: int| 0 <= k < n && codecs()[k] == r.codec;
            if k < n - 1 {
                assert(exists|j: int| 0 <= j < n - 1 && codecs()[j] == r.codec);
            }
        }
    }
}

/// AMR and MPEG audio are decode-only, whatever the system claims.
pub proof fn decode_only_codecs_get_no_encoder(inv: OsInventory, codec: Codec)
    requires
        codec is AmrNb || codec is AmrWb || codec is Mp1 || codec is Mp2 || codec is Mp3,
    ensures
        !plan(inv, codecs().len()).contains(Registration { codec, half: Half::Encoder }),
{
    registration_mirrors_the_inventory(inv, Registration { codec, half: Half::Encoder });
}

/// Where the system's lists could not be had, every half that the bridge has is
/// registered.
pub proof fn missing_lists_register_everything(inv: OsInventory, codec: Codec)
    requires
        inv.decodable_formats().len() == 0,
        inv.encodable_formats().len() == 0,
    ensures
        plan(inv, codecs().len()).contains(Registration { codec, half: Half::Decoder }),
        codec.has_encoder() ==> plan(inv, codecs().len()).contains(
            Registration { codec, half: Half::Encoder },
        ),
{
    registration_mirrors_the_inventory(inv, Registration { codec, half: Half::Decoder });
    registration_mirrors_the_inventory(inv, Registration { codec, half: Half::Encoder });
}

/// Every factory is marked as hardware and wins over a codec in software.
pub proof fn registered_factories_are_preferred_hardware(inv: OsInventory, i: int)
    requires
        0 <= i < plan(inv, codecs().len()).len(),
    ensures
        plan(inv, codecs().len())[i].abilities().hardware,
        plan(inv, codecs().len())[i].abilities().priority < SOFTWARE_PRIORITY,
{
}

/// A codec is registered under the identifier that its format belongs to, and it is
/// lossy unless its format codes PCM without loss.
pub proof fn codecs_agree_with_their_formats(codec: Codec)
    ensures
        codec.inventory_format().codec_label() == Some(codec.label()),
        codec.is_lossy() <==> !(codec.inventory_format() is AppleLossless
            || codec.inventory_format() is Flac),
{
}

/// Each codec's identifier, and the bridge's own name for it, which ends in the
/// framework's name.
pub proof fn codecs_have_their_names(codec: Codec)
    ensures
        codec is Aac ==> codec.label() == "aac"@ && codec.implementation_label()
            == "aac_audiotoolbox"@,
        codec is Alac ==> codec.label() == "alac"@ && codec.implementation_label()
            == "alac_audiotoolbox"@,
        codec is Ilbc ==> codec.label() == "ilbc"@ && codec.implementation_label()
            == "ilbc_audiotoolbox"@,
        codec is AmrNb ==> codec.label() == "amr_nb"@ && codec.implementation_label()
            == "amr_nb_audiotoolbox"@,
        codec is AmrWb ==> codec.label() == "amr_wb"@ && codec.implementation_label()
            == "amr_wb_audiotoolbox"@,
        codec is Mp1 ==> codec.label() == "mp1"@ && codec.implementation_label()
            == "mp1_audiotoolbox"@,
        codec is Mp2 ==> codec.label() == "mp2"@ && codec.implementation_label()
            == "mp2_audiotoolbox"@,
        codec is Mp3 ==> codec.label() == "mp3"@ && codec.implementation_label()
            == "mp3_audiotoolbox"@,
        codec is Flac ==> codec.label() == "flac"@ && codec.implementation_label()
            == "flac_audiotoolbox"@,
        codec is Opus ==> codec.label() == "opus"@ && codec.implementation_label()
            == "opus_audiotoolbox"@,
{
}

/// The format by which a codec is looked up is its own; AAC goes by LC.
pub proof fn codecs_are_looked_up_by_their_format(codec: Codec)
    ensures
        codec is Aac ==> codec.inventory_format() is Mpeg4AacLc,
        codec is Alac ==> codec.inventory_format() is AppleLossless,
        codec is Ilbc ==> codec.inventory_format() is Ilbc,
        codec is AmrNb ==> codec.inventory_format() is AmrNb,
        codec is AmrWb ==> codec.inventory_format() is AmrWb,
        codec is Mp1 ==> codec.inventory_format() is MpegLayer1,
        codec is Mp2 ==> codec.inventory_format() is MpegLayer2,
        codec is Mp3 ==> codec.inventory_format() is MpegLayer3,
        codec is Flac ==> codec.inventory_format() is Flac,
        codec is Opus ==> codec.inventory_format() is Opus,
{
}

/// What every half of a codec is able to do: speech codecs are mono at the rate of their
/// band, MPEG audio and Opus are stereo at most and go up to 48 kHz, the others have
/// eight channels and go up to 96, 192 and 384 kHz. Only the two lossless codecs lose
/// nothing; every packet stands on its own, in hardware, at priority 10 where software
/// has 100.
pub proof fn halves_have_their_abilities(r: Registration)
    ensures
        ({
            let c = r.codec;
            let a = r.abilities();
            &&& a.implementation == c.implementation_label()
            &&& a.lossy <==> !(c is Alac || c is Flac)
            &&& a.intra_only
            &&& a.hardware
            &&& a.priority == 10
            &&& c is Aac ==> a.max_channels == 8 && a.max_sample_rate == 96_000
            &&& c is Flac ==> a.max_channels == 8 && a.max_sample_rate == 192_000
            &&& c is Alac ==> a.max_channels == 8 && a.max_sample_rate == 384_000
            &&& c is Ilbc || c is AmrNb ==> a.max_channels == 1 && a.max_sample_rate == 8_000
            &&& c is AmrWb ==> a.max_channels == 1 && a.max_sample_rate == 16_000
            &&& c is Mp1 || c is Mp2 || c is Mp3 || c is Opus ==> a.max_channels == 2
                && a.max_sample_rate == 48_000
        }),
        PRIORITY == 10,
        SOFTWARE_PRIORITY == 100,
        r.codec.has_encoder() <==> r.codec is Aac || r.codec is Alac || r.codec is Ilbc
            || r.codec is Flac || r.codec is Opus,
{
}

/// The tags that come with a codec's decoder. An encoder claims none.
pub proof fn decoders_claim_the_tags(r: Registration)
    ensures
        r.half is Encoder ==> r.tag_list().len() == 0,
        r.half is Decoder ==> {
            let t = r.tag_list();
            match r.codec {
                Codec::Aac => {
                    &&& t.len() == 6
                    &&& t[0] == TagView::WaveFormat(0x00FF)
                    &&& t[1] == TagView::WaveFormat(0x706D)
                    &&& t[2] == TagView::WaveFormat(0x4143)
                    &&& t[3] == TagView::WaveFormat(0xA106)
                    &&& t[4] == TagView::Mp4ObjectType(0x40)
                    &&& t[5] == TagView::Matroska("A_AAC"@)
                },
                Codec::Alac => {
                    &&& t.len() == 2
                    &&& t[0] == TagView::Fourcc(
                        seq!['a' as u8, 'l' as u8, 'a' as u8, 'c' as u8],
                    )
                    &&& t[1] == TagView::Matroska("A_ALAC"@)
                },
                Codec::Ilbc => {
                    &&& t.len() == 2
                    &&& t[0] == TagView::Fourcc(
                        seq!['i' as u8, 'l' as u8, 'b' as u8, 'c' as u8],
                    )
                    &&& t[1] == TagView::Matroska("A_REAL/iLBC"@)
                },
                Codec::AmrNb => {
                    &&& t.len() == 2
                    &&& t[0] == TagView::Fourcc(
                        seq!['s' as u8, 'a' as u8, 'm' as u8, 'r' as u8],
                    )
                    &&& t[1] == TagView::Matroska("A_AMR/NB"@)
                },
                Codec::AmrWb => {
                    &&& t.len() == 2
                    &&& t[0] == TagView::Fourcc(
                        seq!['s' as u8, 'a' as u8, 'w' as u8, 'b' as u8],
                    )
                    &&& t[1] == TagView::Matroska("A_AMR/WB"@)
                },
                Codec::Mp1 => {
                    &&& t.len() == 2
                    &&& t[0] == TagView::Fourcc(
                        seq!['.' as u8, 'm' as u8, 'p' as u8, '1' as u8],
                    )
                    &&& t[1] == TagView::Matroska("A_MPEG/L1"@)
                },
                Codec::Mp2 => {
                    &&& t.len() == 3
                    &&& t[0] == TagView::Fourcc(
                        seq!['.' as u8, 'm' as u8, 'p' as u8, '2' as u8],
                    )
                    &&& t[1] == TagView::Matroska("A_MPEG/L2"@)
                    &&& t[2] == TagView::WaveFormat(0x0050)
                },
                Codec::Mp3 => {
                    &&& t.len() == 4
                    &&& t[0] == TagView::Fourcc(
                        seq!['.' as u8, 'm' as u8, 'p' as u8, '3' as u8],
                    )
                    &&& t[1] == TagView::Mp4ObjectType(0x6B)
                    &&& t[2] == TagView::Matroska("A_MPEG/L3"@)
                    &&& t[3] == TagView::WaveFormat(0x0055)
                },
                Codec::Flac => {
                    &&& t.len() == 2
                    &&& t[0] == TagView::Fourcc(
                        seq!['f' as u8, 'l' as u8, 'a' as u8, 'c' as u8],
                    )
                    &&& t[1] == TagView::Matroska("A_FLAC"@)
                },
                Codec::Opus => {
                    &&& t.len() == 2
                    &&& t[0] == TagView::Fourcc(
                        seq!['O' as u8, 'p' as u8, 'u' as u8, 's' as u8],
                    )
                    &&& t[1] == TagView::Matroska("A_OPUS"@)
                },
            }
        },
{
}

/// The place of a half among all halves: the codecs in the order of the bridge, and each
/// codec's decoder before its encoder.
pub open spec fn place(r: Registration) -> int {
    let codec = match r.codec {
        Codec::Aac => 0int,
        Codec::Alac => 1,
        Codec::Ilbc => 2,
        Codec::AmrNb => 3,
        Codec::AmrWb => 4,
        Codec::Mp1 => 5,
        Codec::Mp2 => 6,
        Codec::Mp3 => 7,
        Codec::Flac => 8,
        Codec::Opus => 9,
    };
    if r.half is Decoder {
        2 * codec
    } else {
        2 * codec + 1
    }
}

/// Halves are registered in the order of their places, each of them once.
pub proof fn halves_are_registered_in_order(inv: OsInventory, i: int, j: int)
    requires
        0 <= i < j < plan(inv, codecs().len()).len(),
    ensures
        place(plan(inv, codecs().len())[i]) < place(plan(inv, codecs().len())[j]),
{
    lemma_plan_in_order(inv, codecs().len());
}

proof fn lemma_plan_in_order(inv: OsInventory, n: nat)
    requires
        n <= codecs().len(),
    ensures
        forall|i: int, j: int|
            0 <= i < j < plan(inv, n).len() ==> place(#[trigger] plan(inv, n)[i]) < place(
                #[trigger] plan(inv, n)[j],
            ),
        forall|i: int| 0 <= i < plan(inv, n).len() ==> place(#[trigger] plan(inv, n)[i]) < 2 * n,
    decreases n,
{
    if n > 0 {
        let before = plan(inv, (n - 1) as nat);
        let codec = codecs()[n - 1];
        let here = halves(codec, inv);
        lemma_plan_in_order(inv, (n - 1) as nat);
        assert(place(Registration { codec, half: Half::Decoder }) == 2 * n - 2);
        assert(here.len() <= 2);
        assert(forall|k: int| 0 <= k < here.len() ==> (#[trigger] here[k]).codec == codec);
        assert(here.len() == 2 ==> here[0].half is Decoder && here[1].half is Encoder);
        let all = plan(inv, n);
        assert(forall|k: int| 0 <= k < before.len() ==> #[trigger] all[k] == before[k]);
        assert(forall|k: int|
            before.len() <= k < all.len() ==> #[trigger] all[k] == here[k - before.len()]);
    }
}

/// Capabilities and tags show every field of theirs.
pub proof fn views_show_their_fields(c: Capabilities, tags: Seq<Tag>, i: int)
    ensures
        c@.implementation == c.implementation@,
        c@.lossy == c.lossy,
        c@.intra_only == c.intra_only,
        c@.hardware == c.hardware,
        c@.priority == c.priority,
        c@.max_channels == c.max_channels,
        c@.max_sample_rate == c.max_sample_rate,
        tag_views(tags).len() == tags.len(),
        0 <= i < tags.len() ==> match tags[i] {
            Tag::Fourcc(b) => tag_views(tags)[i] == TagView::Fourcc(b@),
            Tag::WaveFormat(n) => tag_views(tags)[i] == TagView::WaveFormat(n),
            Tag::Mp4ObjectType(n) => tag_views(tags)[i] == TagView::Mp4ObjectType(n),
            Tag::Matroska(s) => tag_views(tags)[i] == TagView::Matroska(s@),
        },
{
}

} // verus!
