//! The MPEG audio decoder: one frame of Layer I, II or III a packet in, interleaved
//! 16-bit PCM out.
//!
//! The codec identifier says which layer is expected. The first frame says what the
//! stream is: from then on the bit rate may change, and nothing else.

use vstd::prelude::*;
use vstd::slice::slice_to_vec;

use crate::error::{fails_with, Error, ErrorView};
use crate::mp3::{header_of, is_valid, ChannelMode, FrameHeader, Layer, Version};
use crate::params::CodecParameters;
use crate::session::{
    ConverterSetup, DecodeRules, DecodeSession, DecodeState, FillRequest, Geometry, SendStep,
    SetupView, Supply,
};
use crate::status::{status_error, status_failure};
use crate::sys::{
    compressed_format, s16_format, AudioStreamBasicDescription, OSStatus,
    K_AUDIO_FORMAT_MPEG_LAYER_1, K_AUDIO_FORMAT_MPEG_LAYER_2, K_AUDIO_FORMAT_MPEG_LAYER_3, NO_ERR,
};
use crate::text::{decimal, ending_in, join3, join5, numbered, numbered2, same_text};

verus! {

/// What the first frame of a stream says for the whole of it.
#[derive(Clone, Copy, Debug, PartialEq, Eq, Structural)]
pub struct StreamConfig {
    /// Version.
    pub version: Version,
    /// Layer.
    pub layer: Layer,
    /// Sample rate in hertz.
    pub sample_rate: u32,
    /// Channels.
    pub channels: u32,
    /// Channel mode.
    pub channel_mode: ChannelMode,
    /// Samples per channel in a frame.
    pub samples_per_frame: u32,
}

/// The stream of a frame.
pub open spec fn config_of(h: FrameHeader) -> StreamConfig {
    StreamConfig {
        version: h.version,
        layer: h.layer,
        sample_rate: h.sample_rate,
        channels: h.channel_mode.count(),
        channel_mode: h.channel_mode,
        samples_per_frame: h.samples_per_frame,
    }
}

/// The MPEG audio decoder.
#[derive(Debug)]
pub struct Mp3AtDecoder {
    /// Identifier of the codec.
    pub codec_id: String,
    /// The layer that the codec stands for.
    pub expected: Layer,
    /// What the stream is, once its converter was created.
    pub config: Option<StreamConfig>,
    /// The stream whose converter is being created, and its first packet.
    pub opening: Option<(StreamConfig, Vec<u8>)>,
    /// The session with the converter.
    pub session: DecodeSession,
}

/// The layer that a codec identifier stands for.
pub open spec fn layer_of_codec(codec_id: Seq<char>) -> Layer {
    if codec_id == "mp1"@ {
        Layer::LayerI
    } else if codec_id == "mp2"@ {
        Layer::LayerII
    } else {
        Layer::LayerIII
    }
}

/// The beginning of the message that refuses another layer.
pub open spec fn only_layer(expected: Layer) -> Seq<char> {
    match expected {
        Layer::LayerI => "MP1 decoder: only Layer I is supported (got Layer "@,
        Layer::LayerII => "MP2 decoder: only Layer II is supported (got Layer "@,
        Layer::LayerIII => "MP3 decoder: only Layer III is supported (got Layer "@,
    }
}

/// The format identifier of a layer.
pub open spec fn format_of_layer(layer: Layer) -> u32 {
    match layer {
        Layer::LayerI => K_AUDIO_FORMAT_MPEG_LAYER_1,
        Layer::LayerII => K_AUDIO_FORMAT_MPEG_LAYER_2,
        Layer::LayerIII => K_AUDIO_FORMAT_MPEG_LAYER_3,
    }
}

/// The converter of a stream.
pub open spec fn mp3_setup(c: StreamConfig) -> SetupView {
    SetupView {
        source: compressed_format(
            c.sample_rate,
            format_of_layer(c.layer),
            0,
            0,
            c.samples_per_frame,
            c.channels,
        ),
        destination: s16_format(c.sample_rate, c.channels),
        cookie: Seq::empty(),
        create_op: "AudioConverterNew (MP3 dec)"@,
        cookie_op: ""@,
    }
}

/// The shape of a stream's audio: a fill asks for one frame.
pub open spec fn mp3_geometry(c: StreamConfig) -> Geometry {
    Geometry {
        request: FillRequest {
            channels: c.channels,
            packets: c.samples_per_frame,
            capacity: (c.samples_per_frame * c.channels * 2) as u64,
        },
        bytes_per_frame: (c.channels * 2) as usize,
    }
}

/// No audio, before the stream is known.
pub open spec fn no_geometry() -> Geometry {
    Geometry {
        request: FillRequest { channels: 0, packets: 0, capacity: 0 },
        bytes_per_frame: 0,
    }
}

/// The rules of an MPEG audio session.
pub open spec fn is_mp3_rules(rules: DecodeRules) -> bool {
    &&& rules.keep == 1
    &&& rules.flush_inputs == 256
    &&& rules.flush_tail == 2
    &&& rules.op@ == "AudioConverterFillComplexBuffer (MP3 dec)"@
}

/// Why a packet is no frame, if it is none.
pub open spec fn malformation(data: Seq<u8>) -> Option<ErrorView> {
    if data.len() < 4 {
        Some(
            ErrorView::InvalidData(
                "MP3: packet too short for a frame header ("@ + decimal(data.len()) + " bytes)"@,
            ),
        )
    } else {
        match header_of(data) {
            None => Some(ErrorView::InvalidData("MP3: invalid frame header at packet start"@)),
            Some(h) => if data.len() != h.frame_length {
                Some(
                    ErrorView::InvalidData(
                        "MP3: packet length "@ + decimal(data.len())
                            + " doesn't match header frame_length "@ + decimal(
                            h.frame_length as nat,
                        ),
                    ),
                )
            } else {
                None
            },
        }
    }
}

/// Why the first frame of a stream is refused, if it is.
pub open spec fn wrong_layer(expected: Layer, layer: Layer) -> Option<ErrorView> {
    if layer != expected {
        Some(ErrorView::Unsupported(only_layer(expected) + layer.label() + ")"@))
    } else {
        None
    }
}

/// Why a later frame does not fit its stream, if it does not: the bit rate may change,
/// and nothing else.
pub open spec fn incompatibility(c: StreamConfig, h: FrameHeader) -> Option<ErrorView> {
    let channels = h.channel_mode.count();
    if h.layer != c.layer {
        Some(
            ErrorView::Unsupported(
                "MP3 decoder: mid-stream layer switch ("@ + c.layer.label() + " → "@
                    + h.layer.label() + ") is not supported"@,
            ),
        )
    } else if h.version != c.version {
        Some(
            ErrorView::Unsupported(
                "MP3 decoder: mid-stream version switch ("@ + c.version.label() + " → "@
                    + h.version.label() + ") is not supported"@,
            ),
        )
    } else if h.sample_rate != c.sample_rate {
        Some(
            ErrorView::Unsupported(
                "MP3 decoder: mid-stream sample-rate switch ("@ + decimal(c.sample_rate as nat)
                    + " → "@ + decimal(h.sample_rate as nat) + " Hz) is not supported"@,
            ),
        )
    } else if channels != c.channels {
        Some(
            ErrorView::Unsupported(
                "MP3 decoder: mid-stream channel-count switch ("@ + decimal(c.channels as nat)
                    + " → "@ + decimal(channels as nat) + ") is not supported"@,
            ),
        )
    } else if h.channel_mode != c.channel_mode {
        Some(
            ErrorView::Unsupported(
                "MP3 decoder: mid-stream channel-mode switch ("@ + c.channel_mode.label() + " → "@
                    + h.channel_mode.label() + ") is not supported"@,
            ),
        )
    } else {
        None
    }
}

/// The frames that a packet announces to the converter.
pub open spec fn announced_frames(data: Seq<u8>) -> u32 {
    if data.len() < 4 || header_of(data) is None {
        1152
    } else {
        header_of(data)->0.samples_per_frame
    }
}

fn parse_header(data: &[u8]) -> (r: Option<FrameHeader>)
    requires
        data@.len() >= 4,
    ensures
        r == header_of(data@),
        r matches Some(h) ==> is_valid(h),
{
    FrameHeader::parse([data[0], data[1], data[2], data[3]])
}

/// The converter of a stream.
fn setup_for(c: &StreamConfig) -> (setup: ConverterSetup)
    requires
        c.channels <= 2,
        c.layer is LayerI ==> c.samples_per_frame == 384,
        c.layer is LayerII ==> c.samples_per_frame == 1152,
    ensures
        setup@ == mp3_setup(*c),
{
    let source = match c.layer {
        Layer::LayerI => AudioStreamBasicDescription::mpeg_layer1(c.sample_rate, c.channels),
        Layer::LayerII => AudioStreamBasicDescription::mpeg_layer2(c.sample_rate, c.channels),
        Layer::LayerIII => AudioStreamBasicDescription::mpeg_layer3(
            c.sample_rate,
            c.channels,
            c.samples_per_frame,
        ),
    };
    let setup = ConverterSetup {
        source,
        destination: AudioStreamBasicDescription::pcm_s16(c.sample_rate, c.channels),
        cookie: Vec::new(),
        create_op: "AudioConverterNew (MP3 dec)".to_owned(),
        cookie_op: "",
    };
    assert(setup@ =~= mp3_setup(*c));
    setup
}

impl Mp3AtDecoder {
    /// What a stream that is being opened, or open, keeps.
    pub open spec fn is_sound(self) -> bool {
        &&& self.config matches Some(c) ==> 1 <= c.channels <= 2 && c.samples_per_frame <= 1152
        &&& self.opening matches Some(o) ==> 1 <= o.0.channels <= 2 && o.0.samples_per_frame
            <= 1152
    }

    /// Nothing but the session and the opening differs.
    pub open spec fn same_stream(self, other: Mp3AtDecoder) -> bool {
        &&& self.codec_id == other.codec_id
        &&& self.expected == other.expected
        &&& self.config == other.config
    }

    /// Make a decoder. The stream's own frames say what it is, so that parameters
    /// other than the codec identifier do not matter.
    pub fn new(params: &CodecParameters) -> (r: Result<Mp3AtDecoder, Error>)
        ensures
            r is Ok,
            r->Ok_0.is_sound(),
            r->Ok_0.codec_id@ == params.codec_id@,
            r->Ok_0.expected == layer_of_codec(params.codec_id@),
            r->Ok_0.config is None,
            r->Ok_0.opening is None,
            is_mp3_rules(r->Ok_0.session.rules),
            r->Ok_0.session@ == DecodeState::fresh(r->Ok_0.session.rules, no_geometry()),
    {
        let id = params.codec_id.as_str();
        let expected = if same_text(id, "mp1") {
            Layer::LayerI
        } else if same_text(id, "mp2") {
            Layer::LayerII
        } else {
            Layer::LayerIII
        };
        let rules = DecodeRules {
            keep: 1,
            flush_inputs: 256,
            flush_tail: 2,
            op: "AudioConverterFillComplexBuffer (MP3 dec)",
        };
        let geometry = Geometry {
            request: FillRequest { channels: 0, packets: 0, capacity: 0 },
            bytes_per_frame: 0,
        };
        Ok(
            Mp3AtDecoder {
                codec_id: params.codec_id.clone(),
                expected,
                config: None,
                opening: None,
                session: DecodeSession::new(rules, geometry),
            },
        )
    }

    /// Confirm that a later frame fits its stream: the bit rate may change, and nothing
    /// else. Not before the stream is known.
    pub fn check_compatible(&self, h: &FrameHeader) -> (r: Result<(), Error>)
        requires
            self.config is Some,
        ensures
            match incompatibility(self.config->0, *h) {
                Some(e) => fails_with(r, e),
                None => r is Ok,
            },
            r is Ok <==> {
                &&& self.config->0.layer == h.layer
                &&& self.config->0.version == h.version
                &&& self.config->0.sample_rate == h.sample_rate
                &&& self.config->0.channels == h.channel_mode.count()
                &&& self.config->0.channel_mode == h.channel_mode
            },
    {
        let c = match self.config {
            Some(c) => c,
            None => return Ok(()),
        };
        if h.layer != c.layer {
            return Err(
                Error::Unsupported(
                    join5(
                        "MP3 decoder: mid-stream layer switch (",
                        c.layer.name(),
                        " → ",
                        h.layer.name(),
                        ") is not supported",
                    ),
                ),
            );
        }
        if h.version != c.version {
            return Err(
                Error::Unsupported(
                    join5(
                        "MP3 decoder: mid-stream version switch (",
                        c.version.name(),
                        " → ",
                        h.version.name(),
                        ") is not supported",
                    ),
                ),
            );
        }
        if h.sample_rate != c.sample_rate {
            return Err(
                Error::Unsupported(
                    numbered2(
                        "MP3 decoder: mid-stream sample-rate switch (",
                        c.sample_rate as u64,
                        " → ",
                        h.sample_rate as u64,
                        " Hz) is not supported",
                    ),
                ),
            );
        }
        let channels: u32 = h.channels();
        if channels != c.channels {
            return Err(
                Error::Unsupported(
                    numbered2(
                        "MP3 decoder: mid-stream channel-count switch (",
                        c.channels as u64,
                        " → ",
                        channels as u64,
                        ") is not supported",
                    ),
                ),
            );
        }
        if h.channel_mode != c.channel_mode {
            return Err(
                Error::Unsupported(
                    join5(
                        "MP3 decoder: mid-stream channel-mode switch (",
                        c.channel_mode.name(),
                        " → ",
                        h.channel_mode.name(),
                        ") is not supported",
                    ),
                ),
            );
        }
        Ok(())
    }

    /// Take a packet. It must hold one whole frame. The first one, which must be of
    /// the expected layer, leads to the creation of a converter; a later one must fit
    /// the stream and is queued.
    pub fn send_packet(&mut self, data: &[u8]) -> (r: Result<SendStep, Error>)
        requires
            old(self).is_sound(),
        ensures
            final(self).is_sound(),
            final(self).same_stream(*old(self)),
            old(self).session.eof ==> fails_with(r, ErrorView::Eof) && *final(self) == *old(self),
            !old(self).session.eof ==> match malformation(data@) {
                Some(e) => fails_with(r, e) && *final(self) == *old(self),
                None => {
                    let h = header_of(data@)->0;
                    match old(self).config {
                        None => match wrong_layer(old(self).expected, h.layer) {
                            Some(e) => fails_with(r, e) && *final(self) == *old(self),
                            None => {
                                &&& r matches Ok(SendStep::Open(setup))
                                &&& setup@ == mp3_setup(config_of(h))
                                &&& final(self).session == old(self).session
                                &&& final(self).opening matches Some(o)
                                &&& o.0 == config_of(h)
                                &&& o.1@ == data@
                            },
                        },
                        Some(c) => match incompatibility(c, h) {
                            Some(e) => fails_with(r, e) && *final(self) == *old(self),
                            None => {
                                &&& r matches Ok(SendStep::Queued)
                                &&& final(self).opening == old(self).opening
                                &&& final(self).session@ == old(self).session@.queued(data@)
                            },
                        },
                    }
                },
            },
    {
        if self.session.eof {
            return Err(Error::Eof);
        }
        if data.len() < 4 {
            return Err(
                Error::InvalidData(
                    numbered(
                        "MP3: packet too short for a frame header (",
                        data.len() as u64,
                        " bytes)",
                    ),
                ),
            );
        }
        let header = match parse_header(data) {
            Some(h) => h,
            None => {
                return Err(Error::invalid("MP3: invalid frame header at packet start"));
            },
        };
        if data.len() != header.frame_length {
            let lead = numbered(
                "MP3: packet length ",
                data.len() as u64,
                " doesn't match header frame_length ",
            );
            return Err(
                Error::InvalidData(ending_in(lead.as_str(), header.frame_length as u64)),
            );
        }
        match self.config {
            None => {
                if header.layer != self.expected {
                    let lead = match self.expected {
                        Layer::LayerI => "MP1 decoder: only Layer I is supported (got Layer ",
                        Layer::LayerII => "MP2 decoder: only Layer II is supported (got Layer ",
                        Layer::LayerIII => "MP3 decoder: only Layer III is supported (got Layer ",
                    };
                    return Err(Error::Unsupported(join3(lead, header.layer.name(), ")")));
                }
                let config = StreamConfig {
                    version: header.version,
                    layer: header.layer,
                    sample_rate: header.sample_rate,
                    channels: header.channels(),
                    channel_mode: header.channel_mode,
                    samples_per_frame: header.samples_per_frame,
                };
                self.opening = Some((config, slice_to_vec(data)));
                Ok(SendStep::Open(setup_for(&config)))
            },
            Some(_) => {
                match self.check_compatible(&header) {
                    Ok(()) => {},
                    Err(e) => {
                        return Err(e);
                    },
                }
                self.session.enqueue(slice_to_vec(data));
                Ok(SendStep::Queued)
            },
        }
    }

    /// The converter was created, or not: on success the stream is known and its first
    /// packet is queued.
    pub fn opened(&mut self, status: OSStatus) -> (r: Result<(), Error>)
        requires
            old(self).is_sound(),
            old(self).opening is Some,
        ensures
            final(self).is_sound(),
            final(self).codec_id == old(self).codec_id,
            final(self).expected == old(self).expected,
            final(self).opening is None,
            status != NO_ERR ==> {
                &&& fails_with(r, status_failure("AudioConverterNew (MP3 dec)"@, status))
                &&& final(self).config == old(self).config
                &&& final(self).session == old(self).session
            },
            status == NO_ERR ==> {
                let o = old(self).opening->0;
                &&& r is Ok
                &&& final(self).config == Some(o.0)
                &&& final(self).session@ == (DecodeState {
                    geometry: mp3_geometry(o.0),
                    ..old(self).session@
                }).queued(o.1@)
            },
    {
        let (config, packet) = self.opening.take().unwrap();
        if status != NO_ERR {
            return Err(status_error("AudioConverterNew (MP3 dec)", status));
        }
        proof {
            assert(config.samples_per_frame * config.channels <= 1152 * 2) by (nonlinear_arith)
                requires
                    0 <= config.samples_per_frame <= 1152,
                    0 <= config.channels <= 2,
            ;
        }
        self.config = Some(config);
        self.session.geometry = Geometry {
            request: FillRequest {
                channels: config.channels,
                packets: config.samples_per_frame,
                capacity: config.samples_per_frame as u64 * config.channels as u64 * 2,
            },
            bytes_per_frame: config.channels as usize * 2,
        };
        self.session.enqueue(packet);
        Ok(())
    }

    /// Hand the next packet to the converter, with the frame count of its header.
    pub fn supply(&mut self) -> (s: Supply)
        ensures
            final(self).same_stream(*old(self)),
            final(self).opening == old(self).opening,
            old(self).session@.queue.len() == 0 ==> {
                &&& s.is_nothing()
                &&& final(self).session@ == old(self).session@
            },
            old(self).session@.queue.len() > 0 ==> {
                let front = old(self).session@.queue[0];
                &&& s.is_packet(front, announced_frames(front))
                &&& final(self).session@ == old(self).session@.supplied()
            },
    {
        match self.session.take_packet() {
            Some(data) => {
                let frames: u32 = if data.len() < 4 {
                    1152
                } else {
                    match parse_header(data.as_slice()) {
                        Some(h) => h.samples_per_frame,
                        None => 1152,
                    }
                };
                Supply::packet(data, frames)
            },
            None => Supply::nothing(),
        }
    }

    /// End the stream: drain it, or, where no packet ever came, be done at once.
    pub fn flush(&mut self)
        ensures
            final(self).same_stream(*old(self)),
            final(self).opening == old(self).opening,
            final(self).session@ == if old(self).config is None {
                old(self).session@.ended()
            } else {
                old(self).session@.flushing()
            },
    {
        if self.config.is_none() {
            self.session.end();
        } else {
            self.session.begin_flush();
        }
    }

    /// Forget everything that came in; what the stream is stays known.
    pub fn reset(&mut self)
        ensures
            final(self).same_stream(*old(self)),
            final(self).opening is None,
            final(self).session@ == DecodeState::fresh(
                old(self).session.rules,
                old(self).session.geometry,
            ),
    {
        self.opening = None;
        self.session.reset();
    }
}

/// Make a decoder.
pub fn make_decoder(params: &CodecParameters) -> (r: Result<Mp3AtDecoder, Error>)
    ensures
        r is Ok,
        r->Ok_0.is_sound(),
        r->Ok_0.codec_id@ == params.codec_id@,
        r->Ok_0.expected == layer_of_codec(params.codec_id@),
        r->Ok_0.config is None,
        r->Ok_0.opening is None,
        is_mp3_rules(r->Ok_0.session.rules),
        r->Ok_0.session@ == DecodeState::fresh(r->Ok_0.session.rules, no_geometry()),
{
    Mp3AtDecoder::new(params)
}

/// The bit rate of a frame, its padding and its checksum are no reason to refuse it: a
/// stream of variable bit rate is accepted.
pub proof fn bit_rate_may_vary(
    c: StreamConfig,
    h: FrameHeader,
    bit_rate: u32,
    padding: bool,
    crc_protected: bool,
    frame_length: usize,
)
    ensures
        incompatibility(
            c,
            FrameHeader { bit_rate, padding, crc_protected, frame_length, ..h },
        ) == incompatibility(c, h),
{
}

/// The layer, the version, the sample rate and the channel mode of a later frame decide
/// whether it is accepted, and nothing else does; a refused frame is unsupported.
pub proof fn four_fields_make_the_stream(first: FrameHeader, later: FrameHeader)
    ensures
        incompatibility(config_of(first), later) is None <==> {
            &&& later.layer == first.layer
            &&& later.version == first.version
            &&& later.sample_rate == first.sample_rate
            &&& later.channel_mode == first.channel_mode
        },
        incompatibility(config_of(first), later) matches Some(e) ==> e is Unsupported,
{
}

/// The frames of a stream agree: a later frame is accepted exactly if it tells of the
/// same stream as the first.
pub proof fn accepted_frames_agree_with_the_stream(first: FrameHeader, later: FrameHeader)
    requires
        is_valid(first),
        is_valid(later),
    ensures
        incompatibility(config_of(first), later) is None <==> config_of(later) == config_of(first),
{
}

/// The identifiers of Layer I and Layer II stand for their layers; every other one
/// stands for Layer III.
pub proof fn codecs_stand_for_their_layer(codec_id: Seq<char>)
    ensures
        codec_id == "mp1"@ ==> layer_of_codec(codec_id) is LayerI,
        codec_id == "mp2"@ ==> layer_of_codec(codec_id) is LayerII,
        codec_id != "mp1"@ && codec_id != "mp2"@ ==> layer_of_codec(codec_id) is LayerIII,
{
    reveal_strlit("mp1");
    reveal_strlit("mp2");
    assert("mp1"@[2] != "mp2"@[2]);
}

/// A packet is one whole frame: it begins with a header, and the header's length is its
/// own. Any other is invalid data, and the message says why.
pub proof fn packets_are_whole_frames(data: Seq<u8>)
    ensures
        malformation(data) is None <==> {
            &&& data.len() >= 4
            &&& header_of(data) is Some
            &&& header_of(data)->0.frame_length == data.len()
        },
        data.len() < 4 ==> malformation(data) == Some(
            ErrorView::InvalidData(
                "MP3: packet too short for a frame header ("@ + decimal(data.len()) + " bytes)"@,
            ),
        ),
        data.len() >= 4 && header_of(data) is None ==> malformation(data) == Some(
            ErrorView::InvalidData("MP3: invalid frame header at packet start"@),
        ),
        data.len() >= 4 ==> (header_of(data) matches Some(h) ==> h.frame_length != data.len()
            ==> malformation(data) == Some(
            ErrorView::InvalidData(
                "MP3: packet length "@ + decimal(data.len())
                    + " doesn't match header frame_length "@ + decimal(h.frame_length as nat),
            ),
        )),
{
}

/// The first frame must be of the layer that the codec stands for; the message names the
/// layer that it is of.
pub proof fn first_frames_have_the_codecs_layer(expected: Layer, layer: Layer)
    ensures
        wrong_layer(expected, layer) is None <==> layer == expected,
        layer != expected && expected is LayerI ==> wrong_layer(expected, layer) == Some(
            ErrorView::Unsupported(
                "MP1 decoder: only Layer I is supported (got Layer "@ + layer.label() + ")"@,
            ),
        ),
        layer != expected && expected is LayerII ==> wrong_layer(expected, layer) == Some(
            ErrorView::Unsupported(
                "MP2 decoder: only Layer II is supported (got Layer "@ + layer.label() + ")"@,
            ),
        ),
        layer != expected && expected is LayerIII ==> wrong_layer(expected, layer) == Some(
            ErrorView::Unsupported(
                "MP3 decoder: only Layer III is supported (got Layer "@ + layer.label() + ")"@,
            ),
        ),
{
}

/// The stream of a frame is what its header says, field by field.
pub proof fn streams_are_told_by_their_first_frame(h: FrameHeader)
    ensures
        ({
            let c = config_of(h);
            &&& c.version == h.version
            &&& c.layer == h.layer
            &&& c.sample_rate == h.sample_rate
            &&& c.channel_mode == h.channel_mode
            &&& c.samples_per_frame == h.samples_per_frame
            &&& h.channel_mode is Mono ==> c.channels == 1
            &&& !(h.channel_mode is Mono) ==> c.channels == 2
        }),
{
}

/// What is declared to the converter: the stream's layer and rate with a frame as the
/// packet, and 16-bit PCM of the same rate and channels. A fill asks for one frame and
/// has room for exactly that; before the stream is known it asks for nothing.
pub proof fn converters_are_declared(c: StreamConfig)
    requires
        c.channels <= 2,
        c.samples_per_frame <= 1152,
    ensures
        ({
            let setup = mp3_setup(c);
            &&& c.layer is LayerI ==> setup.source.format_id == 0x2E6D7031
            &&& c.layer is LayerII ==> setup.source.format_id == 0x2E6D7032
            &&& c.layer is LayerIII ==> setup.source.format_id == 0x2E6D7033
            &&& setup.source == compressed_format(
                c.sample_rate,
                setup.source.format_id,
                0,
                0,
                c.samples_per_frame,
                c.channels,
            )
            &&& setup.destination == s16_format(c.sample_rate, c.channels)
            &&& setup.cookie.len() == 0
            &&& setup.create_op == "AudioConverterNew (MP3 dec)"@
            &&& setup.cookie_op == ""@
        }),
        ({
            let g = mp3_geometry(c);
            &&& g.request.channels == c.channels
            &&& g.request.packets == c.samples_per_frame
            &&& g.bytes_per_frame == 2 * c.channels
            &&& g.request.capacity == g.request.packets * g.bytes_per_frame
        }),
        no_geometry().request.channels == 0,
        no_geometry().request.packets == 0,
        no_geometry().request.capacity == 0,
        no_geometry().bytes_per_frame == 0,
{
    assert(0 <= c.samples_per_frame * c.channels <= 1152 * 2) by (nonlinear_arith)
        requires
            0 <= c.samples_per_frame <= 1152,
            0 <= c.channels <= 2,
    ;
    assert(c.samples_per_frame * (c.channels * 2) == c.samples_per_frame * c.channels * 2)
        by (nonlinear_arith);
}

/// One packet stays queued while the stream goes on; at its end 256 fills are for queued
/// packets and two for what the converter still holds.
pub proof fn sessions_keep_one_packet(rules: DecodeRules)
    requires
        is_mp3_rules(rules),
    ensures
        rules.keep == 1,
        rules.flush_inputs == 256,
        rules.flush_tail == 2,
        rules.op@ == "AudioConverterFillComplexBuffer (MP3 dec)"@,
{
}

/// Every queued packet announces the samples that its own header gives it, 384, 576 or
/// 1152; what has no header announces 1152.
pub proof fn packets_announce_their_samples(data: Seq<u8>)
    ensures
        data.len() >= 4 ==> (header_of(data) matches Some(h) ==> {
            &&& announced_frames(data) == h.samples_per_frame
            &&& h.layer is LayerI ==> announced_frames(data) == 384
            &&& h.layer is LayerII || h.version is Mpeg1 && h.layer is LayerIII
                ==> announced_frames(data) == 1152
            &&& h.layer is LayerIII && !(h.version is Mpeg1) ==> announced_frames(data) == 576
        }),
        data.len() < 4 || header_of(data) is None ==> announced_frames(data) == 1152,
{
}

/// Why a later frame does not fit is told by the first of layer, version, rate, channel
/// count and channel mode that differs, with what the stream has and what the frame has.
pub proof fn switches_are_reported_in_order(first: FrameHeader, h: FrameHeader)
    ensures
        ({
            let r = incompatibility(config_of(first), h);
            let channels = first.channel_mode.count();
            &&& h.layer != first.layer ==> r == Some(
                ErrorView::Unsupported(
                    "MP3 decoder: mid-stream layer switch ("@ + first.layer.label() + " → "@
                        + h.layer.label() + ") is not supported"@,
                ),
            )
            &&& h.layer == first.layer && h.version != first.version ==> r == Some(
                ErrorView::Unsupported(
                    "MP3 decoder: mid-stream version switch ("@ + first.version.label() + " → "@
                        + h.version.label() + ") is not supported"@,
                ),
            )
            &&& h.layer == first.layer && h.version == first.version && h.sample_rate
                != first.sample_rate ==> r == Some(
                ErrorView::Unsupported(
                    "MP3 decoder: mid-stream sample-rate switch ("@ + decimal(
                        first.sample_rate as nat,
                    ) + " → "@ + decimal(h.sample_rate as nat) + " Hz) is not supported"@,
                ),
            )
            &&& h.layer == first.layer && h.version == first.version && h.sample_rate
                == first.sample_rate && h.channel_mode.count() != channels ==> r == Some(
                ErrorView::Unsupported(
                    "MP3 decoder: mid-stream channel-count switch ("@ + decimal(channels as nat)
                        + " → "@ + decimal(h.channel_mode.count() as nat) + ") is not supported"@,
                ),
            )
            &&& h.layer == first.layer && h.version == first.version && h.sample_rate
                == first.sample_rate && h.channel_mode.count() == channels && h.channel_mode
                != first.channel_mode ==> r == Some(
                ErrorView::Unsupported(
                    "MP3 decoder: mid-stream channel-mode switch ("@
                        + first.channel_mode.label() + " → "@ + h.channel_mode.label()
                        + ") is not supported"@,
                ),
            )
        }),
{
}

/// A decoder keeps its codec, its layer and its stream through everything but an
/// opening.
pub proof fn streams_do_not_change(a: Mp3AtDecoder, b: Mp3AtDecoder)
    ensures
        a.same_stream(b) <==> a.codec_id == b.codec_id && a.expected == b.expected && a.config
            == b.config,
{
}

} // verus!
