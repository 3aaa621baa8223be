//! The AAC decoder: AAC packets in, interleaved float PCM out.
//!
//! LC packets come with an ADTS header, which says what the stream is; those of the
//! other profiles are raw AAC, and the parameters and a magic cookie say it.

use vstd::prelude::*;
use vstd::slice::slice_to_vec;

use crate::adts::{self, header_bytes, header_of, header_round_trips, AdtsHeader, SAMPLE_RATES};
use crate::bytes::copy_range;
use crate::encoder::{format_id, profile_of, AacProfile};
use crate::error::{fails_with, Error, ErrorView};
use crate::params::{get_option, option_value, CodecParameters};
use crate::session::{
    ConverterSetup, DecodeRules, DecodeSession, DecodeState, FillRequest, Geometry, SendStep,
    SetupView, Supply,
};
use crate::status::{status_error, status_failure};
use crate::sys::{
    compressed_format, float32_format, AudioStreamBasicDescription, OSStatus, NO_ERR,
};
use crate::text::join3;

verus! {

/// A stream whose converter is being created.
#[derive(Debug)]
pub struct Opening {
    /// Sample rate of the output in hertz.
    pub sample_rate: u32,
    /// Channels.
    pub channels: u16,
    /// The raw packet that waits for the converter.
    pub packet: Vec<u8>,
}

/// The AAC decoder.
#[derive(Debug)]
pub struct AacAtDecoder {
    /// Identifier of the codec.
    pub codec_id: String,
    /// Sample rate in hertz: of the coded core until the converter was created, of the
    /// output from then on.
    pub sample_rate: u32,
    /// Channels.
    pub channels: u16,
    /// Magic cookie; empty where the packets describe themselves.
    pub cookie: Vec<u8>,
    /// Whether the converter was created.
    pub configured: bool,
    /// The profile of the stream.
    pub profile: AacProfile,
    /// The stream whose converter is being created.
    pub opening: Option<Opening>,
    /// The session with the converter.
    pub session: DecodeSession,
}

/// The packets of a profile that stay queued while the stream goes on.
pub open spec fn slack_of(profile: AacProfile) -> usize {
    match profile {
        AacProfile::Lc => 0,
        AacProfile::He | AacProfile::HeV2 => 4,
        AacProfile::Ld | AacProfile::Eld => 1,
    }
}

/// The output sample rate of a stream whose core has the given one.
pub open spec fn output_rate(profile: AacProfile, rate: u32) -> int {
    if profile.doubles_rate() {
        rate * 2
    } else {
        rate as int
    }
}

/// The rules of an AAC session.
pub open spec fn is_aac_rules(rules: DecodeRules, profile: AacProfile) -> bool {
    &&& rules.keep == slack_of(profile)
    &&& rules.flush_inputs == 32
    &&& rules.flush_tail == 4
    &&& rules.op@ == "AudioConverterFillComplexBuffer"@
}

/// The converter of a stream.
pub open spec fn aac_setup(
    profile: AacProfile,
    rate: u32,
    channels: u32,
    cookie: Seq<u8>,
) -> SetupView {
    SetupView {
        source: compressed_format(
            rate,
            format_id(profile),
            0,
            0,
            profile.frames(),
            channels,
        ),
        destination: float32_format(rate, channels),
        cookie,
        create_op: "AudioConverterNew (profile="@ + profile.label() + ")"@,
        cookie_op: "AudioConverterSetProperty(DecompressionMagicCookie)"@,
    }
}

/// The shape of a stream's audio: a fill asks for one packet's worth.
pub open spec fn aac_geometry(profile: AacProfile, channels: u16) -> Geometry {
    Geometry {
        request: FillRequest {
            channels: channels as u32,
            packets: profile.frames(),
            capacity: (profile.frames() * channels * 4) as u64,
        },
        bytes_per_frame: (channels * 4) as usize,
    }
}

/// The core sample rate and the channels of a stream, as an ADTS header gives them.
pub open spec fn adts_stream(h: AdtsHeader) -> Result<(u32, u32), ErrorView> {
    if h.sampling_freq_index >= 13 {
        Err(ErrorView::InvalidData("ADTS: unknown sampling-frequency index"@))
    } else if h.channel_configuration == 0 || h.channel_configuration > 7 {
        Err(ErrorView::InvalidData("ADTS: unsupported channel configuration"@))
    } else {
        Ok(
            (
                SAMPLE_RATES@[h.sampling_freq_index as int],
                if h.channel_configuration == 7 {
                    8
                } else {
                    h.channel_configuration as u32
                },
            ),
        )
    }
}

impl AacAtDecoder {
    /// The core sample rate and the channels of a raw stream, as the parameters give
    /// them.
    pub open spec fn raw_stream(self) -> Result<(u32, u32), ErrorView> {
        if self.sample_rate == 0 || self.channels == 0 {
            Err(
                ErrorView::InvalidData(
                    "HE-AAC decoder: sample_rate and channels required when no ADTS header is present"@,
                ),
            )
        } else if self.cookie@.len() == 0 {
            Err(
                ErrorView::InvalidData(
                    "HE-AAC decoder: magic cookie (extradata) required to decode HE-AAC streams"@,
                ),
            )
        } else {
            Ok((self.sample_rate, self.channels as u32))
        }
    }

    /// The core sample rate and the channels of the stream of a packet.
    pub open spec fn stream_of(self, data: Seq<u8>) -> Result<(u32, u32), ErrorView> {
        if self.profile is Lc {
            adts_stream(header_of(data)->0)
        } else {
            self.raw_stream()
        }
    }

    /// Why a packet has no payload, if it has none: an LC packet must hold a whole ADTS
    /// frame.
    pub open spec fn framing_refusal(self, data: Seq<u8>) -> Option<ErrorView> {
        if self.profile is Lc {
            match header_of(data) {
                None => Some(ErrorView::InvalidData("AT decoder: bad ADTS sync"@)),
                Some(h) => if h.frame_length > data.len() {
                    Some(ErrorView::NeedMore)
                } else {
                    None
                },
            }
        } else {
            None
        }
    }

    /// The raw AAC of a packet.
    pub open spec fn payload(self, data: Seq<u8>) -> Seq<u8> {
        if self.profile is Lc {
            let h = header_of(data)->0;
            data.subrange(h.length(), h.frame_length as int)
        } else {
            data
        }
    }

    /// A packet whose payload is taken has a frame that is no shorter than its own
    /// header, and an output sample rate that is computed fits 32 bits.
    pub open spec fn can_take(self, data: Seq<u8>) -> bool {
        self.session.eof || {
            &&& self.profile is Lc && self.framing_refusal(data) is None && (self.configured
                || self.stream_of(data) is Ok) ==> header_of(data)->0.length()
                <= header_of(data)->0.frame_length
            &&& self.profile.doubles_rate() && !self.configured && self.raw_stream() is Ok
                ==> self.sample_rate * 2 <= u32::MAX
        }
    }

    /// What never changes in the life of a decoder.
    pub open spec fn same_codec(self, other: AacAtDecoder) -> bool {
        &&& self.codec_id == other.codec_id
        &&& self.cookie == other.cookie
        &&& self.profile == other.profile
    }

    /// Make a decoder. Its converter is made when the first packet comes.
    pub fn new(params: &CodecParameters) -> (d: AacAtDecoder)
        ensures
            d.codec_id@ == params.codec_id@,
            d.sample_rate == (match params.sample_rate {
                Some(rate) => rate,
                None => 44_100,
            }),
            d.channels == (match params.channels {
                Some(n) => n,
                None => 2,
            }),
            d.cookie@ == params.extradata@,
            !d.configured,
            d.profile == profile_of(option_value(params.options, "profile"@)),
            d.opening is None,
            is_aac_rules(d.session.rules, d.profile),
            d.session@ == DecodeState::fresh(
                d.session.rules,
                Geometry {
                    request: FillRequest { channels: 0, packets: 0, capacity: 0 },
                    bytes_per_frame: 0,
                },
            ),
    {
        let profile = AacProfile::parse(get_option(&params.options, "profile"));
        let keep: usize = match profile {
            AacProfile::Lc => 0,
            AacProfile::He | AacProfile::HeV2 => 4,
            AacProfile::Ld | AacProfile::Eld => 1,
        };
        let rules = DecodeRules {
            keep,
            flush_inputs: 32,
            flush_tail: 4,
            op: "AudioConverterFillComplexBuffer",
        };
        let geometry = Geometry {
            request: FillRequest { channels: 0, packets: 0, capacity: 0 },
            bytes_per_frame: 0,
        };
        AacAtDecoder {
            codec_id: params.codec_id.clone(),
            sample_rate: match params.sample_rate {
                Some(rate) => rate,
                None => 44_100,
            },
            channels: match params.channels {
                Some(n) => n,
                None => 2,
            },
            cookie: slice_to_vec(params.extradata.as_slice()),
            configured: false,
            profile,
            opening: None,
            session: DecodeSession::new(rules, geometry),
        }
    }

    /// The stream of an ADTS header.
    fn configure_from_adts(hdr: &AdtsHeader) -> (r: Result<(u32, u32), Error>)
        requires
            hdr.channel_configuration < 8,
        ensures
            match adts_stream(*hdr) {
                Ok(stream) => r == Ok::<(u32, u32), Error>(stream) && 1 <= stream.1 <= 8,
                Err(e) => fails_with(r, e),
            },
    {
        if hdr.sampling_freq_index as usize >= SAMPLE_RATES.len() {
            return Err(Error::invalid("ADTS: unknown sampling-frequency index"));
        }
        let rate: u32 = SAMPLE_RATES[hdr.sampling_freq_index as usize];
        let channels: u32 = match hdr.channel_configuration {
            1..=6 => hdr.channel_configuration as u32,
            7 => 8,
            _ => {
                return Err(Error::invalid("ADTS: unsupported channel configuration"));
            },
        };
        Ok((rate, channels))
    }

    /// The stream that the parameters and the cookie give.
    fn configure_from_cookie(&self) -> (r: Result<(u32, u32), Error>)
        ensures
            match self.raw_stream() {
                Ok(stream) => r == Ok::<(u32, u32), Error>(stream),
                Err(e) => fails_with(r, e),
            },
    {
        if self.sample_rate == 0 || self.channels == 0 {
            return Err(
                Error::invalid(
                    "HE-AAC decoder: sample_rate and channels required when no ADTS header is present",
                ),
            );
        }
        if self.cookie.len() == 0 {
            return Err(
                Error::invalid(
                    "HE-AAC decoder: magic cookie (extradata) required to decode HE-AAC streams",
                ),
            );
        }
        Ok((self.sample_rate, self.channels as u32))
    }

    /// Ask for the converter of a stream, whose first packet waits for it.
    fn configure_inner(&mut self, rate: u32, channels: u32, packet: Vec<u8>) -> (setup:
        ConverterSetup)
        requires
            channels <= u16::MAX,
            output_rate(old(self).profile, rate) <= u32::MAX,
        ensures
            final(self).same_codec(*old(self)),
            final(self).sample_rate == old(self).sample_rate,
            final(self).channels == old(self).channels,
            final(self).configured == old(self).configured,
            final(self).opening == Some(
                Opening {
                    sample_rate: output_rate(old(self).profile, rate) as u32,
                    channels: channels as u16,
                    packet,
                },
            ),
            final(self).session == old(self).session,
            setup@ == aac_setup(
                old(self).profile,
                output_rate(old(self).profile, rate) as u32,
                channels,
                old(self).cookie@,
            ),
    {
        let (source, out_rate) = match self.profile {
            AacProfile::Lc => (AudioStreamBasicDescription::mpeg4_aac(rate, channels), rate),
            AacProfile::He => (
                AudioStreamBasicDescription::mpeg4_aac_he(rate * 2, channels),
                rate * 2,
            ),
            AacProfile::HeV2 => (
                AudioStreamBasicDescription::mpeg4_aac_he_v2(rate * 2, channels),
                rate * 2,
            ),
            AacProfile::Ld => (AudioStreamBasicDescription::mpeg4_aac_ld(rate, channels), rate),
            AacProfile::Eld => (AudioStreamBasicDescription::mpeg4_aac_eld(rate, channels), rate),
        };
        self.opening = Some(Opening { sample_rate: out_rate, channels: channels as u16, packet });
        let setup = ConverterSetup {
            source,
            destination: AudioStreamBasicDescription::pcm_float32(out_rate, channels),
            cookie: slice_to_vec(self.cookie.as_slice()),
            create_op: join3("AudioConverterNew (profile=", self.profile.name(), ")"),
            cookie_op: "AudioConverterSetProperty(DecompressionMagicCookie)",
        };
        assert(setup@ =~= aac_setup(
            self.profile,
            output_rate(self.profile, rate) as u32,
            channels,
            self.cookie@,
        ));
        setup
    }

    /// Take a packet. The first one leads to the creation of a converter, from then on
    /// packets are queued.
    pub fn send_packet(&mut self, data: &[u8]) -> (r: Result<SendStep, Error>)
        requires
            old(self).can_take(data@),
        ensures
            final(self).same_codec(*old(self)),
            final(self).sample_rate == old(self).sample_rate,
            final(self).channels == old(self).channels,
            final(self).configured == old(self).configured,
            old(self).session.eof ==> fails_with(r, ErrorView::Eof) && *final(self) == *old(self),
            !old(self).session.eof ==> match old(self).framing_refusal(data@) {
                Some(e) => fails_with(r, e) && *final(self) == *old(self),
                None => if old(self).configured {
                    &&& r matches Ok(SendStep::Queued)
                    &&& final(self).opening == old(self).opening
                    &&& final(self).session@ == old(self).session@.queued(
                        old(self).payload(data@),
                    )
                } else {
                    match old(self).stream_of(data@) {
                        Err(e) => fails_with(r, e) && *final(self) == *old(self),
                        Ok((rate, channels)) => {
                            let out_rate = output_rate(old(self).profile, rate);
                            &&& r matches Ok(SendStep::Open(setup))
                            &&& setup@ == aac_setup(
                                old(self).profile,
                                out_rate as u32,
                                channels,
                                old(self).cookie@,
                            )
                            &&& final(self).opening matches Some(opening)
                            &&& opening.sample_rate == out_rate
                            &&& opening.channels == channels
                            &&& opening.packet@ == old(self).payload(data@)
                            &&& final(self).session == old(self).session
                        },
                    }
                },
            },
    {
        if self.session.eof {
            return Err(Error::Eof);
        }
        let (packet, stream) = match self.profile {
            AacProfile::Lc => {
                let hdr = match adts::parse(data) {
                    Some(hdr) => hdr,
                    None => {
                        return Err(Error::invalid("AT decoder: bad ADTS sync"));
                    },
                };
                if hdr.frame_length > data.len() {
                    return Err(Error::NeedMore);
                }
                let stream = if self.configured {
                    None
                } else {
                    match AacAtDecoder::configure_from_adts(&hdr) {
                        Ok(stream) => Some(stream),
                        Err(e) => {
                            return Err(e);
                        },
                    }
                };
                (copy_range(data, hdr.header_len(), hdr.frame_length), stream)
            },
            _ => {
                let stream = if self.configured {
                    None
                } else {
                    match self.configure_from_cookie() {
                        Ok(stream) => Some(stream),
                        Err(e) => {
                            return Err(e);
                        },
                    }
                };
                (slice_to_vec(data), stream)
            },
        };
        match stream {
            Some((rate, channels)) => Ok(
                SendStep::Open(self.configure_inner(rate, channels, packet)),
            ),
            None => {
                self.session.enqueue(packet);
                Ok(SendStep::Queued)
            },
        }
    }

    /// The converter was created and its cookie installed, or not: on success the stream
    /// is known and its first packet is queued; a failure leaves the decoder as it was
    /// before the packet came. Without a cookie, `cookie` has no meaning.
    pub fn opened(&mut self, created: OSStatus, cookie: OSStatus) -> (r: Result<(), Error>)
        requires
            old(self).opening is Some,
        ensures
            final(self).same_codec(*old(self)),
            final(self).opening is None,
            created != NO_ERR ==> {
                &&& fails_with(
                    r,
                    status_failure(
                        "AudioConverterNew (profile="@ + old(self).profile.label() + ")"@,
                        created,
                    ),
                )
                &&& final(self).sample_rate == old(self).sample_rate
                &&& final(self).channels == old(self).channels
                &&& final(self).configured == old(self).configured
                &&& final(self).session == old(self).session
            },
            created == NO_ERR && old(self).cookie@.len() > 0 && cookie != NO_ERR ==> {
                &&& fails_with(
                    r,
                    status_failure(
                        "AudioConverterSetProperty(DecompressionMagicCookie)"@,
                        cookie,
                    ),
                )
                &&& final(self).sample_rate == old(self).sample_rate
                &&& final(self).channels == old(self).channels
                &&& final(self).configured == old(self).configured
                &&& final(self).session == old(self).session
            },
            created == NO_ERR && (old(self).cookie@.len() == 0 || cookie == NO_ERR) ==> {
                &&& r is Ok
                &&& final(self).sample_rate == old(self).opening->0.sample_rate
                &&& final(self).channels == old(self).opening->0.channels
                &&& final(self).configured
                &&& final(self).session@ == (DecodeState {
                    geometry: aac_geometry(old(self).profile, old(self).opening->0.channels),
                    ..old(self).session@
                }).queued(old(self).opening->0.packet@)
            },
    {
        let opening = self.opening.take().unwrap();
        if created != NO_ERR {
            let op = join3("AudioConverterNew (profile=", self.profile.name(), ")");
            return Err(status_error(op.as_str(), created));
        }
        if self.cookie.len() > 0 && cookie != NO_ERR {
            return Err(
                status_error("AudioConverterSetProperty(DecompressionMagicCookie)", cookie),
            );
        }
        self.sample_rate = opening.sample_rate;
        self.channels = opening.channels;
        let frames: u32 = self.profile.frames_per_packet();
        proof {
            assert(frames * self.channels <= 2048 * 0xFFFF) by (nonlinear_arith)
                requires
                    0 <= frames <= 2048,
                    0 <= self.channels <= 0xFFFF,
            ;
        }
        self.session.geometry = Geometry {
            request: FillRequest {
                channels: self.channels as u32,
                packets: frames,
                capacity: frames as u64 * self.channels as u64 * 4,
            },
            bytes_per_frame: self.channels as usize * 4,
        };
        self.configured = true;
        self.session.enqueue(opening.packet);
        Ok(())
    }

    /// Hand the next packet to the converter, which reads the frame count from it.
    pub fn supply(&mut self) -> (s: Supply)
        ensures
            final(self).same_codec(*old(self)),
            final(self).sample_rate == old(self).sample_rate,
            final(self).channels == old(self).channels,
            final(self).configured == old(self).configured,
            final(self).opening == old(self).opening,
            old(self).session@.queue.len() == 0 ==> {
                &&& s.is_nothing()
                &&& final(self).session@ == old(self).session@
            },
            old(self).session@.queue.len() > 0 ==> {
                &&& s.is_packet(old(self).session@.queue[0], 0)
                &&& final(self).session@ == old(self).session@.supplied()
            },
    {
        self.session.supply(0)
    }

    /// End the stream: drain it, or, where no converter was ever made, be done at once.
    pub fn flush(&mut self)
        ensures
            final(self).same_codec(*old(self)),
            final(self).sample_rate == old(self).sample_rate,
            final(self).channels == old(self).channels,
            final(self).configured == old(self).configured,
            final(self).opening == old(self).opening,
            final(self).session@ == if old(self).configured {
                old(self).session@.flushing()
            } else {
                old(self).session@.ended()
            },
    {
        if self.configured {
            self.session.begin_flush();
        } else {
            self.session.end();
        }
    }

    /// Forget everything that came in; the converter stays.
    pub fn reset(&mut self)
        ensures
            final(self).same_codec(*old(self)),
            final(self).sample_rate == old(self).sample_rate,
            final(self).channels == old(self).channels,
            final(self).configured == old(self).configured,
            final(self).opening is None,
            final(self).session@ == DecodeState::fresh(
                old(self).session.rules,
                old(self).session.geometry,
            ),
    {
        self.opening = None;
        self.session.reset();
    }
}

/// Make a decoder.
pub fn make_decoder(params: &CodecParameters) -> (r: Result<AacAtDecoder, Error>)
    ensures
        r is Ok,
        r->Ok_0.codec_id@ == params.codec_id@,
        r->Ok_0.sample_rate == (match params.sample_rate {
            Some(rate) => rate,
            None => 44_100,
        }),
        r->Ok_0.channels == (match params.channels {
            Some(n) => n,
            None => 2,
        }),
        r->Ok_0.cookie@ == params.extradata@,
        !r->Ok_0.configured,
        r->Ok_0.profile == profile_of(option_value(params.options, "profile"@)),
        r->Ok_0.opening is None,
        is_aac_rules(r->Ok_0.session.rules, r->Ok_0.profile),
        r->Ok_0.session@ == DecodeState::fresh(
            r->Ok_0.session.rules,
            Geometry {
                request: FillRequest { channels: 0, packets: 0, capacity: 0 },
                bytes_per_frame: 0,
            },
        ),
{
    Ok(AacAtDecoder::new(params))
}

/// Framing loses nothing: what an ADTS header was put in front of is what the decoder
/// takes out again.
pub proof fn adts_framing_round_trips(
    d: AacAtDecoder,
    raw: Seq<u8>,
    sf_index: u8,
    channel_config: u8,
    profile: u8,
)
    requires
        d.profile is Lc,
        raw.len() + 7 < 8192,
        sf_index < 16,
        channel_config < 8,
    ensures
        ({
            let packet = header_bytes(raw.len() as int, sf_index, channel_config, profile) + raw;
            &&& d.can_take(packet)
            &&& d.framing_refusal(packet) is None
            &&& d.payload(packet) == raw
        }),
{
    let header = header_bytes(raw.len() as int, sf_index, channel_config, profile);
    header_round_trips(raw.len() as int, sf_index, channel_config, profile, raw);
    assert((header + raw).subrange(7, raw.len() as int + 7) =~= raw);
}

/// How many packets stay queued while the stream goes on: none in LC, four with band
/// replication, one at low delay. At its end 32 fills are for queued packets and four
/// for what the converter still holds.
pub proof fn sessions_keep_their_packets(rules: DecodeRules, profile: AacProfile)
    requires
        is_aac_rules(rules, profile),
    ensures
        profile is Lc ==> rules.keep == 0,
        profile is He || profile is HeV2 ==> rules.keep == 4,
        profile is Ld || profile is Eld ==> rules.keep == 1,
        rules.flush_inputs == 32,
        rules.flush_tail == 4,
        rules.op@ == "AudioConverterFillComplexBuffer"@,
{
}

/// Band replication gives twice the core's rate; in every other profile the output has
/// the core's rate.
pub proof fn band_replication_doubles_the_rate(profile: AacProfile, rate: u32)
    ensures
        profile is He || profile is HeV2 ==> output_rate(profile, rate) == 2 * rate,
        profile is Lc || profile is Ld || profile is Eld ==> output_rate(profile, rate) == rate,
{
}

/// What is declared to the converter: packets of the profile in, float PCM of the same
/// rate and channels out. A fill asks for a packet's worth and has room for exactly that.
pub proof fn converters_are_declared(
    profile: AacProfile,
    rate: u32,
    channels: u16,
    cookie: Seq<u8>,
)
    ensures
        ({
            let setup = aac_setup(profile, rate, channels as u32, cookie);
            &&& profile is Lc ==> setup.source.format_id == 0x61616320
            &&& profile is He ==> setup.source.format_id == 0x61616368
            &&& profile is HeV2 ==> setup.source.format_id == 0x61616370
            &&& profile is Ld ==> setup.source.format_id == 0x6161636C
            &&& profile is Eld ==> setup.source.format_id == 0x61616365
            &&& profile is Lc ==> setup.source.frames_per_packet == 1024
            &&& profile is He || profile is HeV2 ==> setup.source.frames_per_packet == 2048
            &&& profile is Ld || profile is Eld ==> setup.source.frames_per_packet == 512
            &&& setup.source == compressed_format(
                rate,
                setup.source.format_id,
                0,
                0,
                setup.source.frames_per_packet,
                channels as u32,
            )
            &&& setup.destination == float32_format(rate, channels as u32)
            &&& setup.cookie == cookie
            &&& setup.create_op == "AudioConverterNew (profile="@ + profile.label() + ")"@
            &&& setup.cookie_op == "AudioConverterSetProperty(DecompressionMagicCookie)"@
        }),
        ({
            let g = aac_geometry(profile, channels);
            &&& g.request.channels == channels
            &&& g.request.packets == aac_setup(
                profile,
                rate,
                channels as u32,
                cookie,
            ).source.frames_per_packet
            &&& g.bytes_per_frame == 4 * channels
            &&& g.request.capacity == g.request.packets * g.bytes_per_frame
        }),
{
    let frames = profile.frames();
    assert(0 <= frames * channels <= 2048 * 0xFFFF) by (nonlinear_arith)
        requires
            0 <= frames <= 2048,
            0 <= channels <= 0xFFFF,
    ;
    assert(frames * (channels * 4) == frames * channels * 4) by (nonlinear_arith);
}

/// What an ADTS header says of its stream: the rate of its index, and its configuration
/// as the channel count, except that the seventh has eight channels. An index without a
/// rate is told before a configuration without channels.
pub proof fn headers_tell_their_stream(h: AdtsHeader)
    ensures
        ({
            let r = adts_stream(h);
            &&& r is Ok <==> h.sampling_freq_index < 13 && 1 <= h.channel_configuration <= 7
            &&& r matches Ok(stream) ==> {
                &&& stream.0 == SAMPLE_RATES@[h.sampling_freq_index as int]
                &&& h.channel_configuration <= 6 ==> stream.1 == h.channel_configuration
                &&& h.channel_configuration == 7 ==> stream.1 == 8
            }
            &&& h.sampling_freq_index >= 13 ==> r->Err_0 == ErrorView::InvalidData(
                "ADTS: unknown sampling-frequency index"@,
            )
            &&& h.sampling_freq_index < 13 && r is Err ==> r->Err_0 == ErrorView::InvalidData(
                "ADTS: unsupported channel configuration"@,
            )
        }),
{
}

/// The stream of a packet: an LC packet's header tells it; in every other profile the
/// parameters do, and then a cookie must be there as well.
pub proof fn streams_are_told_by_header_or_parameters(d: AacAtDecoder, data: Seq<u8>)
    ensures
        d.profile is Lc ==> (header_of(data) matches Some(h) ==> d.stream_of(data) == adts_stream(
            h,
        )),
        !(d.profile is Lc) ==> {
            let r = d.stream_of(data);
            let given = d.sample_rate > 0 && d.channels > 0;
            &&& r is Ok <==> given && d.cookie@.len() > 0
            &&& r matches Ok(stream) ==> stream.0 == d.sample_rate && stream.1 == d.channels
            &&& !given ==> r->Err_0 == ErrorView::InvalidData(
                "HE-AAC decoder: sample_rate and channels required when no ADTS header is present"@,
            )
            &&& given && d.cookie@.len() == 0 ==> r->Err_0 == ErrorView::InvalidData(
                "HE-AAC decoder: magic cookie (extradata) required to decode HE-AAC streams"@,
            )
        },
{
}

/// In LC a packet must begin with a header and hold the whole frame: without a header it
/// is invalid data, and cut short it needs more. What is decoded is the frame behind its
/// header. In every other profile a packet is taken as it is.
pub proof fn packets_hold_whole_frames(d: AacAtDecoder, data: Seq<u8>)
    ensures
        d.profile is Lc ==> match header_of(data) {
            None => d.framing_refusal(data) == Some(
                ErrorView::InvalidData("AT decoder: bad ADTS sync"@),
            ),
            Some(h) => {
                &&& h.frame_length > data.len() ==> d.framing_refusal(data) == Some(
                    ErrorView::NeedMore,
                )
                &&& h.frame_length <= data.len() ==> d.framing_refusal(data) is None
                &&& h.protection_absent && 7 <= h.frame_length <= data.len() ==> d.payload(data)
                    == data.subrange(7, h.frame_length as int)
                &&& !h.protection_absent && 9 <= h.frame_length <= data.len() ==> d.payload(data)
                    == data.subrange(9, h.frame_length as int)
            },
        },
        !(d.profile is Lc) ==> d.framing_refusal(data) is None && d.payload(data) == data,
{
}

/// A decoder keeps its codec, its cookie and its profile.
pub proof fn codecs_do_not_change(a: AacAtDecoder, b: AacAtDecoder)
    ensures
        a.same_codec(b) <==> a.codec_id == b.codec_id && a.cookie == b.cookie && a.profile
            == b.profile,
{
}

/// Which packets can be taken: after the end of the stream every one, since it is refused.
/// Before it, an LC packet whose payload is taken must have a frame that is no shorter
/// than its header; in the profiles with band replication a rate that is to be doubled
/// must fit 32 bits; and in those of low delay every packet will do.
pub proof fn packets_can_be_taken(d: AacAtDecoder, data: Seq<u8>)
    ensures
        d.session.eof ==> d.can_take(data),
        d.profile is Ld || d.profile is Eld ==> d.can_take(data),
        d.profile is He || d.profile is HeV2 ==> (d.can_take(data) <==> d.session.eof
            || d.configured || d.sample_rate <= 0x7FFF_FFFF || d.channels == 0 || d.cookie@.len()
            == 0),
        d.profile is Lc ==> match header_of(data) {
            None => d.can_take(data),
            Some(h) => {
                &&& h.frame_length > data.len() || h.frame_length >= 9 ==> d.can_take(data)
                &&& h.protection_absent && h.frame_length >= 7 ==> d.can_take(data)
                &&& !d.configured && (h.sampling_freq_index >= 13 || h.channel_configuration == 0)
                    ==> d.can_take(data)
            },
        },
{
}

} // verus!
