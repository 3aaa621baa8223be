//! The Opus decoder: one Opus packet in, interleaved 16-bit PCM out.

use vstd::prelude::*;
use vstd::slice::slice_to_vec;

use crate::error::{fails_with, Error, ErrorView};
use crate::opus::{
    has_magic, head_of, head_packet_bytes, head_writes_back, is_opus_rate, plain_head,
    starts_with_magic, OpusHead, OpusHeadView, OPUS_HEAD_MIN_LEN,
};
use crate::params::{channels_of, CodecParameters};
use crate::session::{
    ConverterSetup, DecodeRules, DecodeSession, DecodeState, FillRequest, Geometry, SetupView,
    Supply,
};
use crate::sys::{
    compressed_format, s16_format, AudioStreamBasicDescription, K_AUDIO_FORMAT_OPUS,
};
use crate::text::{decimal, numbered};

verus! {

/// The Opus decoder.
#[derive(Debug)]
pub struct OpusAtDecoder {
    /// Identifier of the codec.
    pub codec_id: String,
    /// The identification header of the stream.
    pub head: OpusHead,
    /// Sample rate of the output in hertz.
    pub sample_rate: u32,
    /// The converter of the stream.
    pub setup: ConverterSetup,
    /// The session with the converter.
    pub session: DecodeSession,
}

/// The identification header of a stream, and the cookie that carries it.
///
/// Set-up bytes of at least 19 bytes are an identification header and are passed on as
/// they are; fewer are ignored, and the parameters say what the stream is.
pub open spec fn resolved(params: CodecParameters) -> Result<(OpusHeadView, Seq<u8>), ErrorView> {
    let extra = params.extradata@;
    if extra.len() >= OPUS_HEAD_MIN_LEN {
        if has_magic(extra) && head_of(extra) is Some {
            Ok((head_of(extra)->0, extra))
        } else {
            Err(ErrorView::InvalidData("Opus: malformed OpusHead in extradata"@))
        }
    } else {
        let rate = match params.sample_rate {
            Some(rate) => rate,
            None => 48_000,
        };
        let channels = channels_of(params);
        if channels == 0 {
            Err(
                ErrorView::InvalidData(
                    "Opus decoder: channels must be 1 or 2 when no OpusHead cookie is supplied"@,
                ),
            )
        } else if channels > 2 {
            Err(channels_refusal(channels as int))
        } else {
            let head = plain_head(channels as u8, rate);
            Ok((head, head_packet_bytes(head)))
        }
    }
}

/// The refusal of a channel count.
pub open spec fn channels_refusal(channels: int) -> ErrorView {
    ErrorView::Unsupported(
        "Opus decoder (mapping family 0): channel count "@ + decimal(channels as nat)
            + " out of range (1..=2)"@,
    )
}

/// The output sample rate that the parameters ask for.
pub open spec fn requested_rate(params: CodecParameters) -> u32 {
    match params.sample_rate {
        Some(rate) => rate,
        None => 48_000,
    }
}

/// Why a stream is refused, if it is: it must be mono or stereo of mapping family 0, at
/// a sample rate that Opus works at.
pub open spec fn head_refusal(head: OpusHeadView, rate: u32) -> Option<ErrorView> {
    if head.channel_mapping_family != 0 {
        Some(
            ErrorView::Unsupported(
                "Opus decoder: mapping family "@ + decimal(head.channel_mapping_family as nat)
                    + " is not exposed via the AT bridge (multi-channel routing is the container layer's responsibility)"@,
            ),
        )
    } else if !(1 <= head.channel_count <= 2) {
        Some(channels_refusal(head.channel_count as int))
    } else if !is_opus_rate(rate) {
        Some(
            ErrorView::Unsupported(
                "Opus decoder: output rate "@ + decimal(rate as nat)
                    + " Hz is not one of 8000 / 12000 / 16000 / 24000 / 48000 (RFC 6716 §2.1.1)"@,
            ),
        )
    } else {
        None
    }
}

/// The converter of a stream: 20 ms a packet.
pub open spec fn opus_setup(head: OpusHeadView, rate: u32, cookie: Seq<u8>) -> SetupView {
    SetupView {
        source: compressed_format(
            rate,
            K_AUDIO_FORMAT_OPUS,
            0,
            0,
            (rate / 50) as u32,
            head.channel_count as u32,
        ),
        destination: s16_format(rate, head.channel_count as u32),
        cookie,
        create_op: "AudioConverterNew (Opus dec)"@,
        cookie_op: "AudioConverterSetProperty(DecompressionMagicCookie / Opus)"@,
    }
}

/// The shape of a stream's audio: a fill asks for 20 ms, in a buffer that holds the 60
/// ms of the longest packet.
pub open spec fn opus_geometry(head: OpusHeadView, rate: u32) -> Geometry {
    Geometry {
        request: FillRequest {
            channels: head.channel_count as u32,
            packets: (rate / 50) as u32,
            capacity: (rate as int * 60 / 1000 * head.channel_count * 2) as u64,
        },
        bytes_per_frame: (head.channel_count * 2) as usize,
    }
}

/// The rules of an Opus session.
pub open spec fn is_opus_rules(rules: DecodeRules) -> bool {
    &&& rules.keep == 1
    &&& rules.flush_inputs == 256
    &&& rules.flush_tail == 2
    &&& rules.op@ == "AudioConverterFillComplexBuffer (Opus dec)"@
}

/// Find the identification header of a stream and the cookie that carries it.
fn resolve_head(params: &CodecParameters) -> (r: Result<(OpusHead, Vec<u8>), Error>)
    ensures
        match resolved(*params) {
            Ok((head, cookie)) => r is Ok && r->Ok_0.0@ == head && r->Ok_0.1@ == cookie,
            Err(e) => fails_with(r, e),
        },
{
    let extra = params.extradata.as_slice();
    if extra.len() >= OPUS_HEAD_MIN_LEN {
        if !starts_with_magic(extra) {
            return Err(Error::invalid("Opus: malformed OpusHead in extradata"));
        }
        return match OpusHead::parse(extra) {
            Some(head) => Ok((head, slice_to_vec(extra))),
            None => Err(Error::invalid("Opus: malformed OpusHead in extradata")),
        };
    }
    let rate: u32 = match params.sample_rate {
        Some(rate) => rate,
        None => 48_000,
    };
    let channels: u16 = params.requested_channels();
    if channels == 0 {
        return Err(
            Error::invalid(
                "Opus decoder: channels must be 1 or 2 when no OpusHead cookie is supplied",
            ),
        );
    }
    if channels > 2 {
        return Err(refuse_channels(channels));
    }
    let mut head = OpusHead::stereo(rate);
    head.channel_count = channels as u8;
    assert(head@ =~= plain_head(channels as u8, rate));
    let cookie = head.to_packet_bytes();
    Ok((head, cookie))
}

fn refuse_channels(channels: u16) -> (e: Error)
    ensures
        e@ == channels_refusal(channels as int),
{
    Error::Unsupported(
        numbered(
            "Opus decoder (mapping family 0): channel count ",
            channels as u64,
            " out of range (1..=2)",
        ),
    )
}

/// Check an output sample rate.
fn validate_output_rate(rate: u32) -> (r: Result<(), Error>)
    ensures
        is_opus_rate(rate) ==> r is Ok,
        !is_opus_rate(rate) ==> fails_with(
            r,
            ErrorView::Unsupported(
                "Opus decoder: output rate "@ + decimal(rate as nat)
                    + " Hz is not one of 8000 / 12000 / 16000 / 24000 / 48000 (RFC 6716 §2.1.1)"@,
            ),
        ),
{
    match rate {
        8000 | 12000 | 16000 | 24000 | 48000 => Ok(()),
        _ => Err(
            Error::Unsupported(
                numbered(
                    "Opus decoder: output rate ",
                    rate as u64,
                    " Hz is not one of 8000 / 12000 / 16000 / 24000 / 48000 (RFC 6716 §2.1.1)",
                ),
            ),
        ),
    }
}

impl OpusAtDecoder {
    /// What a decoder holds once it is made.
    pub open spec fn is_made(
        self,
        params: CodecParameters,
        head: OpusHeadView,
        cookie: Seq<u8>,
    ) -> bool {
        let rate = requested_rate(params);
        &&& self.codec_id@ == params.codec_id@
        &&& self.head@ == head
        &&& self.sample_rate == rate
        &&& self.setup@ == opus_setup(head, rate, cookie)
        &&& is_opus_rules(self.session.rules)
        &&& self.session@ == DecodeState::fresh(self.session.rules, opus_geometry(head, rate))
    }

    /// Make a decoder for a stream.
    pub fn new(params: &CodecParameters) -> (r: Result<OpusAtDecoder, Error>)
        ensures
            match resolved(*params) {
                Err(e) => fails_with(r, e),
                Ok((head, cookie)) => match head_refusal(head, requested_rate(*params)) {
                    Some(e) => fails_with(r, e),
                    None => r is Ok && r->Ok_0.is_made(*params, head, cookie),
                },
            },
    {
        let (head, cookie) = match resolve_head(params) {
            Ok(found) => found,
            Err(e) => {
                return Err(e);
            },
        };
        if head.channel_mapping_family != 0 {
            return Err(
                Error::Unsupported(
                    numbered(
                        "Opus decoder: mapping family ",
                        head.channel_mapping_family as u64,
                        " is not exposed via the AT bridge (multi-channel routing is the container layer's responsibility)",
                    ),
                ),
            );
        }
        if head.channel_count < 1 || head.channel_count > 2 {
            return Err(refuse_channels(head.channel_count as u16));
        }
        let rate: u32 = match params.sample_rate {
            Some(rate) => rate,
            None => 48_000,
        };
        match validate_output_rate(rate) {
            Ok(()) => {},
            Err(e) => {
                return Err(e);
            },
        }
        let channels: u32 = head.channel_count as u32;
        let frames: u32 = match rate {
            8000 => 160,
            12000 => 240,
            16000 => 320,
            24000 => 480,
            _ => 960,
        };
        let setup = ConverterSetup {
            source: AudioStreamBasicDescription::opus(rate, channels, frames),
            destination: AudioStreamBasicDescription::pcm_s16(rate, channels),
            cookie,
            create_op: "AudioConverterNew (Opus dec)".to_owned(),
            cookie_op: "AudioConverterSetProperty(DecompressionMagicCookie / Opus)",
        };
        let rules = DecodeRules {
            keep: 1,
            flush_inputs: 256,
            flush_tail: 2,
            op: "AudioConverterFillComplexBuffer (Opus dec)",
        };
        let max_frames: u64 = rate as u64 * 60 / 1000;
        proof {
            assert(max_frames * head.channel_count <= 2880 * 2) by (nonlinear_arith)
                requires
                    0 <= max_frames <= 2880,
                    0 <= head.channel_count <= 2,
            ;
        }
        let capacity: u64 = max_frames * head.channel_count as u64 * 2;
        let geometry = Geometry {
            request: FillRequest { channels, packets: frames, capacity },
            bytes_per_frame: head.channel_count as usize * 2,
        };
        assert(setup@ =~= opus_setup(head@, rate, cookie@));
        assert(geometry == opus_geometry(head@, rate));
        Ok(
            OpusAtDecoder {
                codec_id: params.codec_id.clone(),
                head,
                sample_rate: rate,
                setup,
                session: DecodeSession::new(rules, geometry),
            },
        )
    }

    /// Queue a packet. It must have a table-of-contents byte.
    pub fn send_packet(&mut self, data: &[u8]) -> (r: Result<(), Error>)
        ensures
            final(self).codec_id == old(self).codec_id,
            final(self).head == old(self).head,
            final(self).sample_rate == old(self).sample_rate,
            final(self).setup == old(self).setup,
            old(self).session.eof ==> fails_with(r, ErrorView::Eof) && *final(self) == *old(self),
            !old(self).session.eof && data@.len() == 0 ==> {
                &&& fails_with(r, ErrorView::InvalidData("Opus: empty packet (no TOC byte)"@))
                &&& *final(self) == *old(self)
            },
            !old(self).session.eof && data@.len() > 0 ==> {
                &&& r is Ok
                &&& final(self).session@ == old(self).session@.queued(data@)
            },
    {
        if self.session.eof {
            return Err(Error::Eof);
        }
        if data.len() == 0 {
            return Err(Error::invalid("Opus: empty packet (no TOC byte)"));
        }
        self.session.enqueue(slice_to_vec(data));
        Ok(())
    }

    /// Hand the next packet to the converter, which reads the frame count from it.
    pub fn supply(&mut self) -> (s: Supply)
        ensures
            final(self).codec_id == old(self).codec_id,
            final(self).head == old(self).head,
            final(self).sample_rate == old(self).sample_rate,
            final(self).setup == old(self).setup,
            old(self).session@.queue.len() == 0 ==> {
                &&& s.is_nothing()
                &&& final(self).session@ == old(self).session@
            },
            old(self).session@.queue.len() > 0 ==> {
                &&& s.is_packet(old(self).session@.queue[0], 0)
                &&& final(self).session@ == old(self).session@.supplied()
            },
    {
        self.session.supply(0)
    }

    /// Sample rate of the output in hertz.
    pub fn output_sample_rate(&self) -> (rate: u32)
        ensures
            rate == self.sample_rate,
    {
        self.sample_rate
    }

    /// The identification header of the stream.
    pub fn opus_head(&self) -> (head: &OpusHead)
        ensures
            *head == self.head,
    {
        &self.head
    }
}

/// Make a decoder for a stream.
pub fn make_decoder(params: &CodecParameters) -> (r: Result<OpusAtDecoder, Error>)
    ensures
        match resolved(*params) {
            Err(e) => fails_with(r, e),
            Ok((head, cookie)) => match head_refusal(head, requested_rate(*params)) {
                Some(e) => fails_with(r, e),
                None => r is Ok && r->Ok_0.is_made(*params, head, cookie),
            },
        },
{
    OpusAtDecoder::new(params)
}

/// Whatever the set-up bytes are, the cookie of an accepted stream begins with the
/// identification header of the stream.
pub proof fn cookies_carry_the_head(params: CodecParameters)
    requires
        resolved(params) is Ok,
    ensures
        ({
            let (head, cookie) = resolved(params)->Ok_0;
            let bytes = head_packet_bytes(head);
            bytes.len() <= cookie.len() && bytes == cookie.subrange(0, bytes.len() as int)
        }),
{
    let (head, cookie) = resolved(params)->Ok_0;
    if params.extradata@.len() >= OPUS_HEAD_MIN_LEN {
        head_writes_back(cookie);
    } else {
        assert(cookie.subrange(0, cookie.len() as int) =~= cookie);
    }
}

/// Where a stream's header comes from. Set-up bytes of 19 bytes or more must be a header
/// with its magic and are passed on as they are; fewer are ignored, and rate and channels
/// stand in, 48 kHz and two where they are not given.
pub proof fn streams_are_resolved_from_their_set_up_bytes(params: CodecParameters)
    ensures
        ({
            let extra = params.extradata@;
            let r = resolved(params);
            let channels = match params.channels {
                Some(n) => n,
                None => 2,
            };
            let rate = match params.sample_rate {
                Some(n) => n,
                None => 48_000,
            };
            &&& extra.len() >= 19 ==> {
                &&& r is Ok <==> has_magic(extra) && head_of(extra) is Some
                &&& r is Ok ==> r->Ok_0.1 == extra && head_of(extra) == Some(r->Ok_0.0)
                &&& r is Err ==> r->Err_0 == ErrorView::InvalidData(
                    "Opus: malformed OpusHead in extradata"@,
                )
            }
            &&& extra.len() < 19 ==> {
                &&& r is Ok <==> channels == 1 || channels == 2
                &&& r is Ok ==> {
                    let head = r->Ok_0.0;
                    &&& head.channel_count == channels
                    &&& head.input_sample_rate == rate
                    &&& head == plain_head(head.channel_count, rate)
                    &&& r->Ok_0.1 == head_packet_bytes(head)
                }
                &&& channels == 0 ==> r->Err_0 == ErrorView::InvalidData(
                    "Opus decoder: channels must be 1 or 2 when no OpusHead cookie is supplied"@,
                )
                &&& channels > 2 ==> r->Err_0 == ErrorView::Unsupported(
                    "Opus decoder (mapping family 0): channel count "@ + decimal(channels as nat)
                        + " out of range (1..=2)"@,
                )
            }
            &&& requested_rate(params) == rate
        }),
{
}

/// A stream is taken exactly if it is mono or stereo of family 0 and its output rate is
/// one of the five of Opus. A wrong family is told before a wrong channel count, and that
/// before a wrong rate.
pub proof fn only_mono_and_stereo_are_taken(head: OpusHeadView, rate: u32)
    ensures
        ({
            let r = head_refusal(head, rate);
            let family_fits = head.channel_mapping_family == 0;
            let channels_fit = head.channel_count == 1 || head.channel_count == 2;
            let rate_fits = rate == 8_000 || rate == 12_000 || rate == 16_000 || rate == 24_000
                || rate == 48_000;
            &&& r is None <==> family_fits && channels_fit && rate_fits
            &&& !family_fits ==> r == Some(
                ErrorView::Unsupported(
                    "Opus decoder: mapping family "@ + decimal(head.channel_mapping_family as nat)
                        + " is not exposed via the AT bridge (multi-channel routing is the container layer's responsibility)"@,
                ),
            )
            &&& family_fits && !channels_fit ==> r == Some(
                ErrorView::Unsupported(
                    "Opus decoder (mapping family 0): channel count "@ + decimal(
                        head.channel_count as nat,
                    ) + " out of range (1..=2)"@,
                ),
            )
            &&& family_fits && channels_fit && !rate_fits ==> r == Some(
                ErrorView::Unsupported(
                    "Opus decoder: output rate "@ + decimal(rate as nat)
                        + " Hz is not one of 8000 / 12000 / 16000 / 24000 / 48000 (RFC 6716 §2.1.1)"@,
                ),
            )
        }),
{
}

/// What a decoder is made with: Opus in packets of 20 ms in, 16-bit PCM of the same rate
/// and channels out, and room for the 60 ms of the longest packet a fill. One packet
/// stays queued while the stream goes on; at its end 256 fills are for queued packets
/// and two for what the converter still holds.
pub proof fn decoders_are_made_for_their_stream(
    d: OpusAtDecoder,
    params: CodecParameters,
    head: OpusHeadView,
    cookie: Seq<u8>,
)
    requires
        d.is_made(params, head, cookie),
        head_refusal(head, requested_rate(params)) is None,
    ensures
        ({
            let rate = d.sample_rate;
            let channels = head.channel_count as u32;
            &&& d.codec_id@ == params.codec_id@
            &&& d.head@ == head
            &&& params.sample_rate matches Some(given) ==> rate == given
            &&& params.sample_rate is None ==> rate == 48_000
            &&& d.setup.source == compressed_format(
                rate,
                K_AUDIO_FORMAT_OPUS,
                0,
                0,
                d.setup.source.frames_per_packet,
                channels,
            )
            &&& d.setup.source.frames_per_packet * 50 == rate
            &&& d.setup.destination == s16_format(rate, channels)
            &&& d.setup.cookie@ == cookie
            &&& d.session.geometry.request.channels == channels
            &&& d.session.geometry.request.packets * 50 == rate
            &&& d.session.geometry.bytes_per_frame == 2 * channels
            &&& d.session.geometry.request.capacity == 3 * d.session.geometry.request.packets
                * d.session.geometry.bytes_per_frame
        }),
        d.setup.create_op@ == "AudioConverterNew (Opus dec)"@,
        d.setup.cookie_op@ == "AudioConverterSetProperty(DecompressionMagicCookie / Opus)"@,
        d.session.rules.keep == 1,
        d.session.rules.flush_inputs == 256,
        d.session.rules.flush_tail == 2,
        d.session.rules.op@ == "AudioConverterFillComplexBuffer (Opus dec)"@,
        d.session.pending@.len() == 0,
        d.session.input_queue@.len() == 0,
        d.session.pts == 0,
        !d.session.eof,
        d.session.drain is Idle,
{
    crate::session::states_show_their_sessions(d.session, 0, 0);
    let view = d.setup@;
    assert(view.cookie == cookie);
    let n = head.channel_count as int;
    let p = d.sample_rate as int / 50;
    assert(p * 50 == d.sample_rate && d.sample_rate as int * 60 / 1000 == 3 * p);
    assert(d.session.geometry.request.packets == p && 0 <= p <= 960);
    assert(0 <= 3 * p * n && 3 * p * n * 2 == 3 * p * (n * 2) && 3 * p * n <= 2880 * 2)
        by (nonlinear_arith)
        requires
            0 <= p <= 960,
            1 <= n <= 2,
    ;
    assert(d.session.geometry.request.capacity == 3 * p * n * 2);
}

} // verus!
