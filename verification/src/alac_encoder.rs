//! The Apple Lossless encoder: interleaved 16-bit or 32-bit PCM in, ALAC packets out.

use vstd::prelude::*;
use vstd::slice::slice_to_vec;

use crate::alac::{
    bit_depth_flag, config_bytes, config_of, config_round_trips, default_config, depth_flag,
    AlacSpecificConfig, DEFAULT_FRAME_LENGTH,
};
use crate::encode::{Demand, EncodeRules, EncodeSession, EncodeState};
use crate::error::{fails_with, Error, ErrorView};
use crate::params::{
    channels_of, empty_options, given_or, option_value, rate_of, CodecParameters, ParamsView,
    SampleFormat,
};
use crate::session::{ConverterSetup, SetupView};
use crate::sys::{
    compressed_format, s16_format, s32_format, AudioStreamBasicDescription,
    K_AUDIO_FORMAT_APPLE_LOSSLESS,
};
use crate::text::{decimal, ending_in, join3};

verus! {

/// The Apple Lossless encoder.
#[derive(Debug)]
pub struct AlacAtEncoder {
    /// Identifier of the codec.
    pub codec_id: String,
    /// Bits of a sample.
    pub bit_depth: u8,
    /// The converter of the stream.
    pub setup: ConverterSetup,
    /// The session with the converter.
    pub session: EncodeSession,
    /// What the coded stream is.
    pub out_params: CodecParameters,
}

/// The sample format that the parameters ask for.
pub open spec fn requested_format(params: CodecParameters) -> SampleFormat {
    given_or(params.sample_format, SampleFormat::S16)
}

/// Why parameters are refused, if they are.
pub open spec fn params_refusal(params: CodecParameters) -> Option<ErrorView> {
    let channels = channels_of(params);
    let format = requested_format(params);
    if !(1 <= channels <= 8) {
        Some(
            ErrorView::Unsupported(
                "ALAC encoder: unsupported channel count "@ + decimal(channels as nat),
            ),
        )
    } else if !(format is S16 || format is S32) {
        Some(
            ErrorView::Unsupported(
                "ALAC encoder: only S16 / S32 input supported (got "@ + format.label() + ")"@,
            ),
        )
    } else {
        None
    }
}

/// Bits of a sample.
pub open spec fn depth_of(format: SampleFormat) -> u8 {
    if format is S16 {
        16
    } else {
        32
    }
}

/// The converter of a stream.
pub open spec fn alac_setup(rate: u32, channels: u16, format: SampleFormat) -> SetupView {
    SetupView {
        source: if format is S16 {
            s16_format(rate, channels as u32)
        } else {
            s32_format(rate, channels as u32)
        },
        destination: compressed_format(
            rate,
            K_AUDIO_FORMAT_APPLE_LOSSLESS,
            depth_flag(depth_of(format))->0,
            0,
            DEFAULT_FRAME_LENGTH,
            channels as u32,
        ),
        cookie: Seq::empty(),
        create_op: "AudioConverterNew (ALAC enc)"@,
        cookie_op: ""@,
    }
}

/// The rules of an ALAC session: a fill is offered one packet's PCM, all at once, and
/// the last packet is short.
pub open spec fn is_alac_rules(rules: EncodeRules, channels: u16) -> bool {
    &&& rules.channels == channels
    &&& rules.frame_length == DEFAULT_FRAME_LENGTH
    &&& !rules.slack
    &&& rules.isolate
    &&& !rules.pad_tail
    &&& rules.demand is All
    &&& !rules.counted
    &&& rules.least_packet_bytes == 256
    &&& rules.op@ == "AudioConverterFillComplexBuffer (ALAC enc)"@
    &&& rules.refusal@ == "AlacAtEncoder only accepts Audio frames"@
}

impl AlacAtEncoder {
    /// What an encoder holds once it is made.
    pub open spec fn is_made(self, params: CodecParameters) -> bool {
        let rate = rate_of(params);
        let channels = channels_of(params);
        let format = requested_format(params);
        &&& self.codec_id@ == params.codec_id@
        &&& self.bit_depth == depth_of(format)
        &&& self.setup@ == alac_setup(rate, channels, format)
        &&& self.session.is_sound()
        &&& is_alac_rules(self.session.rules, channels)
        &&& self.session@ == EncodeState::fresh(
            self.session.rules,
            (format.width() * channels) as u32,
            rate,
            (DEFAULT_FRAME_LENGTH * channels * 4) as u32,
        )
        &&& self.out_params@ == ParamsView {
            codec_id: params.codec_id@,
            sample_rate: Some(rate),
            channels: Some(channels),
            sample_format: Some(format),
            extradata: config_bytes(default_config(rate, channels as u8, depth_of(format))),
            bit_rate: None,
            options: empty_options(),
        }
    }

    /// Make an encoder. Until the framework says more, a packet has as many bytes as
    /// one could need, and the stream is described by a cookie of the encoder's own.
    pub fn new(params: &CodecParameters) -> (r: Result<AlacAtEncoder, Error>)
        ensures
            match params_refusal(*params) {
                Some(e) => fails_with(r, e),
                None => r is Ok && r->Ok_0.is_made(*params),
            },
    {
        let rate: u32 = params.requested_rate();
        let channels: u16 = params.requested_channels();
        let format = params.requested_format(SampleFormat::S16);
        if channels < 1 || channels > 8 {
            return Err(
                Error::Unsupported(
                    ending_in("ALAC encoder: unsupported channel count ", channels as u64),
                ),
            );
        }
        let (source, depth): (AudioStreamBasicDescription, u8) = match format {
            SampleFormat::S16 => (
                AudioStreamBasicDescription::pcm_s16(rate, channels as u32),
                16u8,
            ),
            SampleFormat::S32 => (
                AudioStreamBasicDescription::pcm_s32(rate, channels as u32),
                32u8,
            ),
            other => {
                return Err(
                    Error::Unsupported(
                        join3(
                            "ALAC encoder: only S16 / S32 input supported (got ",
                            other.name(),
                            ")",
                        ),
                    ),
                );
            },
        };
        let flag: u32 = match bit_depth_flag(depth) {
            Some(f) => f,
            None => 0,
        };
        let setup = ConverterSetup {
            source,
            destination: AudioStreamBasicDescription::apple_lossless(
                rate,
                channels as u32,
                flag,
                DEFAULT_FRAME_LENGTH,
            ),
            cookie: Vec::new(),
            create_op: "AudioConverterNew (ALAC enc)".to_owned(),
            cookie_op: "",
        };
        assert(setup@ =~= alac_setup(rate, channels, format));
        let rules = EncodeRules {
            channels: channels as u32,
            frame_length: DEFAULT_FRAME_LENGTH,
            slack: false,
            isolate: true,
            pad_tail: false,
            demand: Demand::All,
            counted: false,
            least_packet_bytes: 256,
            op: "AudioConverterFillComplexBuffer (ALAC enc)",
            refusal: "AlacAtEncoder only accepts Audio frames",
        };
        let size: u32 = format.bytes_per_sample() as u32 * channels as u32;
        let bound: u32 = DEFAULT_FRAME_LENGTH * channels as u32 * 4;
        let config = AlacSpecificConfig::new(rate, channels as u8, depth);
        let mut out_params = CodecParameters::audio(params.codec_id.as_str());
        out_params.sample_rate = Some(rate);
        out_params.channels = Some(channels);
        out_params.sample_format = Some(format);
        out_params.extradata = slice_to_vec(&config.to_bytes());
        Ok(
            AlacAtEncoder {
                codec_id: params.codec_id.clone(),
                bit_depth: depth,
                setup,
                session: EncodeSession::new(rules, size, rate, bound),
                out_params,
            },
        )
    }

    /// Publish the framework's cookie, if it gave one.
    pub fn cookie_answered(&mut self, cookie: Result<Vec<u8>, Error>)
        ensures
            final(self).codec_id == old(self).codec_id,
            final(self).bit_depth == old(self).bit_depth,
            final(self).setup == old(self).setup,
            final(self).session == old(self).session,
            final(self).out_params@ == (ParamsView {
                extradata: match cookie {
                    Ok(bytes) => bytes@,
                    Err(_) => old(self).out_params@.extradata,
                },
                ..old(self).out_params@
            }),
    {
        self.out_params.publish_cookie(cookie);
    }

    /// What the coded stream is.
    pub fn output_params(&self) -> (p: &CodecParameters)
        ensures
            *p == self.out_params,
    {
        &self.out_params
    }
}

/// Make an encoder.
pub fn make_encoder(params: &CodecParameters) -> (r: Result<AlacAtEncoder, Error>)
    ensures
        match params_refusal(*params) {
            Some(e) => fails_with(r, e),
            None => r is Ok && r->Ok_0.is_made(*params),
        },
{
    AlacAtEncoder::new(params)
}

/// The cookie that an encoder publishes on its own describes its stream.
pub proof fn cookies_describe_the_stream(e: AlacAtEncoder, params: CodecParameters)
    requires
        e.is_made(params),
    ensures
        config_of(e.out_params@.extradata) == Some(
            default_config(
                rate_of(params),
                channels_of(params) as u8,
                depth_of(requested_format(params)),
            ),
        ),
{
    let c = default_config(
        rate_of(params),
        channels_of(params) as u8,
        depth_of(requested_format(params)),
    );
    config_round_trips(c, Seq::empty());
    assert(config_bytes(c) + Seq::<u8>::empty() =~= config_bytes(c));
}

/// One to eight channels are taken, two where none are given, and samples of 16 or 32
/// bits, 16 where no format is given. A wrong channel count is told before a wrong
/// format.
pub proof fn only_some_streams_are_taken(params: CodecParameters)
    ensures
        ({
            let r = params_refusal(params);
            let channels_fit = params.channels matches Some(n) ==> 1 <= n <= 8;
            let format_fits = params.sample_format is None || params.sample_format->0 is S16
                || params.sample_format->0 is S32;
            &&& r is None <==> channels_fit && format_fits
            &&& !channels_fit ==> r == Some(
                ErrorView::Unsupported(
                    "ALAC encoder: unsupported channel count "@ + decimal(
                        params.channels->0 as nat,
                    ),
                ),
            )
            &&& channels_fit && !format_fits ==> r == Some(
                ErrorView::Unsupported(
                    "ALAC encoder: only S16 / S32 input supported (got "@
                        + params.sample_format->0.label() + ")"@,
                ),
            )
        }),
{
}

/// What an encoder is made with: PCM of the format that is asked for in, Apple Lossless
/// of the same depth out, in packets of 4096 samples. A fill is offered one packet's PCM
/// alone and all at once, the last packet is short, every answer with bytes is a packet,
/// and no PCM is held back while the stream goes on.
pub proof fn encoders_are_made_for_their_stream(e: AlacAtEncoder, params: CodecParameters)
    requires
        e.is_made(params),
        params_refusal(params) is None,
    ensures
        ({
            let rate = rate_of(params);
            let channels = channels_of(params) as u32;
            let wide = params.sample_format == Some(SampleFormat::S32);
            &&& e.codec_id@ == params.codec_id@
            &&& wide ==> e.bit_depth == 32 && e.session.staging.bytes_per_frame == 4 * channels
                && e.setup.source == s32_format(rate, channels)
                && e.setup.destination.format_flags == 4
            &&& !wide ==> e.bit_depth == 16 && e.session.staging.bytes_per_frame == 2 * channels
                && e.setup.source == s16_format(rate, channels)
                && e.setup.destination.format_flags == 1
            &&& e.setup.destination == compressed_format(
                rate,
                K_AUDIO_FORMAT_APPLE_LOSSLESS,
                e.setup.destination.format_flags,
                0,
                4096,
                channels,
            )
            &&& e.setup.cookie@.len() == 0
            &&& e.setup.create_op@ == "AudioConverterNew (ALAC enc)"@
            &&& e.setup.cookie_op@ == ""@
            &&& e.session.rules.channels == channels
            &&& e.session.max_packet_bytes == 4096 * channels * 4
        }),
        e.session.rules.frame_length == 4096,
        !e.session.rules.slack,
        e.session.rules.isolate,
        !e.session.rules.pad_tail,
        e.session.rules.demand is All,
        !e.session.rules.counted,
        e.session.rules.least_packet_bytes == 256,
        e.session.rules.op@ == "AudioConverterFillComplexBuffer (ALAC enc)"@,
        e.session.rules.refusal@ == "AlacAtEncoder only accepts Audio frames"@,
        e.session.staging.live().len() == 0,
        e.session.offered.live().len() == 0,
        e.session.fill is None,
        e.session.phase is Idle,
        e.session.sink.pending@.len() == 0,
        e.session.sink.pts == 0,
        !e.session.sink.eof,
        e.session.sink.time_base.num == 1,
        e.session.sink.time_base.den == rate_of(params),
        e.session.is_sound(),
{
    crate::encode::states_show_their_sessions(e.session);
    crate::feed::states_show_their_sinks(e.session.sink, 0);
    let view = e.setup@;
    assert(view.cookie.len() == 0);
}

/// What an encoder publishes of its stream: its rate, channels and format, a cookie of
/// the recommended tuning, no bit rate and no options.
pub proof fn encoders_publish_their_stream(e: AlacAtEncoder, params: CodecParameters, key: Seq<char>)
    requires
        e.is_made(params),
        params_refusal(params) is None,
    ensures
        ({
            let p = e.out_params;
            let channels = channels_of(params);
            let wide = params.sample_format == Some(SampleFormat::S32);
            &&& p.codec_id@ == params.codec_id@
            &&& p.sample_rate == Some(rate_of(params))
            &&& p.channels == Some(channels)
            &&& wide ==> p.sample_format == Some(SampleFormat::S32) && p.extradata@ == config_bytes(
                default_config(rate_of(params), channels as u8, 32),
            )
            &&& !wide ==> p.sample_format == Some(SampleFormat::S16) && p.extradata@
                == config_bytes(default_config(rate_of(params), channels as u8, 16))
            &&& p.bit_rate is None
            &&& option_value(p.options, key) is None
        }),
{
    let view = e.out_params@;
    assert(!view.options.contains_key(key));
}

} // verus!
