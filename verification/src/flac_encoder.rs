//! The FLAC encoder: interleaved 16-bit or 32-bit PCM in, FLAC frames out.
//!
//! The framework compresses to 24 bits at most, so 32-bit PCM makes a 24-bit stream.

use vstd::prelude::*;

use crate::encode::{Demand, EncodeRules, EncodeSession, EncodeState};
use crate::error::{fails_with, Error, ErrorView};
use crate::flac::{
    bit_depth_flag, build_magic_cookie, cookie_bytes, cookie_info, cookie_round_trips, depth_flag,
    is_representable, StreamInfo,
};
use crate::params::{
    channels_of, empty_options, given_or, option_value, rate_of, CodecParameters, ParamsView,
    SampleFormat,
};
use crate::session::{ConverterSetup, SetupView};
use crate::sys::{
    compressed_format, s16_format, s32_format, AudioStreamBasicDescription, K_AUDIO_FORMAT_FLAC,
};
use crate::text::{decimal, ending_in, join3};

verus! {

/// Samples in a FLAC frame.
pub const DEFAULT_FRAME_LENGTH: u32 = 4096;

/// The FLAC encoder.
#[derive(Debug)]
pub struct FlacAtEncoder {
    /// Identifier of the codec.
    pub codec_id: String,
    /// Bits of a PCM sample.
    pub bit_depth: u8,
    /// The converter of the stream.
    pub setup: ConverterSetup,
    /// The session with the converter.
    pub session: EncodeSession,
    /// What the coded stream is.
    pub out_params: CodecParameters,
}

/// The sample format that the parameters ask for.
pub open spec fn requested_format(params: CodecParameters) -> SampleFormat {
    given_or(params.sample_format, SampleFormat::S16)
}

/// Why parameters are refused, if they are.
pub open spec fn params_refusal(params: CodecParameters) -> Option<ErrorView> {
    let channels = channels_of(params);
    let format = requested_format(params);
    if !(1 <= channels <= 8) {
        Some(
            ErrorView::Unsupported(
                "FLAC encoder: unsupported channel count "@ + decimal(channels as nat),
            ),
        )
    } else if !(format is S16 || format is S32) {
        Some(
            ErrorView::Unsupported(
                "FLAC encoder: only S16 / S32 input supported (got "@ + format.label() + ")"@,
            ),
        )
    } else {
        None
    }
}

/// Bits of a coded sample: 16-bit PCM keeps its depth, 32-bit PCM is coded as 24 bits.
pub open spec fn coded_depth(format: SampleFormat) -> u8 {
    if format is S16 {
        16
    } else {
        24
    }
}

/// What the encoder says of its stream where the framework says nothing.
pub open spec fn is_plain_info(info: StreamInfo, rate: u32, channels: u16, depth: u8) -> bool {
    &&& info.min_blocksize == DEFAULT_FRAME_LENGTH
    &&& info.max_blocksize == DEFAULT_FRAME_LENGTH
    &&& info.min_framesize == 0
    &&& info.max_framesize == 0
    &&& info.sample_rate == rate
    &&& info.channels == channels
    &&& info.bits_per_sample == depth
    &&& info.total_samples == 0
    &&& info.md5@ == Seq::new(16, |i: int| 0u8)
}

/// The converter of a stream.
pub open spec fn flac_setup(rate: u32, channels: u16, format: SampleFormat) -> SetupView {
    SetupView {
        source: if format is S16 {
            s16_format(rate, channels as u32)
        } else {
            s32_format(rate, channels as u32)
        },
        destination: compressed_format(
            rate,
            K_AUDIO_FORMAT_FLAC,
            depth_flag(coded_depth(format))->0,
            0,
            DEFAULT_FRAME_LENGTH,
            channels as u32,
        ),
        cookie: Seq::empty(),
        create_op: "AudioConverterNew (FLAC enc)"@,
        cookie_op: ""@,
    }
}

/// The rules of a FLAC session: the converter looks ahead, so a packet's worth of PCM
/// is kept back, and the last packet is short.
pub open spec fn is_flac_rules(rules: EncodeRules, channels: u16) -> bool {
    &&& rules.channels == channels
    &&& rules.frame_length == DEFAULT_FRAME_LENGTH
    &&& rules.slack
    &&& !rules.isolate
    &&& !rules.pad_tail
    &&& rules.demand is AtLeastOne
    &&& rules.counted
    &&& rules.least_packet_bytes == 256
    &&& rules.op@ == "AudioConverterFillComplexBuffer (FLAC enc)"@
    &&& rules.refusal@ == "FlacAtEncoder only accepts Audio frames"@
}

/// Bytes of one sample in all channels.
pub open spec fn frame_bytes(channels: u16, format: SampleFormat) -> u32 {
    (format.width() * channels) as u32
}

/// The largest packet, where the framework does not say: twice the PCM of a packet and
/// some room for headers.
pub open spec fn packet_bound(channels: u16, format: SampleFormat) -> u32 {
    (DEFAULT_FRAME_LENGTH * frame_bytes(channels, format) * 2 + 1024) as u32
}

impl FlacAtEncoder {
    /// What an encoder holds once it is made.
    pub open spec fn is_made(self, params: CodecParameters) -> bool {
        let rate = rate_of(params);
        let channels = channels_of(params);
        let format = requested_format(params);
        &&& self.codec_id@ == params.codec_id@
        &&& self.bit_depth == 8 * format.width()
        &&& self.setup@ == flac_setup(rate, channels, format)
        &&& self.session.is_sound()
        &&& is_flac_rules(self.session.rules, channels)
        &&& self.session@ == EncodeState::fresh(
            self.session.rules,
            frame_bytes(channels, format),
            rate,
            packet_bound(channels, format),
        )
        &&& exists|info: StreamInfo|
            {
                &&& is_plain_info(info, rate, channels, coded_depth(format))
                &&& self.out_params@.extradata == #[trigger] cookie_bytes(info)
            }
        &&& self.out_params@ == ParamsView {
            codec_id: params.codec_id@,
            sample_rate: Some(rate),
            channels: Some(channels),
            sample_format: Some(format),
            extradata: self.out_params@.extradata,
            bit_rate: None,
            options: empty_options(),
        }
    }

    /// Make an encoder. Until the framework says more, a packet has as many bytes as
    /// one could need, and the stream is described by a cookie of the encoder's own.
    pub fn new(params: &CodecParameters) -> (r: Result<FlacAtEncoder, Error>)
        ensures
            match params_refusal(*params) {
                Some(e) => fails_with(r, e),
                None => r is Ok && r->Ok_0.is_made(*params),
            },
    {
        let rate: u32 = params.requested_rate();
        let channels: u16 = params.requested_channels();
        let format = params.requested_format(SampleFormat::S16);
        if channels < 1 || channels > 8 {
            return Err(
                Error::Unsupported(
                    ending_in("FLAC encoder: unsupported channel count ", channels as u64),
                ),
            );
        }
        let (source, bit_depth, depth): (AudioStreamBasicDescription, u8, u8) = match format {
            SampleFormat::S16 => (
                AudioStreamBasicDescription::pcm_s16(rate, channels as u32),
                16u8,
                16u8,
            ),
            SampleFormat::S32 => (
                AudioStreamBasicDescription::pcm_s32(rate, channels as u32),
                32u8,
                24u8,
            ),
            other => {
                return Err(
                    Error::Unsupported(
                        join3(
                            "FLAC encoder: only S16 / S32 input supported (got ",
                            other.name(),
                            ")",
                        ),
                    ),
                );
            },
        };
        let flag: u32 = match bit_depth_flag(depth) {
            Some(f) => f,
            None => 0,
        };
        let setup = ConverterSetup {
            source,
            destination: AudioStreamBasicDescription::flac(
                rate,
                channels as u32,
                flag,
                DEFAULT_FRAME_LENGTH,
            ),
            cookie: Vec::new(),
            create_op: "AudioConverterNew (FLAC enc)".to_owned(),
            cookie_op: "",
        };
        assert(setup@ =~= flac_setup(rate, channels, format));
        let rules = EncodeRules {
            channels: channels as u32,
            frame_length: DEFAULT_FRAME_LENGTH,
            slack: true,
            isolate: false,
            pad_tail: false,
            demand: Demand::AtLeastOne,
            counted: true,
            least_packet_bytes: 256,
            op: "AudioConverterFillComplexBuffer (FLAC enc)",
            refusal: "FlacAtEncoder only accepts Audio frames",
        };
        let size: u32 = format.bytes_per_sample() as u32 * channels as u32;
        let bound: u32 = DEFAULT_FRAME_LENGTH * size * 2 + 1024;
        let info = StreamInfo {
            min_blocksize: DEFAULT_FRAME_LENGTH as u16,
            max_blocksize: DEFAULT_FRAME_LENGTH as u16,
            min_framesize: 0,
            max_framesize: 0,
            sample_rate: rate,
            channels: channels as u8,
            bits_per_sample: depth,
            total_samples: 0,
            md5: [0u8; 16],
        };
        assert(info.md5@ =~= Seq::new(16, |i: int| 0u8));
        let mut out_params = CodecParameters::audio(params.codec_id.as_str());
        out_params.sample_rate = Some(rate);
        out_params.channels = Some(channels);
        out_params.sample_format = Some(format);
        out_params.extradata = build_magic_cookie(&info);
        Ok(
            FlacAtEncoder {
                codec_id: params.codec_id.clone(),
                bit_depth,
                setup,
                session: EncodeSession::new(rules, size, rate, bound),
                out_params,
            },
        )
    }

    /// Publish the framework's cookie, if it gave one.
    pub fn cookie_answered(&mut self, cookie: Result<Vec<u8>, Error>)
        ensures
            final(self).codec_id == old(self).codec_id,
            final(self).bit_depth == old(self).bit_depth,
            final(self).setup == old(self).setup,
            final(self).session == old(self).session,
            final(self).out_params@ == (ParamsView {
                extradata: match cookie {
                    Ok(bytes) => bytes@,
                    Err(_) => old(self).out_params@.extradata,
                },
                ..old(self).out_params@
            }),
    {
        self.out_params.publish_cookie(cookie);
    }

    /// What the coded stream is.
    pub fn output_params(&self) -> (p: &CodecParameters)
        ensures
            *p == self.out_params,
    {
        &self.out_params
    }
}

/// Make an encoder.
pub fn make_encoder(params: &CodecParameters) -> (r: Result<FlacAtEncoder, Error>)
    ensures
        match params_refusal(*params) {
            Some(e) => fails_with(r, e),
            None => r is Ok && r->Ok_0.is_made(*params),
        },
{
    FlacAtEncoder::new(params)
}

/// The cookie that an encoder publishes on its own describes its stream, for every
/// sample rate that a cookie has room for.
pub proof fn cookies_describe_the_stream(e: FlacAtEncoder, params: CodecParameters)
    requires
        e.is_made(params),
        params_refusal(params) is None,
        0 < rate_of(params) < 0x10_0000,
    ensures
        cookie_info(e.out_params@.extradata) matches Some(info) && is_plain_info(
            info,
            rate_of(params),
            channels_of(params),
            coded_depth(requested_format(params)),
        ),
{
    let info = choose|info: StreamInfo|
        {
            &&& is_plain_info(
                info,
                rate_of(params),
                channels_of(params),
                coded_depth(requested_format(params)),
            )
            &&& e.out_params@.extradata == #[trigger] cookie_bytes(info)
        };
    assert(is_representable(info));
    cookie_round_trips(info);
}

/// One to eight channels are taken, two where none are given, and samples of 16 or 32
/// bits, 16 where no format is given. A wrong channel count is told before a wrong
/// format.
pub proof fn only_some_streams_are_taken(params: CodecParameters)
    ensures
        ({
            let r = params_refusal(params);
            let channels_fit = params.channels matches Some(n) ==> 1 <= n <= 8;
            let format_fits = params.sample_format is None || params.sample_format->0 is S16
                || params.sample_format->0 is S32;
            &&& r is None <==> channels_fit && format_fits
            &&& !channels_fit ==> r == Some(
                ErrorView::Unsupported(
                    "FLAC encoder: unsupported channel count "@ + decimal(
                        params.channels->0 as nat,
                    ),
                ),
            )
            &&& channels_fit && !format_fits ==> r == Some(
                ErrorView::Unsupported(
                    "FLAC encoder: only S16 / S32 input supported (got "@
                        + params.sample_format->0.label() + ")"@,
                ),
            )
        }),
{
}

/// What an encoder is made with: PCM of the format that is asked for in, FLAC in packets
/// of 4096 samples out, in which 32-bit PCM is coded as 24 bits. A packet's worth of PCM
/// is held back while the stream goes on, a fill may take all that is staged, and the
/// last packet is not padded.
pub proof fn encoders_are_made_for_their_stream(e: FlacAtEncoder, params: CodecParameters)
    requires
        e.is_made(params),
        params_refusal(params) is None,
    ensures
        ({
            let rate = rate_of(params);
            let channels = channels_of(params) as u32;
            let wide = params.sample_format == Some(SampleFormat::S32);
            &&& e.codec_id@ == params.codec_id@
            &&& wide ==> e.bit_depth == 32 && e.session.staging.bytes_per_frame == 4 * channels
                && e.setup.source == s32_format(rate, channels)
                && e.setup.destination.format_flags == 3
            &&& !wide ==> e.bit_depth == 16 && e.session.staging.bytes_per_frame == 2 * channels
                && e.setup.source == s16_format(rate, channels)
                && e.setup.destination.format_flags == 1
            &&& e.setup.destination == compressed_format(
                rate,
                K_AUDIO_FORMAT_FLAC,
                e.setup.destination.format_flags,
                0,
                4096,
                channels,
            )
            &&& e.setup.cookie@.len() == 0
            &&& e.setup.create_op@ == "AudioConverterNew (FLAC enc)"@
            &&& e.setup.cookie_op@ == ""@
            &&& e.session.rules.channels == channels
            &&& e.session.max_packet_bytes == 4096 * e.session.staging.bytes_per_frame * 2 + 1024
        }),
        e.session.rules.frame_length == 4096,
        e.session.rules.slack,
        !e.session.rules.isolate,
        !e.session.rules.pad_tail,
        e.session.rules.demand is AtLeastOne,
        e.session.rules.counted,
        e.session.rules.least_packet_bytes == 256,
        e.session.rules.op@ == "AudioConverterFillComplexBuffer (FLAC enc)"@,
        e.session.rules.refusal@ == "FlacAtEncoder only accepts Audio frames"@,
        e.session.staging.live().len() == 0,
        e.session.offered.live().len() == 0,
        e.session.fill is None,
        e.session.phase is Idle,
        e.session.sink.pending@.len() == 0,
        e.session.sink.pts == 0,
        !e.session.sink.eof,
        e.session.sink.time_base.num == 1,
        e.session.sink.time_base.den == rate_of(params),
        e.session.is_sound(),
{
    crate::encode::states_show_their_sessions(e.session);
    crate::feed::states_show_their_sinks(e.session.sink, 0);
    let view = e.setup@;
    assert(view.cookie.len() == 0);
}

/// What an encoder publishes of its stream: its rate, channels and format, no bit rate
/// and no options, and a cookie from which the stream's description can be read: blocks
/// of 4096 samples, the rate, the channels and the coded depth, and nothing that is not
/// known yet.
pub proof fn encoders_publish_their_stream(e: FlacAtEncoder, params: CodecParameters, key: Seq<char>)
    requires
        e.is_made(params),
        params_refusal(params) is None,
        0 < rate_of(params) < 0x10_0000,
    ensures
        ({
            let p = e.out_params;
            let wide = params.sample_format == Some(SampleFormat::S32);
            let info = crate::flac::cookie_info(p.extradata@);
            &&& p.codec_id@ == params.codec_id@
            &&& p.sample_rate == Some(rate_of(params))
            &&& p.channels == Some(channels_of(params))
            &&& wide ==> p.sample_format == Some(SampleFormat::S32)
            &&& !wide ==> p.sample_format == Some(SampleFormat::S16)
            &&& p.bit_rate is None
            &&& option_value(p.options, key) is None
            &&& info is Some
            &&& info->0.min_blocksize == 4096
            &&& info->0.max_blocksize == 4096
            &&& info->0.min_framesize == 0
            &&& info->0.max_framesize == 0
            &&& info->0.sample_rate == rate_of(params)
            &&& info->0.channels == channels_of(params)
            &&& info->0.bits_per_sample == if wide {
                24u8
            } else {
                16
            }
            &&& info->0.total_samples == 0
            &&& forall|i: int| 0 <= i < 16 ==> #[trigger] info->0.md5@[i] == 0
        }),
{
    let view = e.out_params@;
    assert(!view.options.contains_key(key));
    let depth = coded_depth(requested_format(params));
    let info = choose|info: StreamInfo|
        {
            &&& is_plain_info(info, rate_of(params), channels_of(params), depth)
            &&& e.out_params@.extradata == #[trigger] cookie_bytes(info)
        };
    crate::flac::cookie_round_trips(info);
}

} // verus!
