//! The Apple Lossless decoder: one packet in, interleaved 16- or 32-bit PCM out.

use vstd::prelude::*;
use vstd::slice::slice_to_vec;

use crate::alac::{
    bit_depth_flag, config_bytes, config_of, default_config, depth_flag, AlacSpecificConfig,
    SPECIFIC_CONFIG_LEN,
};
use crate::error::{fails_with, Error, ErrorView};
use crate::params::{CodecParameters, SampleFormat};
use crate::session::{
    byte_strings, is_failure, nothing_pending, AudioFrame, ConverterSetup, FillReply, FillRequest,
    FrameView, SetupView, Supply,
};
use crate::status::{status_error, status_failure};
use crate::sys::{
    compressed_format, s16_format, s32_format, AudioStreamBasicDescription,
    K_AUDIO_FORMAT_APPLE_LOSSLESS, NO_ERR,
};
use crate::text::{decimal, ending_in, join2};

verus! {

/// The Apple Lossless decoder.
#[derive(Debug)]
pub struct AlacAtDecoder {
    /// Identifier of the codec.
    pub codec_id: String,
    /// The configuration of the stream.
    pub cfg: AlacSpecificConfig,
    /// How the samples of the output are stored: 16 or 32 bits.
    pub output_format: SampleFormat,
    /// Bytes of one sample in all channels.
    pub output_bytes_per_frame: usize,
    /// The converter of the stream.
    pub setup: ConverterSetup,
    /// The packet that the converter has not taken yet.
    pub input: Option<Vec<u8>>,
    /// The decoded frame that waits for the caller.
    pub pending: Option<AudioFrame>,
    /// Time of the next decoded sample.
    pub pts: i64,
    /// Whether the stream was ended.
    pub eof: bool,
}

/// The bit depth that a requested sample format stands for.
pub open spec fn requested_depth(format: Option<SampleFormat>) -> Option<u8> {
    match format {
        None | Some(SampleFormat::S16) | Some(SampleFormat::F32) => Some(16),
        Some(SampleFormat::S32) => Some(32),
        _ => None,
    }
}

/// The cookie and the configuration of a stream. Set-up bytes of at least 24 bytes are a
/// cookie and are used as they are; fewer are ignored, and the parameters say what the
/// stream is.
pub open spec fn resolved(params: CodecParameters) -> Result<
    (Seq<u8>, AlacSpecificConfig),
    ErrorView,
> {
    let extra = params.extradata@;
    if extra.len() >= SPECIFIC_CONFIG_LEN {
        Ok((extra, config_of(extra)->0))
    } else if params.sample_rate is None {
        Err(ErrorView::InvalidData("ALAC: sample_rate required when no magic cookie"@))
    } else if params.channels is None {
        Err(ErrorView::InvalidData("ALAC: channels required when no magic cookie"@))
    } else if requested_depth(params.sample_format) is None {
        Err(
            ErrorView::Unsupported(
                "ALAC decoder: unsupported sample_format "@ + params.sample_format->0.label(),
            ),
        )
    } else if params.channels->0 > u8::MAX {
        Err(
            ErrorView::Unsupported(
                "ALAC decoder: unsupported channel count "@ + decimal(params.channels->0 as nat),
            ),
        )
    } else {
        let cfg = default_config(
            params.sample_rate->0,
            params.channels->0 as u8,
            requested_depth(params.sample_format)->0,
        );
        Ok((config_bytes(cfg), cfg))
    }
}

/// How the samples of the output are stored: 32 bits where they are asked for, 16 bits
/// otherwise.
pub open spec fn output_format_of(format: Option<SampleFormat>) -> SampleFormat {
    if format == Some(SampleFormat::S32) {
        SampleFormat::S32
    } else {
        SampleFormat::S16
    }
}

/// The converter of a stream.
pub open spec fn alac_setup(
    cookie: Seq<u8>,
    cfg: AlacSpecificConfig,
    flag: u32,
    format: SampleFormat,
) -> SetupView {
    let channels = cfg.num_channels as u32;
    SetupView {
        source: compressed_format(
            cfg.sample_rate,
            K_AUDIO_FORMAT_APPLE_LOSSLESS,
            flag,
            0,
            cfg.frame_length,
            channels,
        ),
        destination: if format is S32 {
            s32_format(cfg.sample_rate, channels)
        } else {
            s16_format(cfg.sample_rate, channels)
        },
        cookie,
        create_op: "AudioConverterNew (ALAC dec)"@,
        cookie_op: "AudioConverterSetProperty(DecompressionMagicCookie)"@,
    }
}

/// The refusal of a bit depth.
pub open spec fn depth_refusal(cfg: AlacSpecificConfig) -> ErrorView {
    ErrorView::Unsupported(
        "ALAC decoder: unsupported bit_depth "@ + decimal(cfg.bit_depth as nat),
    )
}

/// Find the cookie and the configuration of a stream.
fn resolve_cookie_and_config(params: &CodecParameters) -> (r: Result<
    (Vec<u8>, AlacSpecificConfig),
    Error,
>)
    ensures
        match resolved(*params) {
            Ok((cookie, cfg)) => r is Ok && r->Ok_0.0@ == cookie && r->Ok_0.1 == cfg,
            Err(e) => fails_with(r, e),
        },
{
    if params.extradata.len() >= SPECIFIC_CONFIG_LEN {
        return match AlacSpecificConfig::parse(params.extradata.as_slice()) {
            Some(cfg) => Ok((slice_to_vec(params.extradata.as_slice()), cfg)),
            None => Err(Error::invalid("ALAC: malformed magic cookie")),
        };
    }
    let sample_rate: u32 = match params.sample_rate {
        Some(rate) => rate,
        None => {
            return Err(Error::invalid("ALAC: sample_rate required when no magic cookie"));
        },
    };
    let channels: u16 = match params.channels {
        Some(n) => n,
        None => {
            return Err(Error::invalid("ALAC: channels required when no magic cookie"));
        },
    };
    let depth: u8 = match params.sample_format {
        None | Some(SampleFormat::S16) | Some(SampleFormat::F32) => 16,
        Some(SampleFormat::S32) => 32,
        Some(other) => {
            return Err(
                Error::Unsupported(
                    join2("ALAC decoder: unsupported sample_format ", other.name()),
                ),
            );
        },
    };
    if channels > u8::MAX as u16 {
        return Err(
            Error::Unsupported(
                ending_in("ALAC decoder: unsupported channel count ", channels as u64),
            ),
        );
    }
    let cfg = AlacSpecificConfig::new(sample_rate, channels as u8, depth);
    let bytes = cfg.to_bytes();
    Ok((slice_to_vec(bytes.as_slice()), cfg))
}

impl AlacAtDecoder {
    /// What a decoder holds once it is made.
    pub open spec fn is_made(
        self,
        params: CodecParameters,
        cookie: Seq<u8>,
        cfg: AlacSpecificConfig,
    ) -> bool {
        let format = output_format_of(params.sample_format);
        &&& self.codec_id@ == params.codec_id@
        &&& self.cfg == cfg
        &&& self.output_format == format
        &&& self.output_bytes_per_frame == format.width() * cfg.num_channels
        &&& self.setup@ == alac_setup(cookie, cfg, depth_flag(cfg.bit_depth)->0, format)
        &&& self.input is None
        &&& self.pending is None
        &&& self.pts == 0
        &&& !self.eof
    }

    /// The size of a sample follows from the format and the channels.
    pub open spec fn is_sound(self) -> bool {
        self.output_bytes_per_frame == self.output_format.width() * self.cfg.num_channels
    }

    /// What never changes in the life of a decoder.
    pub open spec fn same_stream(self, other: AlacAtDecoder) -> bool {
        &&& self.codec_id == other.codec_id
        &&& self.cfg == other.cfg
        &&& self.output_format == other.output_format
        &&& self.output_bytes_per_frame == other.output_bytes_per_frame
        &&& self.setup == other.setup
    }

    /// What one fill asks for: a packet's worth of frames.
    pub open spec fn request(self) -> FillRequest {
        FillRequest {
            channels: self.cfg.num_channels as u32,
            packets: self.cfg.frame_length,
            capacity: (self.cfg.frame_length * self.output_bytes_per_frame) as u64,
        }
    }

    /// The frame that `data` makes.
    pub open spec fn frame_of(self, data: Seq<u8>) -> FrameView {
        FrameView {
            samples: (data.len() as int / self.output_bytes_per_frame as int) as u32,
            pts: Some(self.pts),
            data: seq![data],
        }
    }

    /// Make a decoder for a stream.
    pub fn new(params: &CodecParameters) -> (r: Result<AlacAtDecoder, Error>)
        ensures
            match resolved(*params) {
                Err(e) => fails_with(r, e),
                Ok((cookie, cfg)) => if depth_flag(cfg.bit_depth) is None {
                    fails_with(r, depth_refusal(cfg))
                } else {
                    r is Ok && r->Ok_0.is_made(*params, cookie, cfg)
                },
            },
    {
        let (cookie, cfg) = match resolve_cookie_and_config(params) {
            Ok(found) => found,
            Err(e) => {
                return Err(e);
            },
        };
        let flag: u32 = match bit_depth_flag(cfg.bit_depth) {
            Some(flag) => flag,
            None => {
                return Err(
                    Error::Unsupported(
                        ending_in("ALAC decoder: unsupported bit_depth ", cfg.bit_depth as u64),
                    ),
                );
            },
        };
        let output_format = match params.sample_format {
            Some(SampleFormat::S32) => SampleFormat::S32,
            _ => SampleFormat::S16,
        };
        let channels: u32 = cfg.num_channels as u32;
        let width: usize = output_format.bytes_per_sample();
        proof {
            assert(width * cfg.num_channels <= 8 * 255) by (nonlinear_arith)
                requires
                    0 <= width <= 8,
                    0 <= cfg.num_channels <= 255,
            ;
        }
        let output_bytes_per_frame: usize = width * cfg.num_channels as usize;
        let destination = match output_format {
            SampleFormat::S32 => AudioStreamBasicDescription::pcm_s32(cfg.sample_rate, channels),
            _ => AudioStreamBasicDescription::pcm_s16(cfg.sample_rate, channels),
        };
        let setup = ConverterSetup {
            source: AudioStreamBasicDescription::apple_lossless(
                cfg.sample_rate,
                channels,
                flag,
                cfg.frame_length,
            ),
            destination,
            cookie,
            create_op: "AudioConverterNew (ALAC dec)".to_owned(),
            cookie_op: "AudioConverterSetProperty(DecompressionMagicCookie)",
        };
        Ok(
            AlacAtDecoder {
                codec_id: params.codec_id.clone(),
                cfg,
                output_format,
                output_bytes_per_frame,
                setup,
                input: None,
                pending: None,
                pts: 0,
                eof: false,
            },
        )
    }

    /// Take a packet. An empty one is ignored; any other leads to one fill.
    pub fn send_packet(&mut self, data: &[u8]) -> (r: Result<Option<FillRequest>, Error>)
        requires
            old(self).is_sound(),
        ensures
            old(self).eof ==> fails_with(r, ErrorView::Eof) && *final(self) == *old(self),
            !old(self).eof && data@.len() == 0 ==> {
                &&& r matches Ok(None)
                &&& *final(self) == *old(self)
            },
            !old(self).eof && data@.len() > 0 ==> {
                &&& r matches Ok(Some(request))
                &&& request == old(self).request()
                &&& final(self).same_stream(*old(self))
                &&& final(self).input matches Some(packet)
                &&& packet@ == data@
                &&& final(self).pending == old(self).pending
                &&& final(self).pts == old(self).pts
                &&& final(self).eof == old(self).eof
            },
    {
        if self.eof {
            return Err(Error::Eof);
        }
        if data.len() == 0 {
            return Ok(None);
        }
        self.input = Some(slice_to_vec(data));
        proof {
            let width = self.output_format.width();
            assert(width * self.cfg.num_channels <= 8 * 255) by (nonlinear_arith)
                requires
                    0 <= width <= 8,
                    0 <= self.cfg.num_channels <= 255,
            ;
            assert(self.cfg.frame_length * self.output_bytes_per_frame <= u32::MAX * 2040)
                by (nonlinear_arith)
                requires
                    0 <= self.cfg.frame_length <= u32::MAX,
                    0 <= self.output_bytes_per_frame <= 2040,
            ;
        }
        Ok(
            Some(
                FillRequest {
                    channels: self.cfg.num_channels as u32,
                    packets: self.cfg.frame_length,
                    capacity: self.cfg.frame_length as u64 * self.output_bytes_per_frame as u64,
                },
            ),
        )
    }

    /// Hand the packet to the converter, once.
    pub fn supply(&mut self) -> (s: Supply)
        ensures
            final(self).same_stream(*old(self)),
            final(self).input is None,
            final(self).pending == old(self).pending,
            final(self).pts == old(self).pts,
            final(self).eof == old(self).eof,
            match old(self).input {
                Some(packet) => s.is_packet(packet@, old(self).cfg.frame_length),
                None => s.is_nothing(),
            },
    {
        match self.input.take() {
            Some(packet) => Supply::packet(packet, self.cfg.frame_length),
            None => Supply::nothing(),
        }
    }

    /// Take the converter's answer to a fill. `Ok(true)` if it brought a frame, which
    /// takes the place of one that still waits.
    pub fn filled(&mut self, reply: FillReply) -> (r: Result<bool, Error>)
        requires
            old(self).output_bytes_per_frame > 0,
            reply.data@.len() <= u32::MAX,
            old(self).pts + reply.data@.len() / old(self).output_bytes_per_frame as nat
                <= i64::MAX,
        ensures
            final(self).same_stream(*old(self)),
            final(self).input is None,
            final(self).eof == old(self).eof,
            is_failure(reply.status) ==> {
                &&& fails_with(
                    r,
                    status_failure("AudioConverterFillComplexBuffer (ALAC dec)"@, reply.status),
                )
                &&& final(self).pending == old(self).pending
                &&& final(self).pts == old(self).pts
            },
            !is_failure(reply.status) && reply.data@.len() == 0 ==> {
                &&& r == Ok::<bool, Error>(false)
                &&& final(self).pending == old(self).pending
                &&& final(self).pts == old(self).pts
            },
            !is_failure(reply.status) && reply.data@.len() > 0 ==> {
                &&& r == Ok::<bool, Error>(true)
                &&& final(self).pending matches Some(frame)
                &&& frame@ == old(self).frame_of(reply.data@)
                &&& final(self).pts == old(self).pts + old(self).frame_of(reply.data@).samples
            },
    {
        self.input = None;
        if reply.status != NO_ERR && reply.status != 1 {
            return Err(
                status_error("AudioConverterFillComplexBuffer (ALAC dec)", reply.status),
            );
        }
        let n: usize = reply.data.len();
        if n == 0 {
            return Ok(false);
        }
        let samples: usize = n / self.output_bytes_per_frame;
        proof {
            let d = self.output_bytes_per_frame as int;
            assert(0 <= n as int / d <= n as int) by (nonlinear_arith)
                requires
                    n >= 0,
                    d > 0,
            ;
        }
        let mut planes: Vec<Vec<u8>> = Vec::new();
        planes.push(reply.data);
        let frame = AudioFrame { samples: samples as u32, pts: Some(self.pts), data: planes };
        assert(byte_strings(frame.data@) =~= seq![reply.data@]);
        self.pending = Some(frame);
        self.pts = self.pts + samples as i64;
        Ok(true)
    }

    /// Take the pending frame. Without one, the end of the stream or a need for more
    /// input is reported.
    pub fn receive_frame(&mut self) -> (r: Result<AudioFrame, Error>)
        ensures
            final(self).same_stream(*old(self)),
            final(self).input == old(self).input,
            final(self).pts == old(self).pts,
            final(self).eof == old(self).eof,
            final(self).pending is None,
            match old(self).pending {
                Some(frame) => r == Ok::<AudioFrame, Error>(frame),
                None => fails_with(r, nothing_pending(old(self).eof)),
            },
    {
        match self.pending.take() {
            Some(frame) => Ok(frame),
            None => if self.eof {
                Err(Error::Eof)
            } else {
                Err(Error::NeedMore)
            },
        }
    }

    /// End the stream. Every packet has been decoded by then.
    pub fn flush(&mut self)
        ensures
            final(self).same_stream(*old(self)),
            final(self).input == old(self).input,
            final(self).pending == old(self).pending,
            final(self).pts == old(self).pts,
            final(self).eof,
    {
        self.eof = true;
    }

    /// Forget everything that came in and the pending frame.
    pub fn reset(&mut self)
        ensures
            final(self).same_stream(*old(self)),
            final(self).input is None,
            final(self).pending is None,
            final(self).pts == 0,
            !final(self).eof,
    {
        self.input = None;
        self.pending = None;
        self.pts = 0;
        self.eof = false;
    }

    /// How the samples of the output are stored.
    pub fn output_sample_format(&self) -> (format: SampleFormat)
        ensures
            format == self.output_format,
    {
        self.output_format
    }
}

/// Make a decoder for a stream.
pub fn make_decoder(params: &CodecParameters) -> (r: Result<AlacAtDecoder, Error>)
    ensures
        match resolved(*params) {
            Err(e) => fails_with(r, e),
            Ok((cookie, cfg)) => if depth_flag(cfg.bit_depth) is None {
                fails_with(r, depth_refusal(cfg))
            } else {
                r is Ok && r->Ok_0.is_made(*params, cookie, cfg)
            },
        },
{
    AlacAtDecoder::new(params)
}

/// Where a stream's description comes from. Set-up bytes of 24 bytes or more are the
/// cookie, as they are; fewer are ignored, and rate, channels and format stand in, with
/// the recommended tuning.
pub proof fn streams_are_resolved_from_their_set_up_bytes(params: CodecParameters)
    ensures
        ({
            let extra = params.extradata@;
            let r = resolved(params);
            &&& extra.len() >= 24 ==> {
                &&& r is Ok
                &&& r->Ok_0.0 == extra
                &&& config_of(extra) == Some(r->Ok_0.1)
            }
            &&& extra.len() < 24 ==> {
                &&& r is Ok <==> {
                    &&& params.sample_rate is Some
                    &&& params.channels is Some
                    &&& params.channels->0 <= 255
                    &&& params.sample_format is None || params.sample_format->0 is S16
                        || params.sample_format->0 is F32 || params.sample_format->0 is S32
                }
                &&& r is Ok ==> {
                    let cfg = r->Ok_0.1;
                    &&& cfg.sample_rate == params.sample_rate->0
                    &&& cfg.num_channels == params.channels->0
                    &&& cfg.bit_depth == if params.sample_format == Some(SampleFormat::S32) {
                        32u8
                    } else {
                        16
                    }
                    &&& cfg == default_config(cfg.sample_rate, cfg.num_channels, cfg.bit_depth)
                    &&& r->Ok_0.0 == config_bytes(cfg)
                }
                &&& params.sample_rate is None ==> r->Err_0 == ErrorView::InvalidData(
                    "ALAC: sample_rate required when no magic cookie"@,
                )
                &&& params.sample_rate is Some && params.channels is None ==> r->Err_0
                    == ErrorView::InvalidData("ALAC: channels required when no magic cookie"@)
            }
        }),
{
}

/// Without set-up bytes, a format that no depth is known for and a channel count above
/// 255 are unsupported, and the message names them; so is a depth that cannot be
/// declared.
pub proof fn undescribed_streams_are_refused(params: CodecParameters, cfg: AlacSpecificConfig)
    requires
        params.extradata@.len() < 24,
        params.sample_rate is Some,
        params.channels is Some,
    ensures
        ({
            let r = resolved(params);
            let known = params.sample_format is None || params.sample_format->0 is S16
                || params.sample_format->0 is F32 || params.sample_format->0 is S32;
            &&& !known ==> r is Err && r->Err_0 == ErrorView::Unsupported(
                "ALAC decoder: unsupported sample_format "@ + params.sample_format->0.label(),
            )
            &&& known && params.channels->0 > 255 ==> r is Err && r->Err_0
                == ErrorView::Unsupported(
                "ALAC decoder: unsupported channel count "@ + decimal(params.channels->0 as nat),
            )
        }),
        depth_refusal(cfg) == ErrorView::Unsupported(
            "ALAC decoder: unsupported bit_depth "@ + decimal(cfg.bit_depth as nat),
        ),
{
}

/// What a decoder is made with: the stream's configuration and cookie, Apple Lossless at
/// the stream's depth in, and PCM out, of 32 bits where they are asked for and of 16
/// bits otherwise.
pub proof fn decoders_are_made_for_their_stream(
    d: AlacAtDecoder,
    params: CodecParameters,
    cookie: Seq<u8>,
    cfg: AlacSpecificConfig,
)
    requires
        d.is_made(params, cookie, cfg),
        depth_flag(cfg.bit_depth) is Some,
    ensures
        ({
            let wide = params.sample_format == Some(SampleFormat::S32);
            &&& d.codec_id@ == params.codec_id@
            &&& d.cfg == cfg
            &&& wide ==> d.output_format is S32 && d.output_bytes_per_frame == 4
                * cfg.num_channels && d.setup.destination == s32_format(
                cfg.sample_rate,
                cfg.num_channels as u32,
            )
            &&& !wide ==> d.output_format is S16 && d.output_bytes_per_frame == 2
                * cfg.num_channels && d.setup.destination == s16_format(
                cfg.sample_rate,
                cfg.num_channels as u32,
            )
            &&& d.setup.source == compressed_format(
                cfg.sample_rate,
                K_AUDIO_FORMAT_APPLE_LOSSLESS,
                depth_flag(cfg.bit_depth)->0,
                0,
                cfg.frame_length,
                cfg.num_channels as u32,
            )
            &&& d.setup.cookie@ == cookie
            &&& d.setup.create_op@ == "AudioConverterNew (ALAC dec)"@
            &&& d.setup.cookie_op@ == "AudioConverterSetProperty(DecompressionMagicCookie)"@
            &&& d.input is None
            &&& d.pending is None
            &&& d.pts == 0
            &&& !d.eof
        }),
        d.is_sound(),
{
    let view = d.setup@;
    assert(view.cookie == cookie);
}

/// A fill asks for a packet's worth of frames and has room for exactly that.
pub proof fn fills_ask_for_one_packet(d: AlacAtDecoder)
    requires
        d.output_bytes_per_frame <= 2040,
    ensures
        d.request().channels == d.cfg.num_channels,
        d.request().packets == d.cfg.frame_length,
        d.request().capacity == d.request().packets * d.output_bytes_per_frame,
        d.is_sound() && d.output_format is S16 ==> d.output_bytes_per_frame == 2
            * d.cfg.num_channels,
        d.is_sound() && d.output_format is S32 ==> d.output_bytes_per_frame == 4
            * d.cfg.num_channels,
{
    assert(0 <= d.cfg.frame_length * d.output_bytes_per_frame <= u32::MAX * 2040)
        by (nonlinear_arith)
        requires
            0 <= d.cfg.frame_length <= u32::MAX,
            0 <= d.output_bytes_per_frame <= 2040,
    ;
}

/// Audio becomes one frame at the decoder's time: its plane is the bytes as they came,
/// and it holds as many whole samples as they make.
pub proof fn audio_becomes_one_frame(d: AlacAtDecoder, data: Seq<u8>)
    requires
        d.output_bytes_per_frame > 0,
        data.len() <= u32::MAX,
    ensures
        ({
            let frame = d.frame_of(data);
            let size = d.output_bytes_per_frame as int;
            &&& frame.data == seq![data]
            &&& frame.pts == Some(d.pts)
            &&& frame.samples * size <= data.len() < (frame.samples + 1) * size
        }),
{
    let n = data.len() as int;
    let size = d.output_bytes_per_frame as int;
    vstd::arithmetic::div_mod::lemma_fundamental_div_mod(n, size);
    assert(0 <= n / size <= n && n / size * size <= n < (n / size + 1) * size) by (nonlinear_arith)
        requires
            size > 0,
            n >= 0,
            n == size * (n / size) + n % size,
            0 <= n % size < size,
    ;
}

/// Two decoders are of the same stream exactly if they agree in everything that the
/// stream's description decides.
pub proof fn streams_do_not_change(a: AlacAtDecoder, b: AlacAtDecoder)
    ensures
        a.same_stream(b) <==> {
            &&& a.codec_id == b.codec_id
            &&& a.cfg == b.cfg
            &&& a.output_format == b.output_format
            &&& a.output_bytes_per_frame == b.output_bytes_per_frame
            &&& a.setup == b.setup
        },
{
}

} // verus!
