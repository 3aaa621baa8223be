//! The FLAC decoder: one FLAC frame a packet in, interleaved 16-bit PCM out.

use vstd::prelude::*;
use vstd::slice::slice_to_vec;

use crate::error::{fails_with, Error, ErrorView};
use crate::flac::{
    bit_depth_flag, build_magic_cookie, cookie_bytes, cookie_info, depth_flag, frame_header_of,
    parse_frame_header, parse_magic_cookie, streaminfo_of, ChannelAssignment, FrameHeader,
    StreamInfo, MAGIC_COOKIE_MIN_LEN, STREAMINFO_BODY_LEN,
};
use crate::params::{CodecParameters, SampleFormat};
use crate::session::{
    ConverterSetup, DecodeRules, DecodeSession, DecodeState, FillRequest, Geometry, SetupView,
    Supply,
};
use crate::sys::{
    compressed_format, s16_format, AudioStreamBasicDescription, K_AUDIO_FORMAT_FLAC,
};
use crate::text::{decimal, ending_in, join2, numbered, numbered2};

verus! {

/// The FLAC decoder.
#[derive(Debug)]
pub struct FlacAtDecoder {
    /// Identifier of the codec.
    pub codec_id: String,
    /// The STREAMINFO block of the stream.
    pub info: StreamInfo,
    /// The converter of the stream.
    pub setup: ConverterSetup,
    /// The session with the converter.
    pub session: DecodeSession,
}

/// The STREAMINFO block that stands in for a missing cookie.
pub open spec fn placeholder_info(sample_rate: u32, channels: u8, width: u8) -> StreamInfo {
    StreamInfo {
        min_blocksize: 192,
        max_blocksize: 4608,
        min_framesize: 0,
        max_framesize: 0,
        sample_rate,
        channels,
        bits_per_sample: width,
        total_samples: 0,
        md5: [0, 0, 0, 0, 0, 0, 0, 0, 0, 0, 0, 0, 0, 0, 0, 0],
    }
}

/// The sample width that a requested sample format stands for.
pub open spec fn requested_width(format: Option<SampleFormat>) -> Option<u8> {
    match format {
        None | Some(SampleFormat::S16) | Some(SampleFormat::F32) => Some(16),
        Some(SampleFormat::S32) => Some(24),
        _ => None,
    }
}

/// The cookie and the STREAMINFO block of a stream.
///
/// Set-up bytes of at least 50 bytes are a cookie and are used as they are; 34 bytes
/// are a bare STREAMINFO body; anything else is ignored, and sample rate, channels
/// and sample format must say what the stream is.
pub open spec fn resolved(params: CodecParameters) -> Result<(Seq<u8>, StreamInfo), ErrorView> {
    let extra = params.extradata@;
    if extra.len() >= MAGIC_COOKIE_MIN_LEN {
        match cookie_info(extra) {
            Some(info) => Ok((extra, info)),
            None => Err(
                ErrorView::InvalidData(
                    "FLAC: extradata is large enough for a cookie but failed to parse"@,
                ),
            ),
        }
    } else if extra.len() == STREAMINFO_BODY_LEN {
        match streaminfo_of(extra) {
            Some(info) => Ok((cookie_bytes(info), info)),
            None => Err(
                ErrorView::InvalidData("FLAC: malformed STREAMINFO body in extradata"@),
            ),
        }
    } else if params.sample_rate is None {
        Err(ErrorView::InvalidData("FLAC: sample_rate required when no magic cookie"@))
    } else if params.channels is None {
        Err(ErrorView::InvalidData("FLAC: channels required when no magic cookie"@))
    } else if requested_width(params.sample_format) is None {
        Err(
            ErrorView::Unsupported(
                "FLAC decoder: unsupported sample_format "@ + params.sample_format->0.label(),
            ),
        )
    } else {
        let channels = params.channels->0;
        if !(1 <= channels <= 8) {
            Err(
                ErrorView::Unsupported(
                    "FLAC decoder: channel count "@ + decimal(channels as nat)
                        + " out of range (1..=8)"@,
                ),
            )
        } else {
            let info = placeholder_info(
                params.sample_rate->0,
                channels as u8,
                requested_width(params.sample_format)->0,
            );
            Ok((cookie_bytes(info), info))
        }
    }
}

/// The sample width of every stream that is resolved can be declared to the
/// framework.
pub proof fn resolved_streams_have_a_depth_flag(params: CodecParameters)
    requires
        resolved(params) is Ok,
    ensures
        depth_flag(resolved(params)->Ok_0.1.bits_per_sample) is Some,
{
}

/// The converter of a stream.
pub open spec fn flac_setup(cookie: Seq<u8>, info: StreamInfo, flag: u32) -> SetupView {
    SetupView {
        source: compressed_format(
            info.sample_rate,
            K_AUDIO_FORMAT_FLAC,
            flag,
            0,
            info.max_blocksize as u32,
            info.channels as u32,
        ),
        destination: s16_format(info.sample_rate, info.channels as u32),
        cookie,
        create_op: "AudioConverterNew (FLAC dec)"@,
        cookie_op: "AudioConverterSetProperty(DecompressionMagicCookie / FLAC)"@,
    }
}

/// The shape of a stream's audio: a fill asks for the largest block.
pub open spec fn flac_geometry(info: StreamInfo) -> Geometry {
    Geometry {
        request: FillRequest {
            channels: info.channels as u32,
            packets: info.max_blocksize as u32,
            capacity: (info.max_blocksize * info.channels * 2) as u64,
        },
        bytes_per_frame: (info.channels * 2) as usize,
    }
}

/// The rules of a FLAC session.
pub open spec fn is_flac_rules(rules: DecodeRules) -> bool {
    &&& rules.keep == 1
    &&& rules.flush_inputs == 256
    &&& rules.flush_tail == 2
    &&& rules.op@ == "AudioConverterFillComplexBuffer (FLAC dec)"@
}

/// Why a frame does not fit its stream, if it does not: sample rate, channel count
/// and sample width may not change, the block size may.
pub open spec fn incompatibility(info: StreamInfo, header: FrameHeader) -> Option<ErrorView> {
    let channels = header.channel_assignment.count();
    if header.sample_rate != info.sample_rate {
        Some(
            ErrorView::Unsupported(
                "FLAC decoder: mid-stream sample-rate switch ("@ + decimal(info.sample_rate as nat)
                    + " → "@ + decimal(header.sample_rate as nat) + " Hz) is not supported"@,
            ),
        )
    } else if channels != info.channels {
        Some(
            ErrorView::Unsupported(
                "FLAC decoder: mid-stream channel-count switch ("@ + decimal(info.channels as nat)
                    + " → "@ + decimal(channels as nat) + ") is not supported"@,
            ),
        )
    } else if header.bits_per_sample != info.bits_per_sample {
        Some(
            ErrorView::Unsupported(
                "FLAC decoder: mid-stream bit-depth switch ("@ + decimal(
                    info.bits_per_sample as nat,
                ) + " → "@ + decimal(header.bits_per_sample as nat) + ") is not supported"@,
            ),
        )
    } else {
        None
    }
}

/// Why a packet is refused, if it is.
pub open spec fn refusal(info: StreamInfo, data: Seq<u8>) -> Option<ErrorView> {
    if data.len() < 5 {
        Some(
            ErrorView::InvalidData(
                "FLAC: packet too short for a frame header ("@ + decimal(data.len()) + " bytes)"@,
            ),
        )
    } else {
        match frame_header_of(data, info) {
            None => Some(ErrorView::InvalidData("FLAC: invalid frame header at packet start"@)),
            Some(header) => incompatibility(info, header),
        }
    }
}

/// Find the cookie and the STREAMINFO block of a stream.
fn resolve_cookie_and_info(params: &CodecParameters) -> (r: Result<(Vec<u8>, StreamInfo), Error>)
    ensures
        match resolved(*params) {
            Ok((cookie, info)) => r is Ok && r->Ok_0.0@ == cookie && r->Ok_0.1 == info,
            Err(e) => fails_with(r, e),
        },
{
    if params.extradata.len() >= MAGIC_COOKIE_MIN_LEN {
        return match parse_magic_cookie(params.extradata.as_slice()) {
            Some(info) => Ok((slice_to_vec(params.extradata.as_slice()), info)),
            None => Err(
                Error::invalid("FLAC: extradata is large enough for a cookie but failed to parse"),
            ),
        };
    }
    if params.extradata.len() == STREAMINFO_BODY_LEN {
        return match StreamInfo::parse(params.extradata.as_slice()) {
            Some(info) => Ok((build_magic_cookie(&info), info)),
            None => Err(Error::invalid("FLAC: malformed STREAMINFO body in extradata")),
        };
    }
    let sample_rate: u32 = match params.sample_rate {
        Some(rate) => rate,
        None => {
            return Err(Error::invalid("FLAC: sample_rate required when no magic cookie"));
        },
    };
    let channels: u16 = match params.channels {
        Some(n) => n,
        None => {
            return Err(Error::invalid("FLAC: channels required when no magic cookie"));
        },
    };
    let width: u8 = match params.sample_format {
        None | Some(SampleFormat::S16) | Some(SampleFormat::F32) => 16,
        Some(SampleFormat::S32) => 24,
        Some(other) => {
            return Err(
                Error::Unsupported(
                    join2("FLAC decoder: unsupported sample_format ", other.name()),
                ),
            );
        },
    };
    if channels < 1 || channels > 8 {
        return Err(
            Error::Unsupported(
                numbered("FLAC decoder: channel count ", channels as u64, " out of range (1..=8)"),
            ),
        );
    }
    let channels: u8 = channels as u8;
    let info = StreamInfo {
        min_blocksize: 192,
        max_blocksize: 4608,
        min_framesize: 0,
        max_framesize: 0,
        sample_rate,
        channels,
        bits_per_sample: width,
        total_samples: 0,
        md5: [0, 0, 0, 0, 0, 0, 0, 0, 0, 0, 0, 0, 0, 0, 0, 0],
    };
    assert(info.md5@ =~= placeholder_info(sample_rate, channels, width).md5@);
    Ok((build_magic_cookie(&info), info))
}

impl FlacAtDecoder {
    /// What a decoder holds once it is made.
    pub open spec fn is_made(
        self,
        params: CodecParameters,
        cookie: Seq<u8>,
        info: StreamInfo,
    ) -> bool {
        &&& self.codec_id@ == params.codec_id@
        &&& self.info == info
        &&& self.setup@ == flac_setup(cookie, info, depth_flag(info.bits_per_sample)->0)
        &&& is_flac_rules(self.session.rules)
        &&& self.session@ == DecodeState::fresh(self.session.rules, flac_geometry(info))
    }

    /// Make a decoder for a stream.
    pub fn new(params: &CodecParameters) -> (r: Result<FlacAtDecoder, Error>)
        ensures
            match resolved(*params) {
                Err(e) => fails_with(r, e),
                Ok((cookie, info)) => r is Ok && r->Ok_0.is_made(*params, cookie, info),
            },
    {
        let (cookie, info) = match resolve_cookie_and_info(params) {
            Ok(found) => found,
            Err(e) => {
                return Err(e);
            },
        };
        proof {
            resolved_streams_have_a_depth_flag(*params);
        }
        let flag: u32 = match bit_depth_flag(info.bits_per_sample) {
            Some(flag) => flag,
            None => {
                return Err(
                    Error::Unsupported(
                        ending_in(
                            "FLAC decoder: unsupported bits_per_sample ",
                            info.bits_per_sample as u64,
                        ),
                    ),
                );
            },
        };
        let channels: u32 = info.channels as u32;
        let setup = ConverterSetup {
            source: AudioStreamBasicDescription::flac(
                info.sample_rate,
                channels,
                flag,
                info.max_blocksize as u32,
            ),
            destination: AudioStreamBasicDescription::pcm_s16(info.sample_rate, channels),
            cookie,
            create_op: "AudioConverterNew (FLAC dec)".to_owned(),
            cookie_op: "AudioConverterSetProperty(DecompressionMagicCookie / FLAC)",
        };
        let rules = DecodeRules {
            keep: 1,
            flush_inputs: 256,
            flush_tail: 2,
            op: "AudioConverterFillComplexBuffer (FLAC dec)",
        };
        proof {
            assert(info.max_blocksize * info.channels <= 0xFFFF * 0xFF) by (nonlinear_arith)
                requires
                    0 <= info.max_blocksize <= 0xFFFF,
                    0 <= info.channels <= 0xFF,
            ;
        }
        let geometry = Geometry {
            request: FillRequest {
                channels,
                packets: info.max_blocksize as u32,
                capacity: info.max_blocksize as u64 * info.channels as u64 * 2,
            },
            bytes_per_frame: info.channels as usize * 2,
        };
        Ok(
            FlacAtDecoder {
                codec_id: params.codec_id.clone(),
                info,
                setup,
                session: DecodeSession::new(rules, geometry),
            },
        )
    }

    /// Confirm that a frame fits its stream.
    pub fn check_compatible(&self, header: &FrameHeader) -> (r: Result<(), Error>)
        requires
            header.channel_assignment.count() <= u8::MAX,
        ensures
            match incompatibility(self.info, *header) {
                Some(e) => fails_with(r, e),
                None => r is Ok,
            },
    {
        if header.sample_rate != self.info.sample_rate {
            return Err(
                Error::Unsupported(
                    numbered2(
                        "FLAC decoder: mid-stream sample-rate switch (",
                        self.info.sample_rate as u64,
                        " → ",
                        header.sample_rate as u64,
                        " Hz) is not supported",
                    ),
                ),
            );
        }
        let channels: u8 = header.channels();
        if channels != self.info.channels {
            return Err(
                Error::Unsupported(
                    numbered2(
                        "FLAC decoder: mid-stream channel-count switch (",
                        self.info.channels as u64,
                        " → ",
                        channels as u64,
                        ") is not supported",
                    ),
                ),
            );
        }
        if header.bits_per_sample != self.info.bits_per_sample {
            return Err(
                Error::Unsupported(
                    numbered2(
                        "FLAC decoder: mid-stream bit-depth switch (",
                        self.info.bits_per_sample as u64,
                        " → ",
                        header.bits_per_sample as u64,
                        ") is not supported",
                    ),
                ),
            );
        }
        Ok(())
    }

    /// Queue a packet. It must hold the start of a frame that fits the stream.
    pub fn send_packet(&mut self, data: &[u8]) -> (r: Result<(), Error>)
        ensures
            final(self).codec_id == old(self).codec_id,
            final(self).info == old(self).info,
            final(self).setup == old(self).setup,
            old(self).session.eof ==> fails_with(r, ErrorView::Eof) && *final(self) == *old(self),
            !old(self).session.eof ==> match refusal(old(self).info, data@) {
                Some(e) => fails_with(r, e) && *final(self) == *old(self),
                None => r is Ok && final(self).session@ == old(self).session@.queued(data@),
            },
    {
        if self.session.eof {
            return Err(Error::Eof);
        }
        if data.len() < 5 {
            return Err(
                Error::InvalidData(
                    numbered(
                        "FLAC: packet too short for a frame header (",
                        data.len() as u64,
                        " bytes)",
                    ),
                ),
            );
        }
        let header = match parse_frame_header(data, &self.info) {
            Some(header) => header,
            None => {
                return Err(Error::invalid("FLAC: invalid frame header at packet start"));
            },
        };
        match self.check_compatible(&header) {
            Ok(()) => {},
            Err(e) => {
                return Err(e);
            },
        }
        self.session.enqueue(slice_to_vec(data));
        Ok(())
    }

    /// Hand the next packet to the converter, which reads the frame count from it.
    pub fn supply(&mut self) -> (s: Supply)
        ensures
            final(self).codec_id == old(self).codec_id,
            final(self).info == old(self).info,
            final(self).setup == old(self).setup,
            old(self).session@.queue.len() == 0 ==> {
                &&& s.is_nothing()
                &&& final(self).session@ == old(self).session@
            },
            old(self).session@.queue.len() > 0 ==> {
                &&& s.is_packet(old(self).session@.queue[0], 0)
                &&& final(self).session@ == old(self).session@.supplied()
            },
    {
        self.session.supply(0)
    }
}

/// The name of a channel assignment.
pub open spec fn layout_label(c: ChannelAssignment) -> Seq<char> {
    match c {
        ChannelAssignment::Independent(_) => "independent"@,
        ChannelAssignment::LeftSide => "left+side"@,
        ChannelAssignment::SideRight => "side+right"@,
        ChannelAssignment::MidSide => "mid+side"@,
    }
}

/// The name of a channel assignment.
pub fn channel_layout_label(c: ChannelAssignment) -> (s: &'static str)
    ensures
        s@ == layout_label(c),
{
    match c {
        ChannelAssignment::Independent(_) => "independent",
        ChannelAssignment::LeftSide => "left+side",
        ChannelAssignment::SideRight => "side+right",
        ChannelAssignment::MidSide => "mid+side",
    }
}

/// Make a decoder for a stream.
pub fn make_decoder(params: &CodecParameters) -> (r: Result<FlacAtDecoder, Error>)
    ensures
        match resolved(*params) {
            Err(e) => fails_with(r, e),
            Ok((cookie, info)) => r is Ok && r->Ok_0.is_made(*params, cookie, info),
        },
{
    FlacAtDecoder::new(params)
}

/// A change of block size is no reason to refuse a frame.
pub proof fn block_size_may_vary(info: StreamInfo, header: FrameHeader, block_size: u32)
    ensures
        incompatibility(info, FrameHeader { block_size, ..header }) == incompatibility(
            info,
            header,
        ),
{
}

/// A frame is accepted exactly if it agrees with its stream in sample rate, channel
/// count and sample width.
pub proof fn accepted_frames_agree_with_the_stream(info: StreamInfo, header: FrameHeader)
    ensures
        incompatibility(info, header) is None <==> {
            &&& header.sample_rate == info.sample_rate
            &&& header.channel_assignment.count() == info.channels
            &&& header.bits_per_sample == info.bits_per_sample
        },
{
}

/// A frame whose codes stand for the stream's sample rate, channel count and sample
/// width, or leave rate and width to the stream, is not refused: the width codes 1, 2, 4,
/// 5, 6 and 7 stand for 8, 12, 16, 20, 24 and 32 bits.
pub proof fn agreeing_frames_are_accepted(info: StreamInfo, data: Seq<u8>)
    requires
        frame_header_of(data, info) is Some,
        ({
            let rate = (data[2] % 16) as u8;
            let width = (data[3] / 2 % 8) as u8;
            let channels = (data[3] / 16) as u8;
            &&& rate == 0 || rate >= 12 || crate::flac::rate_of_code(rate) == Some(info.sample_rate)
            &&& channels <= 7 ==> info.channels == channels + 1
            &&& channels >= 8 ==> info.channels == 2
            &&& match info.bits_per_sample {
                8 => width == 0 || width == 1,
                12 => width == 0 || width == 2,
                16 => width == 0 || width == 4,
                20 => width == 0 || width == 5,
                24 => width == 0 || width == 6,
                32 => width == 0 || width == 7,
                _ => width == 0,
            }
        }),
    ensures
        refusal(info, data) is None,
{
    crate::flac::frames_begin_with_the_sync_code(data, info);
    crate::flac::frames_say_what_their_codes_name(data, info);
    crate::flac::channel_codes((data[3] / 16) as u8);
    crate::flac::width_codes((data[3] / 2 % 8) as u8, 0);
}

/// A packet is refused for one of three reasons. Fewer than five bytes, and bytes that
/// begin no frame, are invalid data; a frame that differs from its stream in rate,
/// channels or width is unsupported.
pub proof fn refusals_follow_their_reason(info: StreamInfo, data: Seq<u8>)
    ensures
        data.len() < 5 ==> refusal(info, data) == Some(
            ErrorView::InvalidData(
                "FLAC: packet too short for a frame header ("@ + decimal(data.len()) + " bytes)"@,
            ),
        ),
        data.len() >= 5 && frame_header_of(data, info) is None ==> refusal(info, data) == Some(
            ErrorView::InvalidData("FLAC: invalid frame header at packet start"@),
        ),
        frame_header_of(data, info) is Some ==> {
            let h = frame_header_of(data, info)->0;
            &&& refusal(info, data) is Some <==> {
                ||| h.sample_rate != info.sample_rate
                ||| h.channel_assignment.count() != info.channels
                ||| h.bits_per_sample != info.bits_per_sample
            }
            &&& refusal(info, data) is Some ==> refusal(info, data)->0 is Unsupported
        },
{
}

/// Why a frame does not fit is told by the first of rate, channels and width that
/// differs, with what the stream has and what the frame has.
pub proof fn switches_are_reported_in_order(info: StreamInfo, header: FrameHeader)
    ensures
        header.sample_rate != info.sample_rate ==> incompatibility(info, header) == Some(
            ErrorView::Unsupported(
                "FLAC decoder: mid-stream sample-rate switch ("@ + decimal(info.sample_rate as nat)
                    + " → "@ + decimal(header.sample_rate as nat) + " Hz) is not supported"@,
            ),
        ),
        header.sample_rate == info.sample_rate && header.channel_assignment.count()
            != info.channels ==> incompatibility(info, header) == Some(
            ErrorView::Unsupported(
                "FLAC decoder: mid-stream channel-count switch ("@ + decimal(info.channels as nat)
                    + " → "@ + decimal(header.channel_assignment.count() as nat)
                    + ") is not supported"@,
            ),
        ),
        header.sample_rate == info.sample_rate && header.channel_assignment.count()
            == info.channels && header.bits_per_sample != info.bits_per_sample ==> incompatibility(
            info,
            header,
        ) == Some(
            ErrorView::Unsupported(
                "FLAC decoder: mid-stream bit-depth switch ("@ + decimal(
                    info.bits_per_sample as nat,
                ) + " → "@ + decimal(header.bits_per_sample as nat) + ") is not supported"@,
            ),
        ),
{
}

/// Where a stream's description comes from. Set-up bytes of 50 bytes or more are the
/// cookie, as they are; 34 bytes are a STREAMINFO body, from which a cookie is made;
/// with any other number rate, channels and format stand in.
pub proof fn streams_are_resolved_from_their_set_up_bytes(params: CodecParameters)
    ensures
        ({
            let extra = params.extradata@;
            let r = resolved(params);
            &&& extra.len() >= 50 ==> {
                &&& r is Ok <==> cookie_info(extra) is Some
                &&& r is Ok ==> r->Ok_0.0 == extra && cookie_info(extra) == Some(r->Ok_0.1)
                &&& r is Err ==> r->Err_0 == ErrorView::InvalidData(
                    "FLAC: extradata is large enough for a cookie but failed to parse"@,
                )
            }
            &&& extra.len() == 34 ==> {
                &&& r is Ok <==> streaminfo_of(extra) is Some
                &&& r is Ok ==> streaminfo_of(extra) == Some(r->Ok_0.1)
                &&& r is Err ==> r->Err_0 == ErrorView::InvalidData(
                    "FLAC: malformed STREAMINFO body in extradata"@,
                )
            }
            &&& extra.len() < 50 && extra.len() != 34 ==> {
                &&& r is Ok <==> {
                    &&& params.sample_rate is Some
                    &&& params.channels is Some
                    &&& 1 <= params.channels->0 <= 8
                    &&& params.sample_format is None || params.sample_format->0 is S16
                        || params.sample_format->0 is F32 || params.sample_format->0 is S32
                }
                &&& r is Ok ==> {
                    let info = r->Ok_0.1;
                    &&& info.sample_rate == params.sample_rate->0
                    &&& info.channels == params.channels->0
                    &&& info.bits_per_sample == if params.sample_format == Some(SampleFormat::S32) {
                        24u8
                    } else {
                        16
                    }
                    &&& info.min_blocksize == 192
                    &&& info.max_blocksize == 4608
                    &&& info.min_framesize == 0
                    &&& info.max_framesize == 0
                    &&& info.total_samples == 0
                    &&& forall|i: int| 0 <= i < 16 ==> #[trigger] info.md5@[i] == 0
                }
                &&& params.sample_rate is None ==> r->Err_0 == ErrorView::InvalidData(
                    "FLAC: sample_rate required when no magic cookie"@,
                )
                &&& params.sample_rate is Some && params.channels is None ==> r->Err_0
                    == ErrorView::InvalidData("FLAC: channels required when no magic cookie"@)
            }
            &&& r is Ok && extra.len() < 50 ==> r->Ok_0.0 == cookie_bytes(r->Ok_0.1)
        }),
{
}

/// Without set-up bytes, a format that no depth is known for and a channel count outside
/// 1 to 8 are unsupported, and the message names them.
pub proof fn undescribed_streams_are_refused(params: CodecParameters)
    requires
        params.extradata@.len() < 34,
        params.sample_rate is Some,
        params.channels is Some,
    ensures
        ({
            let r = resolved(params);
            let known = params.sample_format is None || params.sample_format->0 is S16
                || params.sample_format->0 is F32 || params.sample_format->0 is S32;
            &&& !known ==> r is Err && r->Err_0 == ErrorView::Unsupported(
                "FLAC decoder: unsupported sample_format "@ + params.sample_format->0.label(),
            )
            &&& known && !(1 <= params.channels->0 <= 8) ==> r is Err && r->Err_0
                == ErrorView::Unsupported(
                "FLAC decoder: channel count "@ + decimal(params.channels->0 as nat)
                    + " out of range (1..=8)"@,
            )
        }),
{
}

/// What is declared to the converter: FLAC at the stream's rate with its largest block as
/// the packet, and 16-bit PCM of the same rate and channels. A fill asks for the largest
/// block and has room for exactly that.
pub proof fn converters_are_declared(cookie: Seq<u8>, info: StreamInfo, flag: u32)
    ensures
        ({
            let setup = flac_setup(cookie, info, flag);
            &&& setup.source.sample_rate == info.sample_rate
            &&& setup.source.format_id == 0x666C6163
            &&& setup.source.format_flags == flag
            &&& setup.source.bytes_per_packet == 0
            &&& setup.source.frames_per_packet == info.max_blocksize
            &&& setup.source.channels_per_frame == info.channels
            &&& setup.destination == s16_format(info.sample_rate, info.channels as u32)
            &&& setup.cookie == cookie
            &&& setup.create_op == "AudioConverterNew (FLAC dec)"@
            &&& setup.cookie_op == "AudioConverterSetProperty(DecompressionMagicCookie / FLAC)"@
        }),
        ({
            let g = flac_geometry(info);
            &&& g.request.channels == info.channels
            &&& g.request.packets == info.max_blocksize
            &&& g.bytes_per_frame == 2 * info.channels
            &&& g.request.capacity == g.request.packets * g.bytes_per_frame
        }),
{
    assert(0 <= info.max_blocksize * info.channels <= 0xFFFF * 0xFF) by (nonlinear_arith)
        requires
            0 <= info.max_blocksize <= 0xFFFF,
            0 <= info.channels <= 0xFF,
    ;
    assert(info.max_blocksize * (info.channels * 2) == info.max_blocksize * info.channels * 2)
        by (nonlinear_arith);
}

/// A decoder is made for its stream: it keeps the codec's identifier and the stream's
/// description, declares the stream's depth, and starts with a fresh session. One packet
/// stays queued while the stream goes on; at its end 256 fills are for queued packets
/// and two for what the converter still holds.
pub proof fn decoders_are_made_for_their_stream(
    d: FlacAtDecoder,
    params: CodecParameters,
    cookie: Seq<u8>,
    info: StreamInfo,
)
    requires
        d.is_made(params, cookie, info),
        4 <= info.bits_per_sample <= 32,
    ensures
        d.codec_id@ == params.codec_id@,
        d.info == info,
        Some(d.setup.source.format_flags) == depth_flag(info.bits_per_sample),
        d.setup.cookie@ == cookie,
        d.setup.source.sample_rate == info.sample_rate,
        d.setup.source.frames_per_packet == info.max_blocksize,
        d.session.rules.keep == 1,
        d.session.rules.flush_inputs == 256,
        d.session.rules.flush_tail == 2,
        d.session.rules.op@ == "AudioConverterFillComplexBuffer (FLAC dec)"@,
        d.session.pending@.len() == 0,
        d.session.input_queue@.len() == 0,
        d.session.pts == 0,
        !d.session.eof,
        d.session.geometry == flac_geometry(info),
{
    crate::session::states_show_their_sessions(d.session, 0, 0);
}

/// The names of the channel assignments.
pub proof fn layouts_have_their_names(c: ChannelAssignment)
    ensures
        c is Independent ==> layout_label(c) == "independent"@,
        c is LeftSide ==> layout_label(c) == "left+side"@,
        c is SideRight ==> layout_label(c) == "side+right"@,
        c is MidSide ==> layout_label(c) == "mid+side"@,
{
}

} // verus!
