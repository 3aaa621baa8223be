//! The iLBC encoder: 16-bit mono PCM at 8 kHz in, one packet of 38 or 50 bytes a block
//! out.

use vstd::prelude::*;

use crate::encode::{Demand, EncodeRules, EncodeSession, EncodeState};
use crate::error::{fails_with, Error, ErrorView};
use crate::ilbc::{mode_of, tag_round_trips, IlbcMode};
use crate::params::{
    empty_options, get_option, given_or, option_value, set_option, CodecParameters, ParamsView,
};
use crate::session::{ConverterSetup, SetupView};
use crate::sys::{
    compressed_format, s16_format, AudioStreamBasicDescription, K_AUDIO_FORMAT_ILBC,
};
use crate::text::{decimal, join3, numbered};

verus! {

/// The iLBC encoder.
#[derive(Debug)]
pub struct IlbcAtEncoder {
    /// Identifier of the codec.
    pub codec_id: String,
    /// The length of a block.
    pub mode: IlbcMode,
    /// The converter of the stream.
    pub setup: ConverterSetup,
    /// The session with the converter.
    pub session: EncodeSession,
    /// What the coded stream is.
    pub out_params: CodecParameters,
}

/// The mode that the parameters ask for.
pub open spec fn requested_mode(params: CodecParameters) -> IlbcMode {
    mode_of(option_value(params.options, "mode"@))
}

/// Why parameters are refused, if they are: iLBC is mono at 8 kHz.
pub open spec fn params_refusal(params: CodecParameters) -> Option<ErrorView> {
    let rate = given_or(params.sample_rate, 8_000);
    let channels = given_or(params.channels, 1);
    if rate != 8_000 {
        Some(
            ErrorView::Unsupported(
                "iLBC encoder: sample_rate must be 8000 (got "@ + decimal(rate as nat) + ")"@,
            ),
        )
    } else if channels != 1 {
        Some(
            ErrorView::Unsupported(
                "iLBC encoder: channels must be 1 (got "@ + decimal(channels as nat) + ")"@,
            ),
        )
    } else {
        None
    }
}

/// The converter of a mode.
pub open spec fn ilbc_setup(mode: IlbcMode) -> SetupView {
    SetupView {
        source: s16_format(8_000, 1),
        destination: compressed_format(
            8_000,
            K_AUDIO_FORMAT_ILBC,
            0,
            mode.packet_bytes(),
            mode.frames(),
            1,
        ),
        cookie: Seq::empty(),
        create_op: "AudioConverterNew (iLBC enc, mode="@ + mode.variant_label() + ")"@,
        cookie_op: ""@,
    }
}

/// The rules of an iLBC session: a fill is offered one block, and the last block is
/// filled up with zeros.
pub open spec fn is_ilbc_rules(rules: EncodeRules, mode: IlbcMode) -> bool {
    &&& rules.channels == 1
    &&& rules.frame_length == mode.frames()
    &&& !rules.slack
    &&& rules.isolate
    &&& rules.pad_tail
    &&& rules.demand is AllUnlessNamed
    &&& rules.counted
    &&& rules.least_packet_bytes == 0
    &&& rules.op@ == "AudioConverterFillComplexBuffer (iLBC enc)"@
    &&& rules.refusal@ == "IlbcAtEncoder only accepts Audio frames"@
}

impl IlbcAtEncoder {
    /// What an encoder holds once it is made.
    pub open spec fn is_made(self, params: CodecParameters) -> bool {
        let mode = requested_mode(params);
        &&& self.codec_id@ == params.codec_id@
        &&& self.mode == mode
        &&& self.setup@ == ilbc_setup(mode)
        &&& self.session.is_sound()
        &&& is_ilbc_rules(self.session.rules, mode)
        &&& self.session@ == EncodeState::fresh(
            self.session.rules,
            2,
            8_000,
            mode.packet_bytes(),
        )
        &&& self.out_params@ == ParamsView {
            codec_id: params.codec_id@,
            sample_rate: Some(8_000),
            channels: Some(1),
            sample_format: None,
            extradata: Seq::empty(),
            bit_rate: Some(mode.net_bit_rate() as u64),
            options: empty_options().insert("mode"@, mode.label()),
        }
    }

    /// Make an encoder.
    pub fn new(params: &CodecParameters) -> (r: Result<IlbcAtEncoder, Error>)
        ensures
            match params_refusal(*params) {
                Some(e) => fails_with(r, e),
                None => r is Ok && r->Ok_0.is_made(*params),
            },
    {
        let rate: u32 = match params.sample_rate {
            Some(n) => n,
            None => 8_000,
        };
        let channels: u16 = match params.channels {
            Some(n) => n,
            None => 1,
        };
        if rate != 8_000 {
            return Err(
                Error::Unsupported(
                    numbered("iLBC encoder: sample_rate must be 8000 (got ", rate as u64, ")"),
                ),
            );
        }
        if channels != 1 {
            return Err(
                Error::Unsupported(
                    numbered("iLBC encoder: channels must be 1 (got ", channels as u64, ")"),
                ),
            );
        }
        let mode = IlbcMode::parse(get_option(&params.options, "mode"));
        let frames: u32 = mode.frames_per_packet();
        let setup = ConverterSetup {
            source: AudioStreamBasicDescription::pcm_s16(8_000, 1),
            destination: AudioStreamBasicDescription::ilbc(frames),
            cookie: Vec::new(),
            create_op: join3("AudioConverterNew (iLBC enc, mode=", mode.name(), ")"),
            cookie_op: "",
        };
        assert(setup@ =~= ilbc_setup(mode));
        let rules = EncodeRules {
            channels: 1,
            frame_length: frames,
            slack: false,
            isolate: true,
            pad_tail: true,
            demand: Demand::AllUnlessNamed,
            counted: true,
            least_packet_bytes: 0,
            op: "AudioConverterFillComplexBuffer (iLBC enc)",
            refusal: "IlbcAtEncoder only accepts Audio frames",
        };
        let mut out_params = CodecParameters::audio(params.codec_id.as_str());
        out_params.sample_rate = Some(8_000);
        out_params.channels = Some(1);
        out_params.bit_rate = Some(mode.bit_rate());
        set_option(&mut out_params.options, "mode", mode.tag());
        Ok(
            IlbcAtEncoder {
                codec_id: params.codec_id.clone(),
                mode,
                setup,
                session: EncodeSession::new(rules, 2, 8_000, mode.bytes_per_packet()),
                out_params,
            },
        )
    }

    /// What the coded stream is.
    pub fn output_params(&self) -> (p: &CodecParameters)
        ensures
            *p == self.out_params,
    {
        &self.out_params
    }
}

/// Whether a frame of `samples` samples in `len` bytes holds floats, which have to be
/// made 16-bit before they are sent: a float has four bytes.
pub fn holds_floats(samples: u32, len: usize) -> (floats: bool)
    ensures
        floats == (samples > 0 && len == samples * 4),
{
    samples > 0 && len as u64 == samples as u64 * 4
}

/// Make an encoder.
pub fn make_encoder(params: &CodecParameters) -> (r: Result<IlbcAtEncoder, Error>)
    ensures
        match params_refusal(*params) {
            Some(e) => fails_with(r, e),
            None => r is Ok && r->Ok_0.is_made(*params),
        },
{
    IlbcAtEncoder::new(params)
}

/// A decoder that is opened with what an encoder publishes takes the encoder's mode.
pub proof fn published_modes_are_understood(
    e: IlbcAtEncoder,
    params: CodecParameters,
    published: CodecParameters,
)
    requires
        e.is_made(params),
        published@ == e.out_params@,
    ensures
        requested_mode(published) == e.mode,
{
    tag_round_trips(e.mode);
    assert(published@.options.dom().contains("mode"@));
    assert(published@.options["mode"@] == e.mode.label());
}

/// Parameters may leave rate and channels open. Where they name them, only 8 000 Hz and one
/// channel will do, and a wrong rate is told before a wrong channel count.
pub proof fn only_the_codecs_own_stream_is_taken(params: CodecParameters)
    ensures
        ({
            let r = params_refusal(params);
            let rate_fits = params.sample_rate is None || params.sample_rate == Some(8_000u32);
            let channels_fit = params.channels is None || params.channels == Some(1u16);
            &&& r is None <==> rate_fits && channels_fit
            &&& !rate_fits ==> r == Some(
                ErrorView::Unsupported(
                    "iLBC encoder: sample_rate must be 8000 (got "@ + decimal(
                        params.sample_rate->0 as nat,
                    ) + ")"@,
                ),
            )
            &&& rate_fits && !channels_fit ==> r == Some(
                ErrorView::Unsupported(
                    "iLBC encoder: channels must be 1 (got "@ + decimal(params.channels->0 as nat)
                        + ")"@,
                ),
            )
        }),
{
}

/// What every encoder is made with: the mode that the option names, 16-bit mono PCM at
/// 8 kHz in, one coded block a fill out. A fill is offered the PCM of one block alone, and
/// zeros fill up the last one; no PCM is held back while the stream goes on.
pub proof fn encoders_are_made_for_their_mode(e: IlbcAtEncoder, params: CodecParameters)
    requires
        e.is_made(params),
    ensures
        e.codec_id@ == params.codec_id@,
        e.mode == mode_of(option_value(params.options, "mode"@)),
        e.setup.source == s16_format(8_000, 1),
        e.setup.destination == compressed_format(
            8_000,
            K_AUDIO_FORMAT_ILBC,
            0,
            e.mode.packet_bytes(),
            e.mode.frames(),
            1,
        ),
        e.setup.cookie@.len() == 0,
        e.setup.create_op@ == "AudioConverterNew (iLBC enc, mode="@ + e.mode.variant_label()
            + ")"@,
        e.setup.cookie_op@ == ""@,
        e.session.rules.channels == 1,
        e.session.rules.frame_length == e.mode.frames(),
        !e.session.rules.slack,
        e.session.rules.isolate,
        e.session.rules.pad_tail,
        e.session.rules.demand is AllUnlessNamed,
        e.session.rules.counted,
        e.session.rules.least_packet_bytes == 0,
        e.session.rules.op@ == "AudioConverterFillComplexBuffer (iLBC enc)"@,
        e.session.rules.refusal@ == "IlbcAtEncoder only accepts Audio frames"@,
        e.session.staging.bytes_per_frame == 2,
        e.session.max_packet_bytes == e.mode.packet_bytes(),
        e.session.sink.time_base.num == 1,
        e.session.sink.time_base.den == 8_000,
        e.session.staging.live().len() == 0,
        e.session.offered.live().len() == 0,
        e.session.fill is None,
        e.session.phase is Idle,
        e.session.sink.pending@.len() == 0,
        e.session.sink.pts == 0,
        !e.session.sink.eof,
        e.session.is_sound(),
{
    crate::encode::states_show_their_sessions(e.session);
    crate::feed::states_show_their_sinks(e.session.sink, 0);
    let view = e.setup@;
    assert(view.cookie.len() == 0);
}

/// What an encoder publishes of its stream: mono at 8 kHz, the mode's bit rate, and the
/// mode as its only option.
pub proof fn encoders_publish_their_mode(e: IlbcAtEncoder, params: CodecParameters, key: Seq<char>)
    requires
        e.is_made(params),
    ensures
        ({
            let p = e.out_params;
            &&& p.codec_id@ == params.codec_id@
            &&& p.sample_rate == Some(8_000u32)
            &&& p.channels == Some(1u16)
            &&& p.sample_format is None
            &&& p.extradata@.len() == 0
            &&& p.bit_rate == Some(e.mode.net_bit_rate() as u64)
            &&& option_value(p.options, "mode"@) == Some(e.mode.label())
            &&& key != "mode"@ ==> option_value(p.options, key) is None
        }),
{
    let view = e.out_params@;
    assert(view.extradata.len() == 0);
    assert(view.options.contains_key("mode"@));
}

} // verus!
