//! The iLBC decoder: one packet of 38 or 50 bytes in, 16-bit mono PCM at 8 kHz out.

use vstd::prelude::*;
use vstd::slice::slice_to_vec;

use crate::error::{fails_with, Error, ErrorView};
use crate::ilbc::{mode_of, IlbcMode};
use crate::params::{get_option, option_value, CodecParameters};
use crate::session::{
    ConverterSetup, DecodeRules, DecodeSession, DecodeState, FillRequest, Geometry, SetupView,
    Supply,
};
use crate::sys::{
    compressed_format, ilbc_packet_bytes, s16_format, AudioStreamBasicDescription,
    K_AUDIO_FORMAT_ILBC,
};
use crate::text::{decimal, join3, numbered, push_decimal};

verus! {

/// The iLBC decoder.
#[derive(Debug)]
pub struct IlbcAtDecoder {
    /// Identifier of the codec.
    pub codec_id: String,
    /// The length of a block.
    pub mode: IlbcMode,
    /// The converter of the stream.
    pub setup: ConverterSetup,
    /// The session with the converter.
    pub session: DecodeSession,
}

/// The mode that the parameters ask for.
pub open spec fn requested_mode(params: CodecParameters) -> IlbcMode {
    mode_of(option_value(params.options, "mode"@))
}

/// Why parameters are refused, if they are: where they name a sample rate or a channel
/// count, it must be the codec's own.
pub open spec fn params_refusal(params: CodecParameters) -> Option<ErrorView> {
    if params.sample_rate matches Some(rate) && rate != 8000 {
        Some(
            ErrorView::Unsupported(
                "iLBC decoder: sample_rate must be 8000 (got "@ + decimal(
                    params.sample_rate->0 as nat,
                ) + ")"@,
            ),
        )
    } else if params.channels matches Some(n) && n != 1 {
        Some(
            ErrorView::Unsupported(
                "iLBC decoder: channels must be 1 (got "@ + decimal(params.channels->0 as nat)
                    + ")"@,
            ),
        )
    } else {
        None
    }
}

/// The converter of a mode.
pub open spec fn ilbc_setup(mode: IlbcMode) -> SetupView {
    SetupView {
        source: compressed_format(
            8000,
            K_AUDIO_FORMAT_ILBC,
            0,
            mode.packet_bytes(),
            mode.frames(),
            1,
        ),
        destination: s16_format(8000, 1),
        cookie: Seq::empty(),
        create_op: "AudioConverterNew (iLBC dec, mode="@ + mode.variant_label() + ")"@,
        cookie_op: ""@,
    }
}

/// The shape of a mode's audio: a fill asks for one packet's worth.
pub open spec fn ilbc_geometry(mode: IlbcMode) -> Geometry {
    Geometry {
        request: FillRequest {
            channels: 1,
            packets: mode.frames(),
            capacity: (mode.frames() * 2) as u64,
        },
        bytes_per_frame: 2,
    }
}

/// The rules of an iLBC session.
pub open spec fn is_ilbc_rules(rules: DecodeRules) -> bool {
    &&& rules.keep == 1
    &&& rules.flush_inputs == 256
    &&& rules.flush_tail == 2
    &&& rules.op@ == "AudioConverterFillComplexBuffer (iLBC dec)"@
}

/// Why a packet that is not empty is refused, if it is: it must be as long as the mode
/// says.
pub open spec fn refusal(mode: IlbcMode, data: Seq<u8>) -> Option<ErrorView> {
    if data.len() != mode.packet_bytes() {
        Some(
            ErrorView::InvalidData(
                "iLBC decoder: packet length "@ + decimal(data.len()) + " doesn't match mode "@
                    + mode.variant_label() + " ("@ + decimal(mode.packet_bytes() as nat)
                    + " bytes)"@,
            ),
        )
    } else {
        None
    }
}

impl IlbcAtDecoder {
    /// What a decoder holds once it is made.
    pub open spec fn is_made(self, params: CodecParameters) -> bool {
        &&& self.codec_id@ == params.codec_id@
        &&& self.mode == requested_mode(params)
        &&& self.setup@ == ilbc_setup(self.mode)
        &&& is_ilbc_rules(self.session.rules)
        &&& self.session@ == DecodeState::fresh(self.session.rules, ilbc_geometry(self.mode))
    }

    /// Make a decoder.
    pub fn new(params: &CodecParameters) -> (r: Result<IlbcAtDecoder, Error>)
        ensures
            match params_refusal(*params) {
                Some(e) => fails_with(r, e),
                None => r is Ok && r->Ok_0.is_made(*params),
            },
    {
        if let Some(rate) = params.sample_rate {
            if rate != 8000 {
                return Err(
                    Error::Unsupported(
                        numbered("iLBC decoder: sample_rate must be 8000 (got ", rate as u64, ")"),
                    ),
                );
            }
        }
        if let Some(n) = params.channels {
            if n != 1 {
                return Err(
                    Error::Unsupported(
                        numbered("iLBC decoder: channels must be 1 (got ", n as u64, ")"),
                    ),
                );
            }
        }
        let mode = IlbcMode::parse(get_option(&params.options, "mode"));
        let frames: u32 = mode.frames_per_packet();
        let setup = ConverterSetup {
            source: AudioStreamBasicDescription::ilbc(frames),
            destination: AudioStreamBasicDescription::pcm_s16(8000, 1),
            cookie: Vec::new(),
            create_op: join3("AudioConverterNew (iLBC dec, mode=", mode.name(), ")"),
            cookie_op: "",
        };
        assert(setup@ =~= ilbc_setup(mode));
        let rules = DecodeRules {
            keep: 1,
            flush_inputs: 256,
            flush_tail: 2,
            op: "AudioConverterFillComplexBuffer (iLBC dec)",
        };
        let geometry = Geometry {
            request: FillRequest { channels: 1, packets: frames, capacity: frames as u64 * 2 },
            bytes_per_frame: 2,
        };
        Ok(
            IlbcAtDecoder {
                codec_id: params.codec_id.clone(),
                mode,
                setup,
                session: DecodeSession::new(rules, geometry),
            },
        )
    }

    /// Queue a packet. An empty one is ignored.
    pub fn send_packet(&mut self, data: &[u8]) -> (r: Result<(), Error>)
        ensures
            final(self).codec_id == old(self).codec_id,
            final(self).mode == old(self).mode,
            final(self).setup == old(self).setup,
            old(self).session.eof ==> fails_with(r, ErrorView::Eof) && *final(self) == *old(self),
            !old(self).session.eof && data@.len() == 0 ==> r is Ok && *final(self) == *old(self),
            !old(self).session.eof && data@.len() > 0 ==> match refusal(old(self).mode, data@) {
                Some(e) => fails_with(r, e) && *final(self) == *old(self),
                None => r is Ok && final(self).session@ == old(self).session@.queued(data@),
            },
    {
        if self.session.eof {
            return Err(Error::Eof);
        }
        if data.len() == 0 {
            return Ok(());
        }
        let expected: u32 = self.mode.bytes_per_packet();
        if data.len() != expected as usize {
            let mut text = numbered(
                "iLBC decoder: packet length ",
                data.len() as u64,
                " doesn't match mode ",
            );
            text.append(self.mode.name());
            text.append(" (");
            push_decimal(&mut text, expected as u64);
            text.append(" bytes)");
            return Err(Error::InvalidData(text));
        }
        self.session.enqueue(slice_to_vec(data));
        Ok(())
    }

    /// Hand the next packet to the converter, as one block.
    pub fn supply(&mut self) -> (s: Supply)
        ensures
            final(self).codec_id == old(self).codec_id,
            final(self).mode == old(self).mode,
            final(self).setup == old(self).setup,
            old(self).session@.queue.len() == 0 ==> {
                &&& s.is_nothing()
                &&& final(self).session@ == old(self).session@
            },
            old(self).session@.queue.len() > 0 ==> {
                &&& s.is_packet(old(self).session@.queue[0], old(self).mode.frames())
                &&& final(self).session@ == old(self).session@.supplied()
            },
    {
        let frames: u32 = self.mode.frames_per_packet();
        self.session.supply(frames)
    }
}

/// Make a decoder.
pub fn make_decoder(params: &CodecParameters) -> (r: Result<IlbcAtDecoder, Error>)
    ensures
        match params_refusal(*params) {
            Some(e) => fails_with(r, e),
            None => r is Ok && r->Ok_0.is_made(*params),
        },
{
    IlbcAtDecoder::new(params)
}

/// The compressed side of a converter is described with the packet size of its mode.
pub proof fn packet_sizes_agree(mode: IlbcMode)
    ensures
        ilbc_packet_bytes(mode.frames()) == mode.packet_bytes(),
{
}

/// Parameters may leave rate and channels open. Where they name them, only 8 000 Hz and one
/// channel will do, and a wrong rate is told before a wrong channel count.
pub proof fn only_the_codecs_own_stream_is_taken(params: CodecParameters)
    ensures
        ({
            let r = params_refusal(params);
            let rate_fits = params.sample_rate is None || params.sample_rate == Some(8_000u32);
            let channels_fit = params.channels is None || params.channels == Some(1u16);
            &&& r is None <==> rate_fits && channels_fit
            &&& !rate_fits ==> r == Some(
                ErrorView::Unsupported(
                    "iLBC decoder: sample_rate must be 8000 (got "@ + decimal(
                        params.sample_rate->0 as nat,
                    ) + ")"@,
                ),
            )
            &&& rate_fits && !channels_fit ==> r == Some(
                ErrorView::Unsupported(
                    "iLBC decoder: channels must be 1 (got "@ + decimal(params.channels->0 as nat)
                        + ")"@,
                ),
            )
        }),
{
}

/// A packet is accepted exactly if it has as many bytes as its mode codes a block in. Any
/// other is invalid data, and the message says both sizes.
pub proof fn packets_must_have_their_size(mode: IlbcMode, data: Seq<u8>)
    ensures
        mode is Ms20 ==> (refusal(mode, data) is None <==> data.len() == 38),
        mode is Ms30 ==> (refusal(mode, data) is None <==> data.len() == 50),
        refusal(mode, data) matches Some(e) ==> e == ErrorView::InvalidData(
            "iLBC decoder: packet length "@ + decimal(data.len()) + " doesn't match mode "@
                + mode.variant_label() + " ("@ + decimal(mode.packet_bytes() as nat) + " bytes)"@,
        ),
{
}

/// What every decoder is made with: the mode that the option names, blocks of compressed
/// speech in, 16-bit mono PCM at 8 kHz out, and room for one block a fill. One packet
/// stays queued while the stream goes on; at its end 256 fills are for queued packets
/// and two for what the converter still holds.
pub proof fn decoders_are_made_for_their_mode(d: IlbcAtDecoder, params: CodecParameters)
    requires
        d.is_made(params),
    ensures
        d.codec_id@ == params.codec_id@,
        d.mode == mode_of(option_value(params.options, "mode"@)),
        d.setup.source == compressed_format(
            8_000,
            K_AUDIO_FORMAT_ILBC,
            0,
            d.mode.packet_bytes(),
            d.mode.frames(),
            1,
        ),
        d.setup.destination == s16_format(8_000, 1),
        d.setup.cookie@.len() == 0,
        d.setup.create_op@ == "AudioConverterNew (iLBC dec, mode="@ + d.mode.variant_label()
            + ")"@,
        d.setup.cookie_op@ == ""@,
        d.session.rules.keep == 1,
        d.session.rules.flush_inputs == 256,
        d.session.rules.flush_tail == 2,
        d.session.rules.op@ == "AudioConverterFillComplexBuffer (iLBC dec)"@,
        d.session.geometry.request.channels == 1,
        d.session.geometry.request.packets == d.mode.frames(),
        d.session.geometry.bytes_per_frame == 2,
        d.session.geometry.request.capacity == 2 * d.mode.frames(),
        d.session.pending@.len() == 0,
        d.session.input_queue@.len() == 0,
        d.session.pts == 0,
        !d.session.eof,
        d.session.drain is Idle,
{
    crate::session::states_show_their_sessions(d.session, 0, 0);
    let view = d.setup@;
    assert(view.cookie.len() == 0);
}

} // verus!
