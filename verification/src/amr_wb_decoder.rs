//! The AMR wideband decoder: one packet in storage format in, 16-bit mono PCM at
//! 16 kHz out.
//!
//! The table-of-contents byte of each packet says how long it is, and the mode may
//! change from packet to packet.

use vstd::prelude::*;
use vstd::slice::slice_to_vec;

use crate::amr_wb::{type_of_toc, FrameType, FRAMES_PER_PACKET};
use crate::error::{fails_with, Error, ErrorView};
use crate::params::CodecParameters;
use crate::session::{
    ConverterSetup, DecodeRules, DecodeSession, DecodeState, FillRequest, Geometry, SetupView,
    Supply,
};
use crate::sys::{compressed_format, s16_format, AudioStreamBasicDescription, K_AUDIO_FORMAT_AMR_WB};
use crate::text::{decimal, ending_in, hex2, join3, numbered, push_decimal, push_hex2};

verus! {

/// The AMR wideband decoder.
#[derive(Debug)]
pub struct AmrWbAtDecoder {
    /// Identifier of the codec.
    pub codec_id: String,
    /// The converter of the stream.
    pub setup: ConverterSetup,
    /// The session with the converter.
    pub session: DecodeSession,
}

/// Why parameters are refused, if they are: where they name a sample rate or a channel
/// count, it must be the codec's own.
pub open spec fn params_refusal(params: CodecParameters) -> Option<ErrorView> {
    if params.sample_rate matches Some(rate) && rate != 16000 {
        Some(
            ErrorView::Unsupported(
                "AMR-WB decoder: sample_rate must be 16000 (got "@ + decimal(
                    params.sample_rate->0 as nat,
                ) + ")"@,
            ),
        )
    } else if params.channels matches Some(n) && n != 1 {
        Some(
            ErrorView::Unsupported(
                "AMR-WB decoder: channels must be 1 (got "@ + decimal(params.channels->0 as nat)
                    + ")"@,
            ),
        )
    } else {
        None
    }
}

/// The converter of every stream.
pub open spec fn amr_setup() -> SetupView {
    SetupView {
        source: compressed_format(16000, K_AUDIO_FORMAT_AMR_WB, 0, 0, 320, 1),
        destination: s16_format(16000, 1),
        cookie: Seq::empty(),
        create_op: "AudioConverterNew (AMR-WB dec)"@,
        cookie_op: ""@,
    }
}

/// The shape of every stream's audio: a fill asks for one packet's worth.
pub open spec fn amr_geometry() -> Geometry {
    Geometry {
        request: FillRequest { channels: 1, packets: 320, capacity: 640 },
        bytes_per_frame: 2,
    }
}

/// The rules of every session.
pub open spec fn is_amr_rules(rules: DecodeRules) -> bool {
    &&& rules.keep == 1
    &&& rules.flush_inputs == 256
    &&& rules.flush_tail == 2
    &&& rules.op@ == "AudioConverterFillComplexBuffer (AMR-WB dec)"@
}

/// Why a packet that is not empty is refused, if it is: its frame type must not be
/// reserved, and it must be as long as its frame type says.
pub open spec fn refusal(data: Seq<u8>) -> Option<ErrorView> {
    match type_of_toc(data[0]) {
        None => Some(
            ErrorView::InvalidData(
                "AMR-WB: TOC byte 0x"@ + hex2(data[0]) + " encodes a reserved frame type (FT="@
                    + decimal((data[0] as int / 8 % 16) as nat) + ")"@,
            ),
        ),
        Some(ft) => if data.len() != ft.packet_bytes() {
            Some(
                ErrorView::InvalidData(
                    "AMR-WB: "@ + ft.label() + " packet length "@ + decimal(data.len())
                        + " doesn't match storage-format size "@ + decimal(
                        ft.packet_bytes() as nat,
                    ),
                ),
            )
        } else {
            None
        },
    }
}

impl AmrWbAtDecoder {
    /// What a decoder holds once it is made.
    pub open spec fn is_made(self, params: CodecParameters) -> bool {
        &&& self.codec_id@ == params.codec_id@
        &&& self.setup@ == amr_setup()
        &&& is_amr_rules(self.session.rules)
        &&& self.session@ == DecodeState::fresh(self.session.rules, amr_geometry())
    }

    /// Make a decoder.
    pub fn new(params: &CodecParameters) -> (r: Result<AmrWbAtDecoder, Error>)
        ensures
            match params_refusal(*params) {
                Some(e) => fails_with(r, e),
                None => r is Ok && r->Ok_0.is_made(*params),
            },
    {
        if let Some(rate) = params.sample_rate {
            if rate != 16000 {
                return Err(
                    Error::Unsupported(
                        numbered(
                            "AMR-WB decoder: sample_rate must be 16000 (got ",
                            rate as u64,
                            ")",
                        ),
                    ),
                );
            }
        }
        if let Some(n) = params.channels {
            if n != 1 {
                return Err(
                    Error::Unsupported(
                        numbered("AMR-WB decoder: channels must be 1 (got ", n as u64, ")"),
                    ),
                );
            }
        }
        let setup = ConverterSetup {
            source: AudioStreamBasicDescription::amr_wb(),
            destination: AudioStreamBasicDescription::pcm_s16(16000, 1),
            cookie: Vec::new(),
            create_op: "AudioConverterNew (AMR-WB dec)".to_owned(),
            cookie_op: "",
        };
        assert(setup@ =~= amr_setup());
        let rules = DecodeRules {
            keep: 1,
            flush_inputs: 256,
            flush_tail: 2,
            op: "AudioConverterFillComplexBuffer (AMR-WB dec)",
        };
        let geometry = Geometry {
            request: FillRequest {
                channels: 1,
                packets: FRAMES_PER_PACKET,
                capacity: FRAMES_PER_PACKET as u64 * 2,
            },
            bytes_per_frame: 2,
        };
        Ok(
            AmrWbAtDecoder {
                codec_id: params.codec_id.clone(),
                setup,
                session: DecodeSession::new(rules, geometry),
            },
        )
    }

    /// Queue a packet. An empty one is ignored.
    pub fn send_packet(&mut self, data: &[u8]) -> (r: Result<(), Error>)
        ensures
            final(self).codec_id == old(self).codec_id,
            final(self).setup == old(self).setup,
            old(self).session.eof ==> fails_with(r, ErrorView::Eof) && *final(self) == *old(self),
            !old(self).session.eof && data@.len() == 0 ==> r is Ok && *final(self) == *old(self),
            !old(self).session.eof && data@.len() > 0 ==> match refusal(data@) {
                Some(e) => fails_with(r, e) && *final(self) == *old(self),
                None => r is Ok && final(self).session@ == old(self).session@.queued(data@),
            },
    {
        if self.session.eof {
            return Err(Error::Eof);
        }
        if data.len() == 0 {
            return Ok(());
        }
        let toc: u8 = data[0];
        let ft = match FrameType::from_toc(toc) {
            Some(ft) => ft,
            None => {
                let mut text = "AMR-WB: TOC byte 0x".to_owned();
                push_hex2(&mut text, toc);
                text.append(" encodes a reserved frame type (FT=");
                push_decimal(&mut text, (toc / 8 % 16) as u64);
                text.append(")");
                return Err(Error::InvalidData(text));
            },
        };
        let expected: usize = ft.bytes_per_packet();
        if data.len() != expected {
            let lead = join3("AMR-WB: ", ft.name(), " packet length ");
            let text = numbered(
                lead.as_str(),
                data.len() as u64,
                " doesn't match storage-format size ",
            );
            return Err(Error::InvalidData(ending_in(text.as_str(), expected as u64)));
        }
        self.session.enqueue(slice_to_vec(data));
        Ok(())
    }

    /// Hand the next packet to the converter, as 320 frames.
    pub fn supply(&mut self) -> (s: Supply)
        ensures
            final(self).codec_id == old(self).codec_id,
            final(self).setup == old(self).setup,
            old(self).session@.queue.len() == 0 ==> {
                &&& s.is_nothing()
                &&& final(self).session@ == old(self).session@
            },
            old(self).session@.queue.len() > 0 ==> {
                &&& s.is_packet(old(self).session@.queue[0], 320)
                &&& final(self).session@ == old(self).session@.supplied()
            },
    {
        self.session.supply(FRAMES_PER_PACKET)
    }
}

/// Make a decoder.
pub fn make_decoder(params: &CodecParameters) -> (r: Result<AmrWbAtDecoder, Error>)
    ensures
        match params_refusal(*params) {
            Some(e) => fails_with(r, e),
            None => r is Ok && r->Ok_0.is_made(*params),
        },
{
    AmrWbAtDecoder::new(params)
}

/// Whatever mode the packets before it had, a packet as long as its own mode says is
/// accepted.
pub proof fn modes_may_change(ft: FrameType, data: Seq<u8>)
    requires
        data.len() == ft.packet_bytes(),
        data[0] as int / 8 % 16 == ft.index(),
    ensures
        refusal(data) is None,
{
}

/// Parameters may leave rate and channels open. Where they name them, only 16 000 Hz and one
/// channel will do, and a wrong rate is told before a wrong channel count.
pub proof fn only_the_codecs_own_stream_is_taken(params: CodecParameters)
    ensures
        ({
            let r = params_refusal(params);
            let rate_fits = params.sample_rate is None || params.sample_rate == Some(16_000u32);
            let channels_fit = params.channels is None || params.channels == Some(1u16);
            &&& r is None <==> rate_fits && channels_fit
            &&& !rate_fits ==> r == Some(
                ErrorView::Unsupported(
                    "AMR-WB decoder: sample_rate must be 16000 (got "@ + decimal(
                        params.sample_rate->0 as nat,
                    ) + ")"@,
                ),
            )
            &&& rate_fits && !channels_fit ==> r == Some(
                ErrorView::Unsupported(
                    "AMR-WB decoder: channels must be 1 (got "@ + decimal(params.channels->0 as nat)
                        + ")"@,
                ),
            )
        }),
{
}

/// A packet is accepted exactly if its first byte names a frame type and it has as many
/// bytes as that type takes. Any other is invalid data, and the message says why.
pub proof fn packets_must_have_their_size(data: Seq<u8>)
    requires
        data.len() > 0,
    ensures
        refusal(data) is None <==> (type_of_toc(data[0]) matches Some(ft) && data.len()
            == ft.packet_bytes()),
        type_of_toc(data[0]) is None ==> refusal(data) == Some(
            ErrorView::InvalidData(
                "AMR-WB: TOC byte 0x"@ + hex2(data[0]) + " encodes a reserved frame type (FT="@
                    + decimal((data[0] as int / 8 % 16) as nat) + ")"@,
            ),
        ),
        type_of_toc(data[0]) matches Some(ft) ==> data.len() != ft.packet_bytes() ==> refusal(data)
            == Some(
            ErrorView::InvalidData(
                "AMR-WB: "@ + ft.label() + " packet length "@ + decimal(data.len())
                    + " doesn't match storage-format size "@ + decimal(ft.packet_bytes() as nat),
            ),
        ),
{
}

/// What every decoder is made with: packets of 20 ms of compressed speech in, 16-bit
/// mono PCM of the same rate out, and room for one packet's worth a fill. One packet
/// stays queued while the stream goes on; at its end 256 fills are for queued packets
/// and two for what the converter still holds.
pub proof fn decoders_are_made_for_speech(d: AmrWbAtDecoder, params: CodecParameters)
    requires
        d.is_made(params),
    ensures
        d.codec_id@ == params.codec_id@,
        d.setup.source == compressed_format(16_000, K_AUDIO_FORMAT_AMR_WB, 0, 0, 320, 1),
        d.setup.destination == s16_format(16_000, 1),
        d.setup.cookie@.len() == 0,
        d.setup.create_op@ == "AudioConverterNew (AMR-WB dec)"@,
        d.setup.cookie_op@ == ""@,
        d.session.rules.keep == 1,
        d.session.rules.flush_inputs == 256,
        d.session.rules.flush_tail == 2,
        d.session.rules.op@ == "AudioConverterFillComplexBuffer (AMR-WB dec)"@,
        d.session.geometry.request.channels == 1,
        d.session.geometry.request.packets * 50 == 16_000,
        d.session.geometry.bytes_per_frame == 2,
        d.session.geometry.request.capacity == 2 * d.session.geometry.request.packets,
        d.session.pending@.len() == 0,
        d.session.input_queue@.len() == 0,
        d.session.pts == 0,
        !d.session.eof,
        d.session.drain is Idle,
{
    crate::session::states_show_their_sessions(d.session, 0, 0);
    let view = d.setup@;
    assert(view.cookie.len() == 0);
}

} // verus!
