//! The AAC encoder: interleaved 16-bit or float PCM in, AAC packets out.

use vstd::prelude::*;

use crate::adts::{
    build_header, header_bytes, header_of, header_round_trips, sample_rate_index, AdtsHeader,
    SAMPLE_RATES,
};
use crate::bytes::push_bytes;
use crate::encode::{silence, Demand};
use crate::error::{fails_with, Error, ErrorView};
use crate::feed::{samples_given, Packet, PacketSink, PcmContext, SinkState};
use crate::params::{
    channels_of, empty_options, get_option, given_or, option_value, rate_of, sample_time_base,
    set_option, CodecParameters, ParamsView, SampleFormat, TimeBase,
};
use crate::session::{
    nothing_pending, plane_of, ConverterSetup, FillReply, FillRequest, Frame, SetupView, Supply,
};
use crate::status::{status_error, status_failure, AtError};
use crate::sys::{
    compressed_format, float32_format, s16_format, AudioConverterPrimeInfo,
    AudioStreamBasicDescription, OSStatus, K_AUDIO_FORMAT_MPEG4_AAC, K_AUDIO_FORMAT_MPEG4_AAC_ELD,
    K_AUDIO_FORMAT_MPEG4_AAC_HE, K_AUDIO_FORMAT_MPEG4_AAC_HE_V2, K_AUDIO_FORMAT_MPEG4_AAC_LD,
    NO_ERR,
};
use crate::text::{decimal, ending_in, join3, numbered, numeral, same_text};

verus! {

/// The variants of AAC.
#[derive(Clone, Copy, Debug, PartialEq, Eq, Structural)]
pub enum AacProfile {
    /// AAC LC.
    Lc,
    /// AAC LC with spectral band replication.
    He,
    /// HE-AAC with parametric stereo.
    HeV2,
    /// Low delay.
    Ld,
    /// Enhanced low delay.
    Eld,
}

/// The profile that an option names; LC unless another is named.
pub open spec fn profile_of(option: Option<Seq<char>>) -> AacProfile {
    match option {
        Some(s) => if s == "he"@ || s == "he-v1"@ || s == "HE"@ {
            AacProfile::He
        } else if s == "he-v2"@ || s == "HEv2"@ || s == "HE-v2"@ {
            AacProfile::HeV2
        } else if s == "ld"@ || s == "LD"@ || s == "aac-ld"@ {
            AacProfile::Ld
        } else if s == "eld"@ || s == "ELD"@ || s == "aac-eld"@ {
            AacProfile::Eld
        } else {
            AacProfile::Lc
        },
        None => AacProfile::Lc,
    }
}

impl AacProfile {
    /// Frames in a packet, at the output sample rate.
    pub open spec fn frames(self) -> u32 {
        match self {
            AacProfile::Lc => 1024,
            AacProfile::He | AacProfile::HeV2 => 2048,
            AacProfile::Ld | AacProfile::Eld => 512,
        }
    }

    /// Whether the decoder's output has twice the sample rate of the coded core.
    pub open spec fn doubles_rate(self) -> bool {
        self is He || self is HeV2
    }

    /// The name of the variant.
    pub open spec fn label(self) -> Seq<char> {
        match self {
            AacProfile::Lc => "Lc"@,
            AacProfile::He => "He"@,
            AacProfile::HeV2 => "HeV2"@,
            AacProfile::Ld => "Ld"@,
            AacProfile::Eld => "Eld"@,
        }
    }

    /// The profile that an option names. Unknown and missing values mean LC.
    pub fn parse(opt: Option<&str>) -> (p: AacProfile)
        ensures
            p == profile_of(match opt {
                Some(s) => Some(s@),
                None => None,
            }),
    {
        match opt {
            Some(s) => if same_text(s, "he") || same_text(s, "he-v1") || same_text(s, "HE") {
                AacProfile::He
            } else if same_text(s, "he-v2") || same_text(s, "HEv2") || same_text(s, "HE-v2") {
                AacProfile::HeV2
            } else if same_text(s, "ld") || same_text(s, "LD") || same_text(s, "aac-ld") {
                AacProfile::Ld
            } else if same_text(s, "eld") || same_text(s, "ELD") || same_text(s, "aac-eld") {
                AacProfile::Eld
            } else {
                AacProfile::Lc
            },
            None => AacProfile::Lc,
        }
    }

    /// Frames in a packet, at the output sample rate.
    pub fn frames_per_packet(self) -> (n: u32)
        ensures
            n == self.frames(),
    {
        match self {
            AacProfile::Lc => 1024,
            AacProfile::He | AacProfile::HeV2 => 2048,
            AacProfile::Ld | AacProfile::Eld => 512,
        }
    }

    /// Whether packets are raw AAC. Only LC packets have an ADTS header: it has no room
    /// for the other profiles, which a magic cookie tells of.
    pub fn is_raw(self) -> (raw: bool)
        ensures
            raw == !(self is Lc),
    {
        match self {
            AacProfile::Lc => false,
            _ => true,
        }
    }

    /// The name of the variant.
    pub fn name(self) -> (s: &'static str)
        ensures
            s@ == self.label(),
    {
        match self {
            AacProfile::Lc => "Lc",
            AacProfile::He => "He",
            AacProfile::HeV2 => "HeV2",
            AacProfile::Ld => "Ld",
            AacProfile::Eld => "Eld",
        }
    }
}

/// Packets' worth of PCM that must be staged before packets are coded: one to code and
/// the rest for the converter to look ahead to.
pub open spec fn lookahead(profile: AacProfile) -> int {
    match profile {
        AacProfile::Lc => 1,
        AacProfile::He | AacProfile::HeV2 => 5,
        AacProfile::Ld | AacProfile::Eld => 2,
    }
}

/// How far the draining of the encoder has come.
#[derive(Clone, Copy, Debug, PartialEq, Eq, Structural)]
pub enum AacPhase {
    /// Nothing to drain until more PCM comes.
    Idle,
    /// PCM came in.
    Stream,
    /// This many more packets are to be coded, out of what is staged.
    Round(usize),
    /// The stream is about to end.
    Flush,
    /// The stream ends: this many more packets are to be coded, out of what is staged.
    FlushRound(usize),
    /// The stream ends and everything was staged: what the converter holds is drained.
    Tail {
        /// Most fills that are left.
        left: u32,
        /// Fills without a packet since the last packet.
        streak: u32,
    },
}

/// The session of an AAC encoder.
#[derive(Debug)]
pub struct AacSession {
    /// The variant.
    pub profile: AacProfile,
    /// Channels of the stream.
    pub channels: u16,
    /// Sampling frequency index for ADTS headers.
    pub sf_index: u8,
    /// Channel configuration for ADTS headers.
    pub channel_config: u8,
    /// Size of the largest packet.
    pub max_packet_bytes: u32,
    /// PCM that waits; what the converter has taken of it stays until a round is over.
    pub staging: PcmContext,
    /// How far draining has come.
    pub phase: AacPhase,
    /// The coded packets.
    pub sink: PacketSink,
}

/// An [`AacSession`] as mathematics.
#[verifier::ext_equal]
pub struct AacState {
    pub profile: AacProfile,
    pub channels: u16,
    pub sf_index: u8,
    pub channel_config: u8,
    pub max_packet_bytes: u32,
    pub staged: Seq<u8>,
    pub taken: int,
    pub bytes_per_frame: u32,
    pub phase: AacPhase,
    pub sink: SinkState,
}

impl View for AacSession {
    type V = AacState;

    open spec fn view(&self) -> AacState {
        AacState {
            profile: self.profile,
            channels: self.channels,
            sf_index: self.sf_index,
            channel_config: self.channel_config,
            max_packet_bytes: self.max_packet_bytes,
            staged: self.staging.queue@,
            taken: self.staging.read_pos as int,
            bytes_per_frame: self.staging.bytes_per_frame,
            phase: self.phase,
            sink: self.sink@,
        }
    }
}

impl AacState {
    /// PCM bytes in a packet.
    pub open spec fn packet_bytes(self) -> int {
        self.profile.frames() * self.bytes_per_frame
    }

    /// PCM came in.
    pub open spec fn extended(self, pcm: Seq<u8>) -> AacState {
        AacState { staged: self.staged + pcm, phase: AacPhase::Stream, ..self }
    }

    /// The stream was ended.
    pub open spec fn ended(self) -> AacState {
        AacState { phase: AacPhase::Idle, sink: self.sink.ended(), ..self }
    }

    /// The draining of what the converter holds begins: 16 fills at most.
    pub open spec fn tail_begun(self) -> AacState {
        AacState { phase: AacPhase::Tail { left: 16, streak: 0 }, ..self }
    }

    /// Zeros that make up the last packet.
    pub open spec fn padding(self) -> int {
        let over = self.staged.len() as int % self.packet_bytes();
        if over == 0 {
            0
        } else {
            self.packet_bytes() - over
        }
    }

    /// The session before its next fill.
    pub open spec fn advanced(self) -> AacState {
        match self.phase {
            AacPhase::Stream => if self.staged.len() < self.packet_bytes() * lookahead(
                self.profile,
            ) {
                AacState { phase: AacPhase::Idle, ..self }
            } else {
                AacState {
                    phase: AacPhase::Round(
                        (self.staged.len() as int / self.packet_bytes() - (lookahead(self.profile)
                            - 1)) as usize,
                    ),
                    ..self
                }
            },
            AacPhase::Flush => if self.staged.len() == 0 {
                self.tail_begun()
            } else {
                let padded = self.staged + silence(self.padding());
                AacState {
                    staged: padded,
                    phase: AacPhase::FlushRound(
                        (padded.len() as int / self.packet_bytes()) as usize,
                    ),
                    ..self
                }
            },
            _ => self,
        }
    }

    /// A fill is under way.
    pub open spec fn is_filling(self) -> bool {
        self.phase is Round || self.phase is FlushRound || self.phase is Tail
    }

    /// The samples that a converter gets that asks for `requested`: as many, or all where
    /// it names no number, as far as they are there; none once everything was staged.
    pub open spec fn given(self, requested: u32) -> int {
        if self.phase is Round || self.phase is FlushRound {
            samples_given(
                self.staged.len() - self.taken,
                self.bytes_per_frame as int,
                Demand::AllUnlessNamed.wanted(requested),
            )
        } else {
            0
        }
    }

    /// The bytes that a converter gets that asks for `requested` samples.
    pub open spec fn given_bytes(self, requested: u32) -> int {
        self.given(requested) * self.bytes_per_frame
    }

    /// That PCM went to the converter.
    pub open spec fn supplied(self, requested: u32) -> AacState {
        AacState { taken: self.taken + self.given_bytes(requested), ..self }
    }

    /// The packet for `raw` AAC: an LC packet gets an ADTS header.
    pub open spec fn framed(self, raw: Seq<u8>) -> Seq<u8> {
        if self.profile is Lc {
            header_bytes(raw.len() as int, self.sf_index, self.channel_config, 1) + raw
        } else {
            raw
        }
    }

    /// What the converter took is dropped.
    pub open spec fn settled(self) -> AacState {
        AacState {
            staged: self.staged.subrange(self.taken, self.staged.len() as int),
            taken: 0,
            ..self
        }
    }

    /// The session after an answer, while PCM is coded: a failure gives back what the
    /// converter took; without a packet, or after the last one, the round is over.
    pub open spec fn coded(
        self,
        left: usize,
        status: OSStatus,
        packets: u32,
        data: Seq<u8>,
    ) -> AacState {
        if status != NO_ERR {
            AacState { taken: 0, phase: AacPhase::Idle, ..self }
        } else {
            let dry = data.len() == 0 || packets == 0;
            let next = if dry {
                self
            } else {
                AacState {
                    sink: self.sink.emitted(self.framed(data), self.profile.frames() as int),
                    ..self
                }
            };
            if dry || left <= 1 {
                if self.phase is FlushRound {
                    next.settled().tail_begun()
                } else {
                    AacState { phase: AacPhase::Idle, ..next.settled() }
                }
            } else {
                AacState {
                    phase: if self.phase is FlushRound {
                        AacPhase::FlushRound((left - 1) as usize)
                    } else {
                        AacPhase::Round((left - 1) as usize)
                    },
                    ..next
                }
            }
        }
    }

    /// The session after an answer, while the converter is drained, whatever its status:
    /// two answers in a row without a packet, or the last fill, end the stream.
    pub open spec fn drained(
        self,
        left: u32,
        streak: u32,
        packets: u32,
        data: Seq<u8>,
    ) -> AacState {
        let dry = data.len() == 0 || packets == 0;
        let next = if dry {
            self
        } else {
            AacState {
                sink: self.sink.emitted(self.framed(data), self.profile.frames() as int),
                ..self
            }
        };
        let run = if dry {
            streak + 1
        } else {
            0
        };
        if run >= 2 || left <= 1 {
            next.ended()
        } else {
            AacState {
                phase: AacPhase::Tail { left: (left - 1) as u32, streak: run as u32 },
                ..next
            }
        }
    }

    /// The session after an answer.
    pub open spec fn filled(self, status: OSStatus, packets: u32, data: Seq<u8>) -> AacState {
        match self.phase {
            AacPhase::Round(left) => self.coded(left, status, packets, data),
            AacPhase::FlushRound(left) => self.coded(left, status, packets, data),
            AacPhase::Tail { left, streak } => self.drained(left, streak, packets, data),
            _ => self,
        }
    }

    /// The first pending packet went to the caller.
    pub open spec fn received(self) -> AacState {
        AacState { sink: self.sink.received(), ..self }
    }
}

impl AacSession {
    /// The queue is sound and empty-handed outside of rounds, a packet of PCM has some
    /// bytes and not too many, and time began at 0.
    pub open spec fn is_sound(self) -> bool {
        &&& self.staging.is_sound()
        &&& self.staging.bytes_per_frame <= 32
        &&& self.sink.pts >= 0
        &&& self.phase is Round || self.phase is FlushRound || self.staging.read_pos == 0
        &&& self.phase matches AacPhase::Tail { left, streak } ==> streak <= 2
    }

    /// Take the framework's word for the size of the largest packet, if it gave it; a
    /// packet always gets 256 bytes.
    pub fn max_packet_size_answered(&mut self, size: Option<u32>)
        requires
            old(self).is_sound(),
        ensures
            final(self).is_sound(),
            ({
                let n = given_or(size, old(self).max_packet_bytes);
                final(self)@ == AacState {
                    max_packet_bytes: if n < 256 {
                        256
                    } else {
                        n
                    },
                    ..old(self)@
                }
            }),
    {
        let n: u32 = match size {
            Some(n) => n,
            None => self.max_packet_bytes,
        };
        self.max_packet_bytes = if n < 256 {
            256
        } else {
            n
        };
    }

    /// Stage the PCM of a frame and begin to drain. A frame without PCM is ignored. Not
    /// while a fill is under way.
    pub fn send_frame(&mut self, frame: &Frame) -> (r: Result<(), Error>)
        requires
            old(self).is_sound(),
            !old(self)@.is_filling(),
        ensures
            final(self).is_sound(),
            old(self).sink.eof ==> fails_with(r, ErrorView::Eof) && *final(self) == *old(self),
            !old(self).sink.eof ==> match *frame {
                Frame::Other => {
                    &&& fails_with(
                        r,
                        ErrorView::Unsupported("AacAtEncoder only accepts Audio frames"@),
                    )
                    &&& *final(self) == *old(self)
                },
                Frame::Audio(audio) => r is Ok && if plane_of(audio@).len() == 0 {
                    *final(self) == *old(self)
                } else {
                    final(self)@ == old(self)@.extended(plane_of(audio@))
                },
            },
    {
        if self.sink.eof {
            return Err(Error::Eof);
        }
        match frame {
            Frame::Other => Err(Error::unsupported("AacAtEncoder only accepts Audio frames")),
            Frame::Audio(audio) => {
                if audio.data.len() == 0 || audio.data[0].len() == 0 {
                    return Ok(());
                }
                push_bytes(&mut self.staging.queue, audio.data[0].as_slice());
                self.phase = AacPhase::Stream;
                assert(self@ =~= old(self)@.extended(plane_of(audio@)));
                Ok(())
            },
        }
    }

    /// Begin to drain everything, at the end of the stream. Not while a fill is under
    /// way.
    pub fn flush(&mut self)
        requires
            old(self).is_sound(),
            !old(self)@.is_filling(),
        ensures
            final(self).is_sound(),
            final(self)@ == (AacState { phase: AacPhase::Flush, ..old(self)@ }),
    {
        self.phase = AacPhase::Flush;
    }

    /// The next fill to make, or `None` when draining is done.
    pub fn next_fill(&mut self) -> (r: Option<FillRequest>)
        requires
            old(self).is_sound(),
        ensures
            final(self).is_sound(),
            final(self)@ == old(self)@.advanced(),
            r == if final(self)@.is_filling() {
                Some(
                    FillRequest {
                        channels: old(self).channels as u32,
                        packets: 1,
                        capacity: old(self).max_packet_bytes as u64,
                    },
                )
            } else {
                None::<FillRequest>
            },
    {
        let frames: usize = self.profile.frames_per_packet() as usize;
        let size: usize = self.staging.bytes_per_frame as usize;
        assert(0 < frames * size <= 65536) by (nonlinear_arith)
            requires
                0 < frames <= 2048,
                0 < size <= 32,
        ;
        let packet_bytes: usize = frames * size;
        let staged: usize = self.staging.queue.len();
        match self.phase {
            AacPhase::Stream => {
                let ahead: usize = match self.profile {
                    AacProfile::Lc => 1,
                    AacProfile::He | AacProfile::HeV2 => 5,
                    AacProfile::Ld | AacProfile::Eld => 2,
                };
                if staged < packet_bytes * ahead {
                    self.phase = AacPhase::Idle;
                } else {
                    proof {
                        lemma_packets_staged(staged as int, packet_bytes as int, ahead as int);
                    }
                    self.phase = AacPhase::Round(staged / packet_bytes - (ahead - 1));
                }
            },
            AacPhase::Flush => {
                if staged == 0 {
                    self.phase = AacPhase::Tail { left: 16, streak: 0 };
                } else {
                    let over: usize = staged % packet_bytes;
                    let pad: usize = if over == 0 {
                        0
                    } else {
                        packet_bytes - over
                    };
                    let zeros: Vec<u8> = vec![0u8; pad];
                    assert(zeros@ =~= silence(pad as int));
                    push_bytes(&mut self.staging.queue, zeros.as_slice());
                    let total: usize = self.staging.queue.len();
                    self.phase = AacPhase::FlushRound(total / packet_bytes);
                }
            },
            _ => {},
        }
        assert(self@ =~= old(self)@.advanced());
        match self.phase {
            AacPhase::Round(_) | AacPhase::FlushRound(_) | AacPhase::Tail { .. } => Some(
                FillRequest {
                    channels: self.channels as u32,
                    packets: 1,
                    capacity: self.max_packet_bytes as u64,
                },
            ),
            _ => None,
        }
    }

    /// Hand PCM to the converter, which asks for `requested` samples.
    pub fn supply(&mut self, requested: u32) -> (s: Supply)
        requires
            old(self).is_sound(),
        ensures
            final(self).is_sound(),
            0 <= old(self)@.given_bytes(requested) <= old(self)@.staged.len() - old(self)@.taken,
            s.is_pcm(
                old(self)@.staged.subrange(
                    old(self)@.taken,
                    old(self)@.taken + old(self)@.given_bytes(requested),
                ),
                old(self)@.given(requested),
            ),
            final(self)@ == old(self)@.supplied(requested),
    {
        match self.phase {
            AacPhase::Round(_) | AacPhase::FlushRound(_) => {
                let wanted: u32 = Demand::AllUnlessNamed.samples(requested);
                let ghost live = self.staging.live();
                let s = self.staging.supply(wanted);
                assert(live.subrange(0, old(self)@.given_bytes(requested)) =~= old(
                    self,
                )@.staged.subrange(
                    old(self)@.taken,
                    old(self)@.taken + old(self)@.given_bytes(requested),
                ));
                s
            },
            _ => {
                assert(0 * old(self)@.bytes_per_frame == 0);
                assert(old(self)@.staged.subrange(
                    old(self)@.taken,
                    old(self)@.taken,
                ) =~= Seq::<u8>::empty());
                Supply::nothing()
            },
        }
    }

    fn emit(&mut self, raw: Vec<u8>)
        requires
            old(self).is_sound(),
            raw@.len() + 7 <= usize::MAX,
            old(self).sink.pts + old(self).profile.frames() <= i64::MAX,
        ensures
            final(self).is_sound(),
            final(self)@ == (AacState {
                sink: old(self)@.sink.emitted(
                    old(self)@.framed(raw@),
                    old(self).profile.frames() as int,
                ),
                ..old(self)@
            }),
    {
        let samples: u64 = self.profile.frames_per_packet() as u64;
        if self.profile.is_raw() {
            self.sink.emit(raw, samples);
        } else {
            let header = build_header(raw.len(), self.sf_index, self.channel_config, 1);
            let mut data: Vec<u8> = Vec::new();
            push_bytes(&mut data, &header);
            push_bytes(&mut data, raw.as_slice());
            assert(data@ =~= old(self)@.framed(raw@));
            self.sink.emit(data, samples);
        }
    }

    fn settle(&mut self)
        requires
            old(self).is_sound(),
        ensures
            final(self).is_sound(),
            final(self).staging.read_pos == 0,
            final(self)@ == old(self)@.settled(),
    {
        self.staging.compact();
        assert(self.staging.queue@ =~= self.staging.live());
        assert(self@ =~= old(self)@.settled());
    }

    fn code(&mut self, left: usize, reply: FillReply) -> (r: Result<(), Error>)
        requires
            old(self).is_sound(),
            old(self).phase == AacPhase::Round(left) || old(self).phase == AacPhase::FlushRound(
                left,
            ),
            reply.data@.len() + 7 <= usize::MAX,
            old(self).sink.pts + old(self).profile.frames() <= i64::MAX,
        ensures
            final(self).is_sound(),
            final(self)@ == old(self)@.coded(left, reply.status, reply.packets, reply.data@),
            reply.status == NO_ERR ==> r is Ok,
            reply.status != NO_ERR ==> fails_with(
                r,
                status_failure("AudioConverterFillComplexBuffer (encoder)"@, reply.status),
            ),
    {
        if reply.status != NO_ERR {
            self.staging.read_pos = 0;
            self.phase = AacPhase::Idle;
            return Err(status_error("AudioConverterFillComplexBuffer (encoder)", reply.status));
        }
        let flushing: bool = match self.phase {
            AacPhase::FlushRound(_) => true,
            _ => false,
        };
        let dry: bool = reply.data.len() == 0 || reply.packets == 0;
        if !dry {
            self.emit(reply.data);
        }
        if dry || left <= 1 {
            self.settle();
            self.phase = if flushing {
                AacPhase::Tail { left: 16, streak: 0 }
            } else {
                AacPhase::Idle
            };
        } else if flushing {
            self.phase = AacPhase::FlushRound(left - 1);
        } else {
            self.phase = AacPhase::Round(left - 1);
        }
        assert(self@ =~= old(self)@.coded(left, reply.status, reply.packets, reply.data@));
        Ok(())
    }

    fn drain(&mut self, left: u32, streak: u32, reply: FillReply)
        requires
            old(self).is_sound(),
            old(self).phase == (AacPhase::Tail { left, streak }),
            reply.data@.len() + 7 <= usize::MAX,
            old(self).sink.pts + old(self).profile.frames() <= i64::MAX,
        ensures
            final(self).is_sound(),
            final(self)@ == old(self)@.drained(left, streak, reply.packets, reply.data@),
    {
        let dry: bool = reply.data.len() == 0 || reply.packets == 0;
        if !dry {
            self.emit(reply.data);
        }
        let run: u32 = if dry {
            streak + 1
        } else {
            0
        };
        if run >= 2 || left <= 1 {
            self.phase = AacPhase::Idle;
            self.sink.eof = true;
        } else {
            self.phase = AacPhase::Tail { left: left - 1, streak: run };
        }
        assert(self@ =~= old(self)@.drained(left, streak, reply.packets, reply.data@));
    }

    /// Take the converter's answer to a fill.
    pub fn filled(&mut self, reply: FillReply) -> (r: Result<(), Error>)
        requires
            old(self).is_sound(),
            old(self)@.is_filling(),
            reply.data@.len() + 7 <= usize::MAX,
            old(self).sink.pts + old(self).profile.frames() <= i64::MAX,
        ensures
            final(self).is_sound(),
            final(self)@ == old(self)@.filled(reply.status, reply.packets, reply.data@),
            reply.status == NO_ERR || old(self).phase is Tail ==> r is Ok,
            reply.status != NO_ERR && !(old(self).phase is Tail) ==> fails_with(
                r,
                status_failure("AudioConverterFillComplexBuffer (encoder)"@, reply.status),
            ),
    {
        match self.phase {
            AacPhase::Round(left) => self.code(left, reply),
            AacPhase::FlushRound(left) => self.code(left, reply),
            AacPhase::Tail { left, streak } => {
                self.drain(left, streak, reply);
                Ok(())
            },
            _ => Ok(()),
        }
    }

    /// Take the first pending packet. Without one, the end of the stream or a need for
    /// more input is reported.
    pub fn receive_packet(&mut self) -> (r: Result<Packet, Error>)
        requires
            old(self).is_sound(),
        ensures
            final(self).is_sound(),
            old(self)@.sink.pending.len() > 0 ==> {
                &&& r is Ok
                &&& r->Ok_0@ == old(self)@.sink.pending[0]
                &&& final(self)@ == old(self)@.received()
            },
            old(self)@.sink.pending.len() == 0 ==> {
                &&& fails_with(r, nothing_pending(old(self).sink.eof))
                &&& final(self)@ == old(self)@
            },
    {
        self.sink.receive_packet()
    }
}

proof fn lemma_packets_staged(staged: int, packet: int, ahead: int)
    by (nonlinear_arith)
    requires
        packet > 0,
        ahead >= 1,
        staged >= packet * ahead,
    ensures
        staged / packet >= ahead,
{
}

/// Bits per second unless the parameters or the profile say otherwise.
pub const DEFAULT_BITRATE_BPS: u32 = 128_000;

/// Size of the largest packet, where the framework does not say.
pub const MAX_PACKET_BYTES: u32 = 8192;

/// The AAC encoder.
#[derive(Debug)]
pub struct AacAtEncoder {
    /// Identifier of the codec.
    pub codec_id: String,
    /// Bits per second to ask of the converter.
    pub bit_rate: u32,
    /// The converter of the stream.
    pub setup: ConverterSetup,
    /// The session with the converter.
    pub session: AacSession,
    /// What the coded stream is.
    pub out_params: CodecParameters,
}

/// The profile that the parameters ask for.
pub open spec fn requested_profile(params: CodecParameters) -> AacProfile {
    profile_of(option_value(params.options, "profile"@))
}

/// The sample format that the parameters ask for.
pub open spec fn requested_format(params: CodecParameters) -> SampleFormat {
    given_or(params.sample_format, SampleFormat::F32)
}

/// Bits per second of a profile unless the parameters say otherwise.
pub open spec fn default_bit_rate(profile: AacProfile) -> u32 {
    match profile {
        AacProfile::Lc | AacProfile::Ld | AacProfile::Eld => DEFAULT_BITRATE_BPS,
        AacProfile::He => 64_000,
        AacProfile::HeV2 => 32_000,
    }
}

/// The bit rate to ask for: the low 32 bits of what the parameters say.
pub open spec fn requested_bit_rate(params: CodecParameters) -> u32 {
    (given_or(params.bit_rate, default_bit_rate(requested_profile(params)) as u64)
        % 0x1_0000_0000) as u32
}

/// The channel configuration of a channel count.
pub open spec fn config_of_channels(channels: u16) -> Option<u8> {
    if 1 <= channels <= 6 {
        Some(channels as u8)
    } else if channels == 8 {
        Some(7)
    } else {
        None
    }
}

/// Why parameters are refused, if they are.
pub open spec fn params_refusal(params: CodecParameters) -> Option<ErrorView> {
    let rate = rate_of(params);
    let channels = channels_of(params);
    let format = requested_format(params);
    if requested_profile(params) is HeV2 && channels != 2 {
        Some(
            ErrorView::Unsupported(
                "AacAtEncoder: HE-AAC v2 requires stereo (got "@ + decimal(channels as nat)
                    + " channels)"@,
            ),
        )
    } else if !SAMPLE_RATES@.contains(rate) {
        Some(
            ErrorView::Unsupported(
                "AacAtEncoder: unsupported sample rate "@ + decimal(rate as nat),
            ),
        )
    } else if config_of_channels(channels) is None {
        Some(
            ErrorView::Unsupported(
                "AacAtEncoder: unsupported channel count "@ + decimal(channels as nat),
            ),
        )
    } else if !(format is F32 || format is S16) {
        Some(ErrorView::Unsupported("AacAtEncoder: only F32 and S16 input supported"@))
    } else {
        None
    }
}

/// The identifier of a profile's format.
pub open spec fn format_id(profile: AacProfile) -> u32 {
    match profile {
        AacProfile::Lc => K_AUDIO_FORMAT_MPEG4_AAC,
        AacProfile::He => K_AUDIO_FORMAT_MPEG4_AAC_HE,
        AacProfile::HeV2 => K_AUDIO_FORMAT_MPEG4_AAC_HE_V2,
        AacProfile::Ld => K_AUDIO_FORMAT_MPEG4_AAC_LD,
        AacProfile::Eld => K_AUDIO_FORMAT_MPEG4_AAC_ELD,
    }
}

/// The converter of a stream.
pub open spec fn aac_setup(
    profile: AacProfile,
    rate: u32,
    channels: u16,
    format: SampleFormat,
) -> SetupView {
    SetupView {
        source: if format is F32 {
            float32_format(rate, channels as u32)
        } else {
            s16_format(rate, channels as u32)
        },
        destination: compressed_format(
            rate,
            format_id(profile),
            0,
            0,
            profile.frames(),
            channels as u32,
        ),
        cookie: Seq::empty(),
        create_op: "AudioConverterNew (encoder, profile="@ + profile.label() + ")"@,
        cookie_op: ""@,
    }
}

/// The options that an encoder publishes: its profile, unless it is LC.
pub open spec fn profile_options(profile: AacProfile) -> Map<Seq<char>, Seq<char>> {
    match profile {
        AacProfile::Lc => empty_options(),
        AacProfile::He => empty_options().insert("profile"@, "he"@),
        AacProfile::HeV2 => empty_options().insert("profile"@, "he-v2"@),
        AacProfile::Ld => empty_options().insert("profile"@, "ld"@),
        AacProfile::Eld => empty_options().insert("profile"@, "eld"@),
    }
}

impl AacAtEncoder {
    /// What an encoder holds once it is made.
    pub open spec fn is_made(self, params: CodecParameters) -> bool {
        let profile = requested_profile(params);
        let rate = rate_of(params);
        let channels = channels_of(params);
        let format = requested_format(params);
        &&& self.codec_id@ == params.codec_id@
        &&& self.bit_rate == requested_bit_rate(params)
        &&& self.setup@ == aac_setup(profile, rate, channels, format)
        &&& self.session.is_sound()
        &&& self.session.sf_index < 13
        &&& SAMPLE_RATES@[self.session.sf_index as int] == rate
        &&& self.session@ == AacState {
            profile,
            channels,
            sf_index: self.session.sf_index,
            channel_config: config_of_channels(channels)->0,
            max_packet_bytes: MAX_PACKET_BYTES,
            staged: Seq::empty(),
            taken: 0,
            bytes_per_frame: (format.width() * channels) as u32,
            phase: AacPhase::Idle,
            sink: SinkState::fresh(sample_time_base(rate)),
        }
        &&& self.out_params@ == ParamsView {
            codec_id: params.codec_id@,
            sample_rate: Some(rate),
            channels: Some(channels),
            sample_format: None,
            extradata: Seq::empty(),
            bit_rate: Some(requested_bit_rate(params) as u64),
            options: profile_options(profile),
        }
    }

    /// Make an encoder. Until the framework says more, its bit rate is the one that is
    /// asked for, and it has no cookie.
    #[verifier::spinoff_prover]
    pub fn new(params: &CodecParameters) -> (r: Result<AacAtEncoder, Error>)
        ensures
            match params_refusal(*params) {
                Some(e) => fails_with(r, e),
                None => r is Ok && r->Ok_0.is_made(*params),
            },
    {
        let profile = AacProfile::parse(get_option(&params.options, "profile"));
        let rate: u32 = params.requested_rate();
        let channels: u16 = params.requested_channels();
        let default_bit_rate: u32 = match profile {
            AacProfile::Lc | AacProfile::Ld | AacProfile::Eld => DEFAULT_BITRATE_BPS,
            AacProfile::He => 64_000,
            AacProfile::HeV2 => 32_000,
        };
        let bit_rate: u32 = match params.bit_rate {
            Some(n) => (n % 0x1_0000_0000) as u32,
            None => default_bit_rate,
        };
        if profile == AacProfile::HeV2 && channels != 2 {
            return Err(
                Error::Unsupported(
                    numbered(
                        "AacAtEncoder: HE-AAC v2 requires stereo (got ",
                        channels as u64,
                        " channels)",
                    ),
                ),
            );
        }
        let sf_index: u8 = match sample_rate_index(rate) {
            Some(i) => i,
            None => {
                return Err(
                    Error::Unsupported(
                        ending_in("AacAtEncoder: unsupported sample rate ", rate as u64),
                    ),
                );
            },
        };
        assert(SAMPLE_RATES@.contains(rate));
        let channel_config: u8 = match channels {
            1..=6 => channels as u8,
            8 => 7,
            _ => {
                return Err(
                    Error::Unsupported(
                        ending_in("AacAtEncoder: unsupported channel count ", channels as u64),
                    ),
                );
            },
        };
        let n: u32 = channels as u32;
        assert(1 <= n <= 8);
        let format = params.requested_format(SampleFormat::F32);
        let source = match format {
            SampleFormat::F32 => AudioStreamBasicDescription::pcm_float32(rate, n),
            SampleFormat::S16 => AudioStreamBasicDescription::pcm_s16(rate, n),
            _ => {
                return Err(Error::unsupported("AacAtEncoder: only F32 and S16 input supported"));
            },
        };
        let destination = match profile {
            AacProfile::Lc => AudioStreamBasicDescription::mpeg4_aac(rate, n),
            AacProfile::He => AudioStreamBasicDescription::mpeg4_aac_he(rate, n),
            AacProfile::HeV2 => AudioStreamBasicDescription::mpeg4_aac_he_v2(rate, n),
            AacProfile::Ld => AudioStreamBasicDescription::mpeg4_aac_ld(rate, n),
            AacProfile::Eld => AudioStreamBasicDescription::mpeg4_aac_eld(rate, n),
        };
        let setup = ConverterSetup {
            source,
            destination,
            cookie: Vec::new(),
            create_op: join3("AudioConverterNew (encoder, profile=", profile.name(), ")"),
            cookie_op: "",
        };
        assert(setup@ =~= aac_setup(profile, rate, channels, format));
        let mut out_params = CodecParameters::audio(params.codec_id.as_str());
        out_params.sample_rate = Some(rate);
        out_params.channels = Some(channels);
        out_params.bit_rate = Some(bit_rate as u64);
        match profile {
            AacProfile::Lc => {},
            AacProfile::He => set_option(&mut out_params.options, "profile", "he"),
            AacProfile::HeV2 => set_option(&mut out_params.options, "profile", "he-v2"),
            AacProfile::Ld => set_option(&mut out_params.options, "profile", "ld"),
            AacProfile::Eld => set_option(&mut out_params.options, "profile", "eld"),
        }
        let size: u32 = format.bytes_per_sample() as u32 * n;
        let session = AacSession {
            profile,
            channels,
            sf_index,
            channel_config,
            max_packet_bytes: MAX_PACKET_BYTES,
            staging: PcmContext { queue: Vec::new(), read_pos: 0, bytes_per_frame: size },
            phase: AacPhase::Idle,
            sink: PacketSink::new(TimeBase::per_sample(rate)),
        };
        let encoder = AacAtEncoder {
            codec_id: params.codec_id.clone(),
            bit_rate,
            setup,
            session,
            out_params,
        };
        assert(encoder.session@.staged =~= Seq::<u8>::empty());
        Ok(encoder)
    }

    /// Publish the bit rate that the converter settled on. Where it did not tell it, or
    /// told 0, the one that was asked for stands.
    pub fn bit_rate_answered(&mut self, bit_rate: Option<u32>)
        ensures
            final(self).codec_id == old(self).codec_id,
            final(self).bit_rate == old(self).bit_rate,
            final(self).setup == old(self).setup,
            final(self).session == old(self).session,
            final(self).out_params@ == (ParamsView {
                bit_rate: match bit_rate {
                    Some(n) if n != 0 => Some(n as u64),
                    _ => Some(old(self).bit_rate as u64),
                },
                ..old(self).out_params@
            }),
    {
        let actual: u32 = match bit_rate {
            Some(n) => if n != 0 {
                n
            } else {
                self.bit_rate
            },
            None => self.bit_rate,
        };
        self.out_params.bit_rate = Some(actual as u64);
    }

    /// Publish the framework's cookie, if it gave one.
    pub fn cookie_answered(&mut self, cookie: Result<Vec<u8>, Error>)
        ensures
            final(self).codec_id == old(self).codec_id,
            final(self).bit_rate == old(self).bit_rate,
            final(self).setup == old(self).setup,
            final(self).session == old(self).session,
            final(self).out_params@ == (ParamsView {
                extradata: match cookie {
                    Ok(bytes) => bytes@,
                    Err(_) => old(self).out_params@.extradata,
                },
                ..old(self).out_params@
            }),
    {
        self.out_params.publish_cookie(cookie);
    }

    /// Publish how many frames of the coded stream come before its first sample and after
    /// its last one, if the framework told it.
    pub fn prime_info_answered(&mut self, info: Result<AudioConverterPrimeInfo, AtError>)
        ensures
            final(self).codec_id == old(self).codec_id,
            final(self).bit_rate == old(self).bit_rate,
            final(self).setup == old(self).setup,
            final(self).session == old(self).session,
            final(self).out_params@ == (ParamsView {
                options: match info {
                    Ok(p) => old(self).out_params@.options.insert(
                        "priming_frames"@,
                        decimal(p.leading_frames as nat),
                    ).insert("trailing_frames"@, decimal(p.trailing_frames as nat)),
                    Err(_) => old(self).out_params@.options,
                },
                ..old(self).out_params@
            }),
    {
        if let Ok(p) = info {
            let leading = numeral(p.leading_frames as u64);
            let trailing = numeral(p.trailing_frames as u64);
            set_option(&mut self.out_params.options, "priming_frames", leading.as_str());
            set_option(&mut self.out_params.options, "trailing_frames", trailing.as_str());
        }
    }

    /// What the coded stream is.
    pub fn output_params(&self) -> (p: &CodecParameters)
        ensures
            *p == self.out_params,
    {
        &self.out_params
    }
}

/// Make an encoder.
pub fn make_encoder(params: &CodecParameters) -> (r: Result<AacAtEncoder, Error>)
    ensures
        match params_refusal(*params) {
            Some(e) => fails_with(r, e),
            None => r is Ok && r->Ok_0.is_made(*params),
        },
{
    AacAtEncoder::new(params)
}

/// A decoder that is opened with what an encoder publishes takes the encoder's profile.
pub proof fn published_profiles_are_understood(
    e: AacAtEncoder,
    params: CodecParameters,
    published: CodecParameters,
)
    requires
        e.is_made(params),
        published@ == e.out_params@,
    ensures
        requested_profile(published) == e.session.profile,
{
    reveal_strlit("he");
    reveal_strlit("he-v1");
    reveal_strlit("HE");
    reveal_strlit("he-v2");
    reveal_strlit("HEv2");
    reveal_strlit("HE-v2");
    reveal_strlit("ld");
    reveal_strlit("LD");
    reveal_strlit("aac-ld");
    reveal_strlit("eld");
    assert("he-v2"@.len() == 5 && "he-v1"@[4] == '1' && "he-v2"@[4] == '2' && "he"@.len() == 2
        && "HE"@.len() == 2);
    assert("ld"@[0] == 'l' && "he"@[0] == 'h' && "HE"@[0] == 'H' && "ld"@.len() == 2);
    assert("eld"@.len() == 3 && "LD"@.len() == 2 && "HEv2"@.len() == 4 && "HE-v2"@.len() == 5
        && "aac-ld"@.len() == 6);
    assert(published@.options == profile_options(e.session.profile));
}

/// An LC packet says in its header how long it is and what it holds, as long as its
/// length fits the 13 bits that hold it.
pub proof fn lc_packets_describe_themselves(s: AacState, raw: Seq<u8>)
    requires
        s.profile is Lc,
        s.sf_index < 13,
        s.channel_config < 8,
        raw.len() + 7 < 8192,
    ensures
        header_of(s.framed(raw)) == Some(
            AdtsHeader {
                frame_length: (raw.len() + 7) as usize,
                protection_absent: true,
                sampling_freq_index: s.sf_index,
                channel_configuration: s.channel_config,
            },
        ),
        s.framed(raw).subrange(7, raw.len() as int + 7) == raw,
{
    header_round_trips(raw.len() as int, s.sf_index, s.channel_config, 1, raw);
    assert(s.framed(raw).subrange(7, raw.len() as int + 7) =~= raw);
}

/// While the stream goes on, a round leaves the converter its look-ahead: behind the
/// packets to code, all but one of the look-ahead's packets stay staged.
pub proof fn rounds_keep_the_lookahead(s: AacState)
    requires
        s.phase is Stream,
        s.bytes_per_frame > 0,
        s.staged.len() <= usize::MAX,
        s.advanced().phase is Round,
    ensures
        ({
            let left = s.advanced().phase->Round_0;
            &&& left >= 1
            &&& s.staged.len() - left * s.packet_bytes() >= (lookahead(s.profile) - 1)
                * s.packet_bytes()
        }),
{
    let packet = s.packet_bytes();
    let ahead = lookahead(s.profile);
    let staged = s.staged.len() as int;
    assert(packet > 0) by (nonlinear_arith)
        requires
            packet == s.profile.frames() * s.bytes_per_frame,
            s.profile.frames() > 0,
            s.bytes_per_frame > 0,
    ;
    lemma_packets_staged(staged, packet, ahead);
    let q = staged / packet;
    assert(q <= staged) by (nonlinear_arith)
        requires
            q == staged / packet,
            packet > 0,
            staged >= 0,
    ;
    assert(s.advanced().phase->Round_0 == q - (ahead - 1));
    assert(staged - (q - (ahead - 1)) * packet >= (ahead - 1) * packet) by (nonlinear_arith)
        requires
            q == staged / packet,
            packet > 0,
            staged >= 0,
    ;
}

/// A flush codes whole packets and leaves nothing out: what was staged, and zeros behind
/// it that make up less than a packet.
pub proof fn flushes_code_everything(s: AacState)
    requires
        s.phase is Flush,
        s.bytes_per_frame > 0,
        s.staged.len() > 0,
        s.staged.len() + s.packet_bytes() <= usize::MAX,
    ensures
        0 <= s.padding() < s.packet_bytes(),
        s.advanced().staged == s.staged + silence(s.padding()),
        s.advanced().phase is FlushRound,
        s.advanced().phase->FlushRound_0 * s.packet_bytes() == s.advanced().staged.len(),
{
    let packet = s.packet_bytes();
    assert(packet > 0) by (nonlinear_arith)
        requires
            packet == s.profile.frames() * s.bytes_per_frame,
            s.profile.frames() > 0,
            s.bytes_per_frame > 0,
    ;
    let staged = s.staged.len() as int;
    vstd::arithmetic::div_mod::lemma_mod_bound(staged, packet);
    vstd::arithmetic::div_mod::lemma_fundamental_div_mod(staged, packet);
    let total = staged + s.padding();
    let q = if s.padding() == 0 {
        staged / packet
    } else {
        staged / packet + 1
    };
    assert(packet * q == total) by (nonlinear_arith)
        requires
            staged == packet * (staged / packet) + staged % packet,
            s.padding() == 0 ==> staged % packet == 0 && q == staged / packet && total == staged,
            s.padding() != 0 ==> q == staged / packet + 1 && total == staged + packet - staged
                % packet,
    ;
    vstd::arithmetic::div_mod::lemma_div_multiples_vanish(q, packet);
    assert(q <= total) by (nonlinear_arith)
        requires
            packet * q == total,
            packet >= 1,
            total >= 0,
    ;
    assert(q * packet == packet * q) by (nonlinear_arith);
}

/// The draining at the end of a stream comes to its end: every answer uses up one of the
/// fills that are left, and the last one, or the second in a row without a packet, ends
/// the stream.
pub proof fn draining_is_bounded(s: AacState, status: OSStatus, packets: u32, data: Seq<u8>)
    requires
        s.phase is Tail,
    ensures
        ({
            let after = s.filled(status, packets, data);
            ||| after.phase is Idle && after.sink.eof
            ||| after.phase is Tail && after.phase->left < s.phase->left
        }),
        (data.len() == 0 || packets == 0) && s.phase->streak >= 1 ==> s.filled(
            status,
            packets,
            data,
        ).sink.eof,
{
}

/// A failed fill loses no PCM: all that was staged before the round is staged still.
pub proof fn failures_lose_no_pcm(s: AacState, status: OSStatus, packets: u32, data: Seq<u8>)
    requires
        s.phase is Round || s.phase is FlushRound,
        status != NO_ERR,
    ensures
        s.filled(status, packets, data).staged == s.staged,
        s.filled(status, packets, data).taken == 0,
        s.filled(status, packets, data).sink == s.sink,
{
}

/// In a round, a successful answer with bytes and packets adds exactly one packet behind
/// those that wait, and while the converter is drained every answer with bytes and
/// packets does, whatever its status. The packet is the answer's bytes, whole and
/// unchanged; in LC an ADTS header of seven bytes precedes them. Its time is the
/// session's time, which moves on by 1024, 2048 or 512 samples.
pub proof fn answers_become_packets(s: AacState, status: OSStatus, packets: u32, data: Seq<u8>)
    requires
        (s.phase is Round || s.phase is FlushRound) && status == 0 || s.phase is Tail,
        data.len() > 0,
        packets > 0,
        0 <= s.sink.pts,
        s.sink.pts + 2048 <= i64::MAX,
    ensures
        ({
            let t = s.filled(status, packets, data);
            let packet = t.sink.pending.last();
            &&& t.sink.pending.len() == s.sink.pending.len() + 1
            &&& t.sink.pending.drop_last() == s.sink.pending
            &&& packet.pts == Some(s.sink.pts)
            &&& packet.time_base == s.sink.time_base
            &&& packet.stream_index == 0
            &&& packet.keyframe
            &&& !(s.profile is Lc) ==> packet.data == data
            &&& s.profile is Lc ==> {
                &&& packet.data.len() == data.len() + 7
                &&& packet.data.subrange(0, 7) == header_bytes(
                    data.len() as int,
                    s.sf_index,
                    s.channel_config,
                    1,
                )
                &&& packet.data.skip(7) == data
            }
            &&& t.sink.time_base == s.sink.time_base
            &&& s.profile is Lc ==> t.sink.pts == s.sink.pts + 1024
            &&& s.profile is He || s.profile is HeV2 ==> t.sink.pts == s.sink.pts + 2048
            &&& s.profile is Ld || s.profile is Eld ==> t.sink.pts == s.sink.pts + 512
        }),
{
    let t = s.filled(status, packets, data);
    assert(t.sink.pending.drop_last() =~= s.sink.pending);
    if s.profile is Lc {
        let header = header_bytes(data.len() as int, s.sf_index, s.channel_config, 1);
        assert((header + data).subrange(0, 7) =~= header);
        assert((header + data).skip(7) =~= data);
    }
}

/// A failed answer in a round, and any answer without bytes or packets, add no packet and
/// take no time.
pub proof fn other_answers_add_no_packet(
    s: AacState,
    status: OSStatus,
    packets: u32,
    data: Seq<u8>,
)
    requires
        s.phase is Round || s.phase is FlushRound || s.phase is Tail,
        data.len() == 0 || packets == 0 || status != 0 && !(s.phase is Tail),
    ensures
        s.filled(status, packets, data).sink.pending == s.sink.pending,
        s.filled(status, packets, data).sink.pts == s.sink.pts,
        s.filled(status, packets, data).sink.time_base == s.sink.time_base,
{
}

/// A round counts its packets down and is over with its last packet, or with an answer
/// that brings none: what the converter took is dropped then, and not before. The round
/// of a flush is followed by 16 fills for what the converter holds; any other by nothing.
/// A failure ends the round and gives all PCM back.
pub proof fn rounds_count_their_packets(
    s: AacState,
    left: usize,
    status: OSStatus,
    packets: u32,
    data: Seq<u8>,
)
    requires
        s.phase == AacPhase::Round(left) || s.phase == AacPhase::FlushRound(left),
        0 <= s.taken <= s.staged.len(),
    ensures
        ({
            let t = s.filled(status, packets, data);
            let goes_on = status == 0 && data.len() > 0 && packets > 0 && left > 1;
            &&& status != 0 ==> t.phase is Idle && t.staged == s.staged && t.taken == 0
            &&& goes_on ==> t.staged == s.staged && t.taken == s.taken
            &&& goes_on && s.phase is Round ==> t.phase is Round && t.phase->Round_0 + 1 == left
            &&& goes_on && s.phase is FlushRound ==> t.phase is FlushRound
                && t.phase->FlushRound_0 + 1 == left
            &&& status == 0 && !goes_on ==> {
                &&& t.staged == s.staged.skip(s.taken)
                &&& t.taken == 0
                &&& s.phase is Round ==> t.phase is Idle
                &&& s.phase is FlushRound ==> t.phase == (AacPhase::Tail { left: 16, streak: 0 })
            }
            &&& t.sink.eof == s.sink.eof
        }),
{
    let t = s.filled(status, packets, data);
    assert(s.staged.skip(s.taken) =~= s.staged.subrange(s.taken, s.staged.len() as int));
}

/// The draining of the converter ends with its last fill, or with the second answer in a
/// row that brings no packet; the stream is over then, and not before. What is staged
/// does not change.
pub proof fn draining_counts_its_fills(
    s: AacState,
    left: u32,
    streak: u32,
    status: OSStatus,
    packets: u32,
    data: Seq<u8>,
)
    requires
        s.phase == (AacPhase::Tail { left, streak }),
    ensures
        ({
            let t = s.filled(status, packets, data);
            let dry = data.len() == 0 || packets == 0;
            let ends = left <= 1 || dry && streak >= 1;
            &&& ends ==> t.phase is Idle && t.sink.eof
            &&& !ends ==> t.phase is Tail && t.phase->left + 1 == left && t.sink.eof == s.sink.eof
            &&& !ends && dry ==> t.phase->streak == 1
            &&& !ends && !dry ==> t.phase->streak == 0
            &&& t.staged == s.staged
            &&& t.taken == s.taken
        }),
{
}

/// No answer changes what a session is made for, and one that nobody asked for changes
/// nothing.
pub proof fn answers_keep_the_stream(s: AacState, status: OSStatus, packets: u32, data: Seq<u8>)
    ensures
        ({
            let t = s.filled(status, packets, data);
            &&& t.profile == s.profile
            &&& t.channels == s.channels
            &&& t.sf_index == s.sf_index
            &&& t.channel_config == s.channel_config
            &&& t.max_packet_bytes == s.max_packet_bytes
            &&& t.bytes_per_frame == s.bytes_per_frame
            &&& s.phase is Idle || s.phase is Stream || s.phase is Flush ==> t == s
        }),
        s.is_filling() <==> s.phase is Round || s.phase is FlushRound || s.phase is Tail,
{
}

/// While the stream goes on, a round begins exactly when as many packets' worth of PCM
/// are staged as the profile looks ahead: one in LC, five in HE, two in LD and ELD. It
/// codes every whole packet that leaves the look-ahead's other packets staged.
pub proof fn rounds_begin_with_the_lookahead(s: AacState)
    requires
        s.phase is Stream,
        s.bytes_per_frame > 0,
        s.staged.len() <= usize::MAX,
    ensures
        ({
            let t = s.advanced();
            let frames = match s.profile {
                AacProfile::Lc => 1024int,
                AacProfile::He | AacProfile::HeV2 => 2048,
                AacProfile::Ld | AacProfile::Eld => 512,
            };
            let ahead = match s.profile {
                AacProfile::Lc => 1int,
                AacProfile::He | AacProfile::HeV2 => 5,
                AacProfile::Ld | AacProfile::Eld => 2,
            };
            let packet = frames * s.bytes_per_frame;
            &&& s.packet_bytes() == packet
            &&& lookahead(s.profile) == ahead
            &&& t.phase is Round <==> s.staged.len() >= ahead * packet
            &&& t.phase is Round || t.phase is Idle
            &&& t.phase is Round ==> {
                let left = t.phase->Round_0 as int;
                &&& (left + ahead - 1) * packet <= s.staged.len()
                &&& s.staged.len() < (left + ahead) * packet
            }
            &&& t == (AacState { phase: t.phase, ..s })
        }),
{
    let packet = s.packet_bytes();
    let ahead = lookahead(s.profile);
    let staged = s.staged.len() as int;
    assert(packet > 0) by (nonlinear_arith)
        requires
            packet == s.profile.frames() * s.bytes_per_frame,
            s.profile.frames() > 0,
            s.bytes_per_frame > 0,
    ;
    assert(packet * ahead == ahead * packet) by (nonlinear_arith);
    if staged >= packet * ahead {
        lemma_packets_staged(staged, packet, ahead);
        let q = staged / packet;
        vstd::arithmetic::div_mod::lemma_fundamental_div_mod(staged, packet);
        assert(q <= staged && q * packet <= staged < (q + 1) * packet) by (nonlinear_arith)
            requires
                staged == packet * q + staged % packet,
                0 <= staged % packet < packet,
                packet > 0,
                q >= 0,
        ;
        let left = s.advanced().phase->Round_0 as int;
        assert(left == q - (ahead - 1));
    }
}

/// A flush with nothing staged goes on to the 16 fills for what the converter holds. Any
/// other codes all that is staged in whole packets, with zeros behind it that make up
/// less than a packet.
pub proof fn flushes_fill_the_last_packet(s: AacState)
    requires
        s.phase is Flush,
        s.bytes_per_frame > 0,
        s.staged.len() + s.packet_bytes() <= usize::MAX,
    ensures
        ({
            let t = s.advanced();
            let n = s.staged.len() as int;
            &&& n == 0 ==> t == (AacState { phase: AacPhase::Tail { left: 16, streak: 0 }, ..s })
            &&& n > 0 ==> {
                &&& t.phase is FlushRound
                &&& t.phase->FlushRound_0 * s.packet_bytes() == t.staged.len()
                &&& n <= t.staged.len() < n + s.packet_bytes()
                &&& t.staged.subrange(0, n) == s.staged
                &&& forall|i: int| n <= i < t.staged.len() ==> #[trigger] t.staged[i] == 0
                &&& t == (AacState { phase: t.phase, staged: t.staged, ..s })
            }
        }),
{
    if s.staged.len() > 0 {
        flushes_code_everything(s);
        assert(s.advanced().staged.subrange(0, s.staged.len() as int) =~= s.staged);
    }
}

/// Outside of a stream's rounds, asking for the next fill changes nothing.
pub proof fn fills_under_way_go_on(s: AacState)
    requires
        !(s.phase is Stream || s.phase is Flush),
    ensures
        s.advanced() == s,
{
}

/// In a round the converter gets the samples that it asks for, or all where it names no
/// number, as far as they are there in whole; at any other time it gets none. They come
/// from behind those that it has taken, and are only marked as taken.
pub proof fn rounds_hand_over_what_is_asked_for(s: AacState, requested: u32)
    requires
        s.bytes_per_frame > 0,
        0 <= s.taken <= s.staged.len(),
    ensures
        ({
            let given = s.given(requested);
            let rest = s.staged.len() - s.taken;
            let size = s.bytes_per_frame as int;
            let t = s.supplied(requested);
            &&& s.given_bytes(requested) == given * size
            &&& 0 <= given * size <= rest
            &&& s.phase is Round || s.phase is FlushRound ==> {
                &&& requested > 0 ==> given <= requested && (given == requested || rest < (given
                    + 1) * size)
                &&& requested == 0 ==> rest < (given + 1) * size || given == u32::MAX
            }
            &&& !(s.phase is Round || s.phase is FlushRound) ==> given == 0
            &&& t.taken == s.taken + given * size
            &&& t == (AacState { taken: t.taken, ..s })
        }),
{
    let rest = s.staged.len() - s.taken;
    crate::feed::as_much_is_given_as_is_there(
        rest,
        s.bytes_per_frame as int,
        if requested == 0 {
            u32::MAX
        } else {
            requested
        },
    );
    let given = s.given(requested);
    assert(given * s.bytes_per_frame >= 0) by (nonlinear_arith)
        requires
            given >= 0,
            s.bytes_per_frame > 0,
    ;
    assert(given == 0 ==> given * s.bytes_per_frame == 0) by (nonlinear_arith);
}

/// PCM is staged behind what waits already and starts draining; a packet that is taken
/// leaves those behind it in their order. Nothing else changes.
pub proof fn steps_touch_only_their_own(s: AacState, pcm: Seq<u8>)
    ensures
        ({
            let t = s.extended(pcm);
            &&& t.staged.len() == s.staged.len() + pcm.len()
            &&& t.staged.subrange(0, s.staged.len() as int) == s.staged
            &&& t.staged.skip(s.staged.len() as int) == pcm
            &&& t.phase is Stream
            &&& t == (AacState { staged: t.staged, phase: t.phase, ..s })
        }),
        s.sink.pending.len() > 0 ==> {
            let t = s.received();
            &&& t.sink.pending.len() == s.sink.pending.len() - 1
            &&& forall|i: int|
                0 <= i < t.sink.pending.len() ==> #[trigger] t.sink.pending[i]
                    == s.sink.pending[i + 1]
            &&& t.sink.pts == s.sink.pts && t.sink.time_base == s.sink.time_base && t.sink.eof
                == s.sink.eof
            &&& t == (AacState { sink: t.sink, ..s })
        },
{
    assert(s.extended(pcm).staged.subrange(0, s.staged.len() as int) =~= s.staged);
    assert(s.extended(pcm).staged.skip(s.staged.len() as int) =~= pcm);
}

/// The state of a session shows every field of it.
pub proof fn states_show_their_sessions(s: AacSession)
    ensures
        s@.profile == s.profile,
        s@.channels == s.channels,
        s@.sf_index == s.sf_index,
        s@.channel_config == s.channel_config,
        s@.max_packet_bytes == s.max_packet_bytes,
        s@.staged == s.staging.queue@,
        s@.taken == s.staging.read_pos,
        s@.bytes_per_frame == s.staging.bytes_per_frame,
        s@.phase == s.phase,
        s@.sink == s.sink@,
{
}

/// Each profile but LC is named in three ways; every other option, and none, means LC.
pub proof fn profiles_are_named(s: Seq<char>)
    ensures
        profile_of(None) is Lc,
        s == "he"@ || s == "he-v1"@ || s == "HE"@ <==> profile_of(Some(s)) is He,
        s == "he-v2"@ || s == "HEv2"@ || s == "HE-v2"@ <==> profile_of(Some(s)) is HeV2,
        s == "ld"@ || s == "LD"@ || s == "aac-ld"@ <==> profile_of(Some(s)) is Ld,
        s == "eld"@ || s == "ELD"@ || s == "aac-eld"@ <==> profile_of(Some(s)) is Eld,
{
    reveal_strlit("he");
    reveal_strlit("he-v1");
    reveal_strlit("HE");
    reveal_strlit("he-v2");
    reveal_strlit("HEv2");
    reveal_strlit("HE-v2");
    reveal_strlit("ld");
    reveal_strlit("LD");
    reveal_strlit("aac-ld");
    reveal_strlit("eld");
    reveal_strlit("ELD");
    reveal_strlit("aac-eld");
    assert("he"@.len() == 2 && "HE"@.len() == 2 && "ld"@.len() == 2 && "LD"@.len() == 2);
    assert("eld"@.len() == 3 && "ELD"@.len() == 3 && "HEv2"@.len() == 4);
    assert("he-v1"@.len() == 5 && "he-v2"@.len() == 5 && "HE-v2"@.len() == 5);
    assert("aac-ld"@.len() == 6 && "aac-eld"@.len() == 7);
    assert("he-v1"@[4] == '1' && "he-v2"@[4] == '2' && "HE-v2"@[4] == '2');
    assert("ld"@[0] == 'l' && "LD"@[0] == 'L' && "he"@[0] == 'h' && "HE"@[0] == 'H');
}

/// A packet has 1024 samples in LC, twice as many in the profiles with band replication
/// and half as many in those of low delay; only band replication doubles the rate. The
/// formats are those that the framework names for the profiles.
pub proof fn profiles_have_their_packets(profile: AacProfile)
    ensures
        profile is Lc ==> profile.frames() == 1024,
        profile is He || profile is HeV2 ==> profile.frames() == 2 * 1024,
        profile is Ld || profile is Eld ==> profile.frames() * 2 == 1024,
        profile.doubles_rate() <==> profile is He || profile is HeV2,
        profile is Lc ==> format_id(profile) == 0x61616320 && profile.label() == "Lc"@,
        profile is He ==> format_id(profile) == 0x61616368 && profile.label() == "He"@,
        profile is HeV2 ==> format_id(profile) == 0x61616370 && profile.label() == "HeV2"@,
        profile is Ld ==> format_id(profile) == 0x6161636C && profile.label() == "Ld"@,
        profile is Eld ==> format_id(profile) == 0x61616365 && profile.label() == "Eld"@,
{
}

/// The bit rate that is asked for is the given one as far as 32 bits hold it. Without
/// one it is 128 kbit/s; half of that in HE and a quarter in HE v2.
pub proof fn bit_rates_are_taken(params: CodecParameters)
    ensures
        params.bit_rate matches Some(n) ==> {
            &&& n <= u32::MAX ==> requested_bit_rate(params) == n
            &&& (n - requested_bit_rate(params)) % 0x1_0000_0000 == 0
        },
        params.bit_rate is None ==> match requested_profile(params) {
            AacProfile::He => requested_bit_rate(params) * 2 == 128_000,
            AacProfile::HeV2 => requested_bit_rate(params) * 4 == 128_000,
            _ => requested_bit_rate(params) == 128_000,
        },
        requested_profile(params) == profile_of(option_value(params.options, "profile"@)),
{
}

/// A stream is taken exactly if its rate has an index, its channels have a configuration,
/// HE v2 is stereo, and its samples are floats or of 16 bits. The reasons are told in the
/// order of profile, rate, channels and format.
pub proof fn only_some_streams_are_taken(params: CodecParameters)
    ensures
        ({
            let r = params_refusal(params);
            let rate = match params.sample_rate {
                Some(n) => n,
                None => 48_000,
            };
            let channels = match params.channels {
                Some(n) => n,
                None => 2,
            };
            let profile_fits = profile_of(option_value(params.options, "profile"@)) is HeV2
                ==> channels == 2;
            let rate_fits = SAMPLE_RATES@.contains(rate);
            let channels_fit = 1 <= channels <= 6 || channels == 8;
            let format_fits = params.sample_format is None || params.sample_format->0 is S16
                || params.sample_format->0 is F32;
            &&& r is None <==> profile_fits && rate_fits && channels_fit && format_fits
            &&& !profile_fits ==> r == Some(
                ErrorView::Unsupported(
                    "AacAtEncoder: HE-AAC v2 requires stereo (got "@ + decimal(channels as nat)
                        + " channels)"@,
                ),
            )
            &&& profile_fits && !rate_fits ==> r == Some(
                ErrorView::Unsupported(
                    "AacAtEncoder: unsupported sample rate "@ + decimal(rate as nat),
                ),
            )
            &&& profile_fits && rate_fits && !channels_fit ==> r == Some(
                ErrorView::Unsupported(
                    "AacAtEncoder: unsupported channel count "@ + decimal(channels as nat),
                ),
            )
            &&& profile_fits && rate_fits && channels_fit && !format_fits ==> r == Some(
                ErrorView::Unsupported("AacAtEncoder: only F32 and S16 input supported"@),
            )
        }),
{
}

/// One to six channels are their own configuration, and eight channels have the seventh.
pub proof fn channels_have_their_configuration(channels: u16)
    ensures
        1 <= channels <= 6 ==> config_of_channels(channels) is Some && config_of_channels(
            channels,
        )->0 == channels,
        channels == 8 ==> config_of_channels(channels) == Some(7u8),
        channels == 0 || channels == 7 || channels > 8 ==> config_of_channels(channels) is None,
{
}

/// What an encoder is made with: PCM of the format that is asked for in, floats where
/// none is, and packets of the profile out, with the rate's index and the channels'
/// configuration for their headers.
pub proof fn encoders_are_made_for_their_stream(e: AacAtEncoder, params: CodecParameters)
    requires
        e.is_made(params),
        params_refusal(params) is None,
    ensures
        ({
            let rate = rate_of(params);
            let channels = channels_of(params) as u32;
            let profile = profile_of(option_value(params.options, "profile"@));
            let short = params.sample_format == Some(SampleFormat::S16);
            &&& e.codec_id@ == params.codec_id@
            &&& e.bit_rate == requested_bit_rate(params)
            &&& short ==> e.session.staging.bytes_per_frame == 2 * channels && e.setup.source
                == s16_format(rate, channels)
            &&& !short ==> e.session.staging.bytes_per_frame == 4 * channels && e.setup.source
                == float32_format(rate, channels)
            &&& e.setup.destination == compressed_format(
                rate,
                format_id(profile),
                0,
                0,
                profile.frames(),
                channels,
            )
            &&& e.setup.create_op@ == "AudioConverterNew (encoder, profile="@ + profile.label()
                + ")"@
            &&& e.session.profile == profile
            &&& e.session.channels == channels
            &&& SAMPLE_RATES@[e.session.sf_index as int] == rate
            &&& channels <= 6 ==> e.session.channel_config == channels
            &&& channels == 8 ==> e.session.channel_config == 7
        }),
        e.setup.cookie@.len() == 0,
        e.setup.cookie_op@ == ""@,
        e.session.sf_index < 13,
        e.session.max_packet_bytes == 8192,
        e.session.staging.queue@.len() == 0,
        e.session.staging.read_pos == 0,
        e.session.phase is Idle,
        e.session.sink.pending@.len() == 0,
        e.session.sink.pts == 0,
        !e.session.sink.eof,
        e.session.sink.time_base.num == 1,
        e.session.sink.time_base.den == rate_of(params),
        e.session.is_sound(),
{
    states_show_their_sessions(e.session);
    crate::feed::states_show_their_sinks(e.session.sink, 0);
    let view = e.setup@;
    assert(view.cookie.len() == 0);
    let state = e.session@;
    assert(state.staged.len() == 0);
}

/// What an encoder publishes of its stream: its rate, channels and bit rate, no cookie
/// yet, and its profile as its only option, which LC does not need.
pub proof fn encoders_publish_their_stream(e: AacAtEncoder, params: CodecParameters, key: Seq<char>)
    requires
        e.is_made(params),
        params_refusal(params) is None,
    ensures
        ({
            let p = e.out_params;
            let named = option_value(p.options, "profile"@);
            &&& p.codec_id@ == params.codec_id@
            &&& p.sample_rate == Some(rate_of(params))
            &&& p.channels == Some(channels_of(params))
            &&& p.sample_format is None
            &&& p.extradata@.len() == 0
            &&& p.bit_rate == Some(requested_bit_rate(params) as u64)
            &&& key != "profile"@ ==> option_value(p.options, key) is None
            &&& match e.session.profile {
                AacProfile::Lc => named is None,
                AacProfile::He => named == Some("he"@),
                AacProfile::HeV2 => named == Some("he-v2"@),
                AacProfile::Ld => named == Some("ld"@),
                AacProfile::Eld => named == Some("eld"@),
            }
        }),
{
    states_show_their_sessions(e.session);
    let view = e.out_params@;
    assert(view.extradata.len() == 0);
    assert(view.options == profile_options(e.session.profile));
}

} // verus!
