//! The encoding half of a session with an AudioConverter.
//!
//! PCM is staged until there is a packet's worth. While [`EncodeSession::next_fill`]
//! gives a request, the driver has the converter fill a buffer, feeds it by
//! [`EncodeSession::supply`] whenever it asks for input, and hands its answer to
//! [`EncodeSession::filled`].

use vstd::prelude::*;

use crate::error::{fails_with, Error, ErrorView};
use crate::feed::{samples_given, Packet, PacketSink, PcmContext, SinkState};
use crate::params::{given_or, sample_time_base, TimeBase};
use crate::session::{nothing_pending, plane_of, FillReply, FillRequest, Frame, Supply};
use crate::status::{status_error, status_failure};
use crate::sys::{OSStatus, NO_ERR};

verus! {

/// How much PCM is handed over when the converter asks for input.
#[derive(Clone, Copy, Debug, PartialEq, Eq, Structural)]
pub enum Demand {
    /// As many samples as it asks for, and at least one.
    AtLeastOne,
    /// As many samples as it asks for, or all where it names no number.
    AllUnlessNamed,
    /// All of them, whatever it asks for.
    All,
}

impl Demand {
    /// The samples to hand over, as far as they are there.
    pub open spec fn wanted(self, requested: u32) -> u32 {
        match self {
            Demand::AtLeastOne => if requested == 0 {
                1
            } else {
                requested
            },
            Demand::AllUnlessNamed => if requested == 0 {
                u32::MAX
            } else {
                requested
            },
            Demand::All => u32::MAX,
        }
    }

    /// The samples to hand over, as far as they are there.
    pub fn samples(self, requested: u32) -> (n: u32)
        ensures
            n == self.wanted(requested),
    {
        match self {
            Demand::AtLeastOne => if requested == 0 {
                1
            } else {
                requested
            },
            Demand::AllUnlessNamed => if requested == 0 {
                u32::MAX
            } else {
                requested
            },
            Demand::All => u32::MAX,
        }
    }
}

/// The rules of a codec's session.
#[derive(Clone, Copy, Debug)]
pub struct EncodeRules {
    /// Channels of the stream.
    pub channels: u32,
    /// Samples in a packet.
    pub frame_length: u32,
    /// Whether one packet's worth of PCM stays staged while the stream goes on, so that
    /// the converter never finds its input empty.
    pub slack: bool,
    /// Whether a fill is offered the PCM of its own packet only.
    pub isolate: bool,
    /// Whether the last packet is filled up with zeros.
    pub pad_tail: bool,
    /// How much PCM is handed over at once.
    pub demand: Demand,
    /// Whether an answer that counts no packets brings none, whatever its size.
    pub counted: bool,
    /// Bytes that a packet always gets.
    pub least_packet_bytes: u32,
    /// The call that a failed fill is reported as.
    pub op: &'static str,
    /// The message for a frame that is not audio.
    pub refusal: &'static str,
}

/// How far the draining of an encoder has come.
#[derive(Clone, Copy, Debug, PartialEq, Eq, Structural)]
pub enum Phase {
    /// Nothing to drain until more PCM comes.
    Idle,
    /// PCM came in: fill while there are packets and slack.
    Stream,
    /// The stream ends: fill while there are packets.
    Flush,
    /// The stream ends: the last packet is being filled.
    Last,
}

/// The encoding half of a session.
#[derive(Debug)]
pub struct EncodeSession {
    /// PCM that waits.
    pub staging: PcmContext,
    /// PCM of the packet being filled, where the codec's packets are isolated.
    pub offered: PcmContext,
    /// While a fill is under way, the samples that its packet stands for.
    pub fill: Option<u64>,
    /// How far draining has come.
    pub phase: Phase,
    /// The coded packets.
    pub sink: PacketSink,
    /// Size of the largest packet.
    pub max_packet_bytes: u32,
    /// The rules of the codec.
    pub rules: EncodeRules,
}

/// An [`EncodeSession`] as mathematics.
#[verifier::ext_equal]
pub struct EncodeState {
    pub staged: Seq<u8>,
    pub offered: Seq<u8>,
    pub bytes_per_frame: u32,
    pub fill: Option<u64>,
    pub phase: Phase,
    pub sink: SinkState,
    pub max_packet_bytes: u32,
    pub rules: EncodeRules,
}

impl View for EncodeSession {
    type V = EncodeState;

    open spec fn view(&self) -> EncodeState {
        EncodeState {
            staged: self.staging.live(),
            offered: self.offered.live(),
            bytes_per_frame: self.staging.bytes_per_frame,
            fill: self.fill,
            phase: self.phase,
            sink: self.sink@,
            max_packet_bytes: self.max_packet_bytes,
            rules: self.rules,
        }
    }
}

/// Silence of `n` bytes.
pub open spec fn silence(n: int) -> Seq<u8> {
    Seq::new(n as nat, |i: int| 0u8)
}

impl EncodeState {
    /// A fresh session.
    pub open spec fn fresh(
        rules: EncodeRules,
        bytes_per_frame: u32,
        sample_rate: u32,
        max_packet_bytes: u32,
    ) -> EncodeState {
        EncodeState {
            staged: Seq::empty(),
            offered: Seq::empty(),
            bytes_per_frame,
            fill: None,
            phase: Phase::Idle,
            sink: SinkState::fresh(sample_time_base(sample_rate)),
            max_packet_bytes,
            rules,
        }
    }

    /// PCM bytes in a packet.
    pub open spec fn packet_bytes(self) -> int {
        self.rules.frame_length * self.bytes_per_frame
    }

    /// PCM bytes that must be staged before a packet is filled while the stream goes on.
    pub open spec fn threshold(self) -> int {
        if self.rules.slack {
            self.packet_bytes() + self.packet_bytes()
        } else {
            self.packet_bytes()
        }
    }

    /// PCM came in.
    pub open spec fn extended(self, pcm: Seq<u8>) -> EncodeState {
        EncodeState { staged: self.staged + pcm, phase: Phase::Stream, ..self }
    }

    /// The stream is about to end.
    pub open spec fn flushing(self) -> EncodeState {
        EncodeState { phase: Phase::Flush, ..self }
    }

    /// The stream was ended.
    pub open spec fn ended(self) -> EncodeState {
        EncodeState { phase: Phase::Idle, sink: self.sink.ended(), ..self }
    }

    /// A fill of the first `n` bytes, which stand for `samples` samples, is under way.
    pub open spec fn begun(self, n: int, samples: int) -> EncodeState {
        if self.rules.isolate {
            EncodeState {
                staged: self.staged.subrange(n, self.staged.len() as int),
                offered: self.staged.subrange(0, n),
                fill: Some(samples as u64),
                ..self
            }
        } else {
            EncodeState { fill: Some(samples as u64), ..self }
        }
    }

    /// The session with its tail filled up with zeros, where the codec wants that.
    pub open spec fn padded(self) -> EncodeState {
        if self.rules.pad_tail {
            EncodeState {
                staged: self.staged + silence(self.packet_bytes() - self.staged.len()),
                ..self
            }
        } else {
            self
        }
    }

    /// The fill of the tail is under way: less than a packet was staged. A tail of
    /// less than a sample is dropped where packets are isolated.
    pub open spec fn tail_begun(self) -> EncodeState {
        let p = EncodeState { phase: Phase::Last, ..self }.padded();
        if !p.rules.isolate {
            p.begun(0, p.rules.frame_length as int)
        } else if p.staged.len() < p.bytes_per_frame {
            EncodeState { staged: Seq::empty(), ..p }.ended()
        } else {
            p.begun(p.staged.len() as int, p.staged.len() as int / p.bytes_per_frame as int)
        }
    }

    /// The session before its next fill: draining has gone on as far as it can without
    /// one.
    pub open spec fn advanced(self) -> EncodeState {
        if self.fill is Some {
            self
        } else {
            match self.phase {
                Phase::Idle => self,
                Phase::Stream => if self.staged.len() >= self.threshold() {
                    self.begun(self.packet_bytes(), self.rules.frame_length as int)
                } else {
                    EncodeState { phase: Phase::Idle, ..self }
                },
                Phase::Flush => if self.staged.len() >= self.packet_bytes() {
                    self.begun(self.packet_bytes(), self.rules.frame_length as int)
                } else if self.staged.len() > 0 {
                    self.tail_begun()
                } else {
                    self.ended()
                },
                Phase::Last => self.ended(),
            }
        }
    }

    /// The PCM that the converter is offered.
    pub open spec fn source(self) -> Seq<u8> {
        if self.rules.isolate {
            self.offered
        } else {
            self.staged
        }
    }

    /// The samples that a converter gets that asks for `requested`.
    pub open spec fn given(self, requested: u32) -> int {
        samples_given(
            self.source().len() as int,
            self.bytes_per_frame as int,
            self.rules.demand.wanted(requested),
        )
    }

    /// The bytes that a converter gets that asks for `requested` samples.
    pub open spec fn given_bytes(self, requested: u32) -> int {
        self.given(requested) * self.bytes_per_frame
    }

    /// That PCM went to the converter.
    pub open spec fn supplied(self, requested: u32) -> EncodeState {
        let rest = self.source().subrange(
            self.given_bytes(requested),
            self.source().len() as int,
        );
        if self.rules.isolate {
            EncodeState { offered: rest, ..self }
        } else {
            EncodeState { staged: rest, ..self }
        }
    }

    /// The answer brought no packet.
    pub open spec fn is_dry(self, data: Seq<u8>, packets: u32) -> bool {
        data.len() == 0 || self.rules.counted && packets == 0
    }

    /// The session after an answer: a failure stops draining; an answer with a packet
    /// adds it and moves the time on.
    pub open spec fn filled(self, status: OSStatus, packets: u32, data: Seq<u8>) -> EncodeState {
        let done = EncodeState { offered: Seq::empty(), fill: None, ..self };
        if status != NO_ERR {
            EncodeState { phase: Phase::Idle, ..done }
        } else {
            let next = if self.is_dry(data, packets) {
                done
            } else {
                EncodeState { sink: self.sink.emitted(data, self.fill->0 as int), ..done }
            };
            if self.phase is Last {
                next.ended()
            } else {
                next
            }
        }
    }

    /// The framework was asked for the size of the largest packet, and may have said it.
    pub open spec fn bounded(self, size: Option<u32>) -> EncodeState {
        let n = given_or(size, self.max_packet_bytes);
        EncodeState {
            max_packet_bytes: if n < self.rules.least_packet_bytes {
                self.rules.least_packet_bytes
            } else {
                n
            },
            ..self
        }
    }

    /// The first pending packet went to the caller.
    pub open spec fn received(self) -> EncodeState {
        EncodeState { sink: self.sink.received(), ..self }
    }
}

impl EncodeSession {
    /// The two queues are sound and hold the same kind of sample, two packets of PCM
    /// have a size that fits 32 bits, and time began at 0.
    pub open spec fn is_sound(self) -> bool {
        &&& self.staging.is_sound()
        &&& self.offered.is_sound()
        &&& self.offered.bytes_per_frame == self.staging.bytes_per_frame
        &&& self.rules.frame_length > 0
        &&& self.sink.pts >= 0
        &&& self@.packet_bytes() + self@.packet_bytes() <= u32::MAX
    }

    /// A fresh session.
    pub fn new(
        rules: EncodeRules,
        bytes_per_frame: u32,
        sample_rate: u32,
        max_packet_bytes: u32,
    ) -> (s: EncodeSession)
        requires
            bytes_per_frame > 0,
            rules.frame_length > 0,
            rules.frame_length * bytes_per_frame * 2 <= u32::MAX,
        ensures
            s.is_sound(),
            s@ == EncodeState::fresh(rules, bytes_per_frame, sample_rate, max_packet_bytes),
    {
        let s = EncodeSession {
            staging: PcmContext::new(bytes_per_frame),
            offered: PcmContext::new(bytes_per_frame),
            fill: None,
            phase: Phase::Idle,
            sink: PacketSink::new(TimeBase::per_sample(sample_rate)),
            max_packet_bytes,
            rules,
        };
        assert(s@ =~= EncodeState::fresh(rules, bytes_per_frame, sample_rate, max_packet_bytes));
        s
    }

    /// Take the framework's word for the size of the largest packet, if it gave it.
    pub fn max_packet_size_answered(&mut self, size: Option<u32>)
        requires
            old(self).is_sound(),
        ensures
            final(self).is_sound(),
            final(self)@ == old(self)@.bounded(size),
    {
        let n: u32 = match size {
            Some(n) => n,
            None => self.max_packet_bytes,
        };
        self.max_packet_bytes = if n < self.rules.least_packet_bytes {
            self.rules.least_packet_bytes
        } else {
            n
        };
        assert(self@ =~= old(self)@.bounded(size));
    }

    /// Stage the PCM of a frame and begin to drain. A frame without PCM is ignored.
    pub fn send_frame(&mut self, frame: &Frame) -> (r: Result<(), Error>)
        requires
            old(self).is_sound(),
        ensures
            final(self).is_sound(),
            old(self).sink.eof ==> fails_with(r, ErrorView::Eof) && *final(self) == *old(self),
            !old(self).sink.eof ==> match *frame {
                Frame::Other => {
                    &&& fails_with(r, ErrorView::Unsupported(old(self).rules.refusal@))
                    &&& *final(self) == *old(self)
                },
                Frame::Audio(audio) => r is Ok && if plane_of(audio@).len() == 0 {
                    *final(self) == *old(self)
                } else {
                    final(self)@ == old(self)@.extended(plane_of(audio@))
                },
            },
    {
        if self.sink.eof {
            return Err(Error::Eof);
        }
        match frame {
            Frame::Other => Err(Error::unsupported(self.rules.refusal)),
            Frame::Audio(audio) => {
                if audio.data.len() == 0 || audio.data[0].len() == 0 {
                    return Ok(());
                }
                self.staging.extend(audio.data[0].as_slice());
                self.phase = Phase::Stream;
                assert(self@ =~= old(self)@.extended(plane_of(audio@)));
                Ok(())
            },
        }
    }

    /// Begin to drain everything, at the end of the stream.
    pub fn flush(&mut self)
        requires
            old(self).is_sound(),
        ensures
            final(self).is_sound(),
            final(self)@ == old(self)@.flushing(),
    {
        self.phase = Phase::Flush;
    }

    fn begin(&mut self, n: usize, samples: u64)
        requires
            old(self).is_sound(),
            n <= old(self)@.staged.len(),
        ensures
            final(self).is_sound(),
            final(self)@ == old(self)@.begun(n as int, samples as int),
    {
        if self.rules.isolate {
            let data = self.staging.take_bytes(n);
            self.offered =
            PcmContext { queue: data, read_pos: 0, bytes_per_frame: self.staging.bytes_per_frame };
            assert(self.offered.live() =~= data@);
        }
        self.fill = Some(samples);
        assert(self@ =~= old(self)@.begun(n as int, samples as int));
    }

    fn end(&mut self)
        requires
            old(self).is_sound(),
        ensures
            final(self).is_sound(),
            final(self)@ == old(self)@.ended(),
    {
        self.phase = Phase::Idle;
        self.sink.eof = true;
        assert(self@ =~= old(self)@.ended());
    }

    fn begin_tail(&mut self, packet_bytes: usize)
        requires
            old(self).is_sound(),
            packet_bytes == old(self)@.packet_bytes(),
            old(self)@.staged.len() < packet_bytes,
        ensures
            final(self).is_sound(),
            final(self)@ == old(self)@.tail_begun(),
    {
        self.phase = Phase::Last;
        if self.rules.pad_tail {
            self.staging.pad_to(packet_bytes);
        }
        let ghost padded = self@;
        assert(padded =~= EncodeState { phase: Phase::Last, ..old(self)@ }.padded());
        if !self.rules.isolate {
            let samples: u64 = self.rules.frame_length as u64;
            self.begin(0, samples);
            return;
        }
        let staged: usize = self.staging.remaining();
        let size: usize = self.staging.bytes_per_frame as usize;
        if staged < size {
            let dropped = self.staging.take_bytes(staged);
            assert(self@ =~= EncodeState { staged: Seq::empty(), ..padded });
            self.end();
            return;
        }
        self.begin(staged, (staged / size) as u64);
    }

    /// The next fill to make, or `None` when draining is done.
    pub fn next_fill(&mut self) -> (r: Option<FillRequest>)
        requires
            old(self).is_sound(),
        ensures
            final(self).is_sound(),
            final(self)@ == old(self)@.advanced(),
            r == if final(self)@.fill is Some {
                Some(
                    FillRequest {
                        channels: old(self).rules.channels,
                        packets: 1,
                        capacity: old(self).max_packet_bytes as u64,
                    },
                )
            } else {
                None::<FillRequest>
            },
    {
        if self.fill.is_none() {
            assert(self@.packet_bytes() == self.rules.frame_length * self.staging.bytes_per_frame);
            let packet_bytes: usize = self.rules.frame_length as usize
                * self.staging.bytes_per_frame as usize;
            let samples: u64 = self.rules.frame_length as u64;
            let staged: usize = self.staging.remaining();
            match self.phase {
                Phase::Idle => {},
                Phase::Stream => {
                    let threshold: usize = if self.rules.slack {
                        packet_bytes + packet_bytes
                    } else {
                        packet_bytes
                    };
                    if staged >= threshold {
                        self.begin(packet_bytes, samples);
                    } else {
                        self.phase = Phase::Idle;
                    }
                },
                Phase::Flush => {
                    if staged >= packet_bytes {
                        self.begin(packet_bytes, samples);
                    } else if staged > 0 {
                        self.begin_tail(packet_bytes);
                    } else {
                        self.end();
                    }
                },
                Phase::Last => {
                    self.end();
                },
            }
        }
        if self.fill.is_some() {
            Some(
                FillRequest {
                    channels: self.rules.channels,
                    packets: 1,
                    capacity: self.max_packet_bytes as u64,
                },
            )
        } else {
            None
        }
    }

    /// Hand PCM to the converter, which asks for `requested` samples.
    pub fn supply(&mut self, requested: u32) -> (s: Supply)
        requires
            old(self).is_sound(),
        ensures
            final(self).is_sound(),
            0 <= old(self)@.given_bytes(requested) <= old(self)@.source().len(),
            s.is_pcm(
                old(self)@.source().subrange(0, old(self)@.given_bytes(requested)),
                old(self)@.given(requested),
            ),
            final(self)@ == old(self)@.supplied(requested),
    {
        let wanted: u32 = self.rules.demand.samples(requested);
        if self.rules.isolate {
            let s = self.offered.supply(wanted);
            assert(self@ =~= old(self)@.supplied(requested));
            s
        } else {
            let s = self.staging.supply(wanted);
            assert(self@ =~= old(self)@.supplied(requested));
            s
        }
    }

    /// Take the converter's answer to a fill.
    pub fn filled(&mut self, reply: FillReply) -> (r: Result<(), Error>)
        requires
            old(self).is_sound(),
            old(self).fill is Some,
            reply.status == NO_ERR && !old(self)@.is_dry(reply.data@, reply.packets) ==> old(
                self,
            ).sink.pts + old(self).fill->0 <= i64::MAX,
        ensures
            final(self).is_sound(),
            final(self)@ == old(self)@.filled(reply.status, reply.packets, reply.data@),
            reply.status == NO_ERR ==> r is Ok,
            reply.status != NO_ERR ==> fails_with(
                r,
                status_failure(old(self).rules.op@, reply.status),
            ),
    {
        let samples: u64 = match self.fill {
            Some(n) => n,
            None => 0,
        };
        self.fill = None;
        self.offered = PcmContext::new(self.staging.bytes_per_frame);
        if reply.status != NO_ERR {
            self.phase = Phase::Idle;
            assert(self@ =~= old(self)@.filled(reply.status, reply.packets, reply.data@));
            return Err(status_error(self.rules.op, reply.status));
        }
        if reply.data.len() > 0 && (!self.rules.counted || reply.packets > 0) {
            self.sink.emit(reply.data, samples);
        }
        if self.phase == Phase::Last {
            self.end();
        }
        assert(self@ =~= old(self)@.filled(reply.status, reply.packets, reply.data@));
        Ok(())
    }

    /// Take the first pending packet. Without one, the end of the stream or a need for
    /// more input is reported.
    pub fn receive_packet(&mut self) -> (r: Result<Packet, Error>)
        requires
            old(self).is_sound(),
        ensures
            final(self).is_sound(),
            old(self)@.sink.pending.len() > 0 ==> {
                &&& r is Ok
                &&& r->Ok_0@ == old(self)@.sink.pending[0]
                &&& final(self)@ == old(self)@.received()
            },
            old(self)@.sink.pending.len() == 0 ==> {
                &&& fails_with(r, nothing_pending(old(self).sink.eof))
                &&& final(self)@ == old(self)@
            },
    {
        self.sink.receive_packet()
    }
}

/// While the stream goes on, a converter that asks for no more than a packet never
/// finds its input empty: a packet's worth stays staged behind every fill.
pub proof fn streaming_keeps_its_slack(s: EncodeState, requested: u32)
    requires
        s.rules.slack,
        !s.rules.isolate,
        s.rules.demand is AtLeastOne,
        s.bytes_per_frame > 0,
        1 <= requested <= s.rules.frame_length,
        s.phase is Stream,
        s.fill is None,
        s.advanced().fill is Some,
    ensures
        s.advanced().given(requested) == requested,
        s.advanced().supplied(requested).staged.len() >= s.packet_bytes(),
{
    let size = s.bytes_per_frame as int;
    let len = s.staged.len() as int;
    assert(len / size >= requested && 0 <= requested * size <= s.rules.frame_length * size)
        by (nonlinear_arith)
        requires
            size > 0,
            len >= s.rules.frame_length * size,
            1 <= requested <= s.rules.frame_length,
    ;
}

/// What the converter gets is the front of the PCM that it is offered, and the rest
/// stays: no sample is lost, doubled or reordered.
pub proof fn supplying_loses_nothing(s: EncodeState, requested: u32)
    requires
        s.bytes_per_frame > 0,
    ensures
        0 <= s.given_bytes(requested) <= s.source().len(),
        s.source().subrange(0, s.given_bytes(requested)) + s.supplied(requested).source()
            == s.source(),
{
    let size = s.bytes_per_frame as int;
    let len = s.source().len() as int;
    let given = s.given(requested);
    assert(0 <= given * size <= len) by (nonlinear_arith)
        requires
            size > 0,
            len >= 0,
            0 <= given <= len / size,
    ;
    assert(s.source().subrange(0, s.given_bytes(requested)) + s.supplied(requested).source()
        =~= s.source());
}

/// A packet is made of the PCM that came first, and what follows it stays staged. Zeros
/// come only behind the last sample.
pub proof fn packets_take_what_came_first(s: EncodeState)
    requires
        s.rules.isolate,
        s.fill is None,
        s.advanced().fill is Some,
    ensures
        s.phase is Stream || s.staged.len() >= s.packet_bytes() ==> {
            &&& s.advanced().offered + s.advanced().staged == s.staged
            &&& s.advanced().offered.len() == s.packet_bytes()
        },
        s.phase is Flush && s.staged.len() < s.packet_bytes() ==> {
            &&& s.advanced().staged.len() == 0
            &&& s.advanced().offered == if s.rules.pad_tail {
                s.staged + silence(s.packet_bytes() - s.staged.len())
            } else {
                s.staged
            }
        },
{
    assert(s.packet_bytes() >= 0) by (nonlinear_arith)
        requires
            s.packet_bytes() == s.rules.frame_length * s.bytes_per_frame,
    ;
    if s.phase is Stream || s.staged.len() >= s.packet_bytes() {
        assert(s.advanced().offered + s.advanced().staged =~= s.staged);
    } else {
        let p = s.padded().staged;
        assert(p.subrange(0, p.len() as int) =~= p);
        assert(s.advanced().offered =~= p);
    }
}

/// A flush comes to its end: every packet of an isolating codec uses up PCM, and once
/// none is left, or the last packet was filled, the stream is ended.
pub proof fn flush_ends(s: EncodeState, packets: u32, data: Seq<u8>)
    requires
        s.rules.frame_length > 0,
        s.bytes_per_frame > 0,
    ensures
        s.phase is Flush && s.fill is None && s.staged.len() == 0 ==> s.advanced() == s.ended(),
        s.phase is Flush && s.fill is None && s.rules.isolate && s.staged.len() > 0
            ==> s.advanced().staged.len() < s.staged.len(),
        s.phase is Last ==> s.filled(NO_ERR, packets, data).sink.eof,
        s.phase is Last ==> s.filled(NO_ERR, packets, data).phase is Idle,
        s.ended().sink.eof,
{
    assert(s.packet_bytes() > 0) by (nonlinear_arith)
        requires
            s.packet_bytes() == s.rules.frame_length * s.bytes_per_frame,
            s.rules.frame_length > 0,
            s.bytes_per_frame > 0,
    ;
}

/// An answer that succeeds and brings a packet adds exactly one packet behind those that
/// wait: its data is the answer's bytes, whole and unchanged, its time is the session's
/// time, and the session's time moves on by the samples that the fill stands for. Only
/// the answer to the last fill ends the stream.
pub proof fn answers_become_packets(s: EncodeState, packets: u32, data: Seq<u8>)
    requires
        data.len() > 0,
        packets > 0 || !s.rules.counted,
        s.fill is Some,
        0 <= s.sink.pts,
        s.sink.pts + s.fill->0 <= i64::MAX,
    ensures
        ({
            let t = s.filled(0, packets, data);
            let packet = t.sink.pending.last();
            &&& t.sink.pending.len() == s.sink.pending.len() + 1
            &&& t.sink.pending.drop_last() == s.sink.pending
            &&& packet.data == data
            &&& packet.pts == Some(s.sink.pts)
            &&& packet.time_base == s.sink.time_base
            &&& packet.stream_index == 0
            &&& packet.keyframe
            &&& t.sink.pts == s.sink.pts + s.fill->0
            &&& t.sink.time_base == s.sink.time_base
            &&& t.sink.eof == (s.sink.eof || s.phase is Last)
        }),
{
    assert(s.filled(0, packets, data).sink.pending.drop_last() =~= s.sink.pending);
}

/// A failed answer, and one without a packet, add no packet and take no time. An answer
/// is without a packet where it has no bytes, or where the codec counts packets and the
/// answer counts none.
pub proof fn other_answers_add_no_packet(
    s: EncodeState,
    status: OSStatus,
    packets: u32,
    data: Seq<u8>,
)
    requires
        status != 0 || data.len() == 0 || s.rules.counted && packets == 0,
    ensures
        ({
            let t = s.filled(status, packets, data);
            &&& t.sink.pending == s.sink.pending
            &&& t.sink.pts == s.sink.pts
            &&& t.sink.time_base == s.sink.time_base
            &&& t.sink.eof == (s.sink.eof || s.phase is Last && status == 0)
        }),
        s.is_dry(data, packets) <==> data.len() == 0 || s.rules.counted && packets == 0,
{
}

/// Every answer ends its fill and takes back what the fill was offered. A failure stops
/// draining, the last fill's answer too; any other answer lets draining go on. What is
/// staged stays.
pub proof fn answers_end_their_fill(s: EncodeState, status: OSStatus, packets: u32, data: Seq<u8>)
    ensures
        ({
            let t = s.filled(status, packets, data);
            &&& t.fill is None
            &&& t.offered.len() == 0
            &&& t.staged == s.staged
            &&& status != 0 || s.phase is Last ==> t.phase is Idle
            &&& status == 0 && !(s.phase is Last) ==> t.phase == s.phase
            &&& t.bytes_per_frame == s.bytes_per_frame
            &&& t.max_packet_bytes == s.max_packet_bytes
            &&& t.rules == s.rules
        }),
{
}

/// While the stream goes on, a packet is filled exactly when a packet's worth of PCM is
/// staged, or two where one must stay behind; a fill stands for a packet's samples. At
/// the end of the stream a single packet's worth is enough.
pub proof fn full_packets_are_filled(s: EncodeState)
    requires
        s.fill is None,
        s.phase is Stream || s.phase is Flush && s.staged.len() >= s.rules.frame_length
            * s.bytes_per_frame,
    ensures
        ({
            let t = s.advanced();
            let p = s.rules.frame_length * s.bytes_per_frame;
            let enough = if s.phase is Stream && s.rules.slack {
                2 * p
            } else {
                p
            };
            &&& t.fill is Some <==> s.staged.len() >= enough
            &&& t.fill is Some ==> {
                &&& t.fill->0 == s.rules.frame_length
                &&& t.phase == s.phase
                &&& s.rules.isolate ==> {
                    &&& t.offered.len() == p
                    &&& t.offered + t.staged == s.staged
                }
                &&& !s.rules.isolate ==> t.offered == s.offered && t.staged == s.staged
            }
            &&& t.fill is None ==> {
                &&& t.phase is Idle
                &&& t.offered == s.offered
                &&& t.staged == s.staged
            }
            &&& t.sink == s.sink
        }),
{
    let p = s.rules.frame_length * s.bytes_per_frame;
    assert(p >= 0) by (nonlinear_arith)
        requires
            p == s.rules.frame_length * s.bytes_per_frame,
    ;
    let t = s.advanced();
    if t.fill is Some && s.rules.isolate {
        assert(t.offered + t.staged =~= s.staged);
    }
}

/// At the end of the stream, less than a packet's worth of PCM makes the last packet.
/// Where the codec pads, zeros fill it up and it stands for a packet's samples. Where it
/// does not, and a fill is offered the PCM of its own packet only, it stands for the
/// samples that are there, and less than one sample is dropped and ends the stream; where
/// a fill may take all PCM it stands for a packet's samples.
pub proof fn tails_make_the_last_packet(s: EncodeState)
    requires
        s.fill is None,
        s.phase is Flush,
        s.rules.frame_length > 0,
        s.bytes_per_frame > 0,
        0 < s.staged.len() < s.rules.frame_length * s.bytes_per_frame,
    ensures
        ({
            let t = s.advanced();
            let p = s.rules.frame_length * s.bytes_per_frame;
            let size = s.bytes_per_frame as int;
            let source = if s.rules.isolate {
                t.offered
            } else {
                t.staged
            };
            &&& t.sink.pending == s.sink.pending
            &&& t.sink.pts == s.sink.pts
            &&& t.sink.time_base == s.sink.time_base
            &&& s.rules.isolate ==> t.staged.len() == 0
            &&& !s.rules.isolate ==> t.offered == s.offered
            &&& s.rules.pad_tail ==> {
                &&& source.len() == p
                &&& source.subrange(0, s.staged.len() as int) == s.staged
                &&& forall|i: int| s.staged.len() <= i < p ==> #[trigger] source[i] == 0
            }
            &&& s.rules.pad_tail || !s.rules.isolate ==> {
                &&& t.fill == Some(s.rules.frame_length as u64)
                &&& t.phase is Last
                &&& t.sink.eof == s.sink.eof
            }
            &&& !s.rules.pad_tail && !s.rules.isolate ==> source == s.staged
            &&& !s.rules.pad_tail && s.rules.isolate && s.staged.len() >= size ==> {
                &&& source == s.staged
                &&& t.fill is Some
                &&& t.fill->0 * size <= s.staged.len() < (t.fill->0 + 1) * size
                &&& t.phase is Last
                &&& t.sink.eof == s.sink.eof
            }
            &&& !s.rules.pad_tail && s.rules.isolate && s.staged.len() < size ==> {
                &&& t.fill is None
                &&& t.phase is Idle
                &&& t.sink.eof
            }
        }),
{
    let t = s.advanced();
    let p = s.rules.frame_length * s.bytes_per_frame;
    let size = s.bytes_per_frame as int;
    let n = s.staged.len() as int;
    let padded = s.padded().staged;
    assert(p >= size && p / size == s.rules.frame_length) by (nonlinear_arith)
        requires
            p == s.rules.frame_length * s.bytes_per_frame,
            s.rules.frame_length > 0,
            s.bytes_per_frame == size,
            size > 0,
    ;
    vstd::arithmetic::div_mod::lemma_fundamental_div_mod(n, size);
    assert(0 <= n / size <= n && n / size * size <= n < (n / size + 1) * size) by (nonlinear_arith)
        requires
            size > 0,
            n >= 0,
            n == size * (n / size) + n % size,
            0 <= n % size < size,
    ;
    assert(p <= u32::MAX * u32::MAX) by (nonlinear_arith)
        requires
            p == s.rules.frame_length * s.bytes_per_frame,
            s.rules.frame_length <= u32::MAX,
            s.bytes_per_frame <= u32::MAX,
    ;
    assert(padded.subrange(0, padded.len() as int) =~= padded);
    if s.rules.pad_tail {
        assert(padded.len() == p);
        assert(padded.subrange(0, n) =~= s.staged);
    } else {
        assert(padded =~= s.staged);
    }
}

/// Draining does nothing while it is idle or a fill is under way. A flush with nothing
/// staged ends the stream, and so does what follows the last packet.
pub proof fn draining_stops_at_the_end(s: EncodeState)
    ensures
        s.fill is Some || s.phase is Idle ==> s.advanced() == s,
        s.fill is None && (s.phase is Last || s.phase is Flush && s.staged.len() == 0
            && s.rules.frame_length > 0 && s.bytes_per_frame > 0) ==> {
            let t = s.advanced();
            &&& t.fill is None
            &&& t.phase is Idle
            &&& t.sink.eof
            &&& t.sink.pending == s.sink.pending && t.sink.pts == s.sink.pts
            &&& t.staged == s.staged
        },
        s.advanced().rules == s.rules,
        s.advanced().bytes_per_frame == s.bytes_per_frame,
        s.advanced().max_packet_bytes == s.max_packet_bytes,
{
    if s.rules.frame_length > 0 && s.bytes_per_frame > 0 {
        assert(s.rules.frame_length * s.bytes_per_frame > 0) by (nonlinear_arith)
            requires
                s.rules.frame_length > 0,
                s.bytes_per_frame > 0,
        ;
    }
}

/// How much a converter gets that asks for `requested` samples. A codec that hands over
/// at least one sample gives one where none is asked for; one that hands over all unless
/// a number is named gives all where none is; one that hands over all gives all,
/// whatever is asked for. No codec gives a part of a sample or more than is there.
pub proof fn demands_are_met(s: EncodeState, requested: u32)
    requires
        s.bytes_per_frame > 0,
    ensures
        ({
            let size = s.bytes_per_frame as int;
            let source = if s.rules.isolate {
                s.offered
            } else {
                s.staged
            };
            let given = s.given(requested);
            let all = source.len() < (given + 1) * size || given == u32::MAX;
            &&& s.source() == source
            &&& s.given_bytes(requested) == given * size
            &&& 0 <= given * size <= source.len()
            &&& s.rules.demand is All ==> all
            &&& requested == 0 && s.rules.demand is AllUnlessNamed ==> all
            &&& requested == 0 && s.rules.demand is AtLeastOne ==> given <= 1 && (given == 1
                || source.len() < size)
            &&& requested > 0 && !(s.rules.demand is All) ==> given <= requested && (given
                == requested || source.len() < (given + 1) * size)
        }),
{
    let source = s.source();
    let wanted = s.rules.demand.wanted(requested);
    crate::feed::as_much_is_given_as_is_there(
        source.len() as int,
        s.bytes_per_frame as int,
        wanted,
    );
    let given = s.given(requested);
    assert(given * s.bytes_per_frame >= 0) by (nonlinear_arith)
        requires
            given >= 0,
            s.bytes_per_frame > 0,
    ;
    assert(given == 0 ==> (given + 1) * s.bytes_per_frame == s.bytes_per_frame)
        by (nonlinear_arith);
}

/// The PCM that goes to the converter leaves the front of what it was offered; nothing
/// else changes.
pub proof fn supplying_takes_from_the_front(s: EncodeState, requested: u32)
    requires
        s.bytes_per_frame > 0,
    ensures
        ({
            let t = s.supplied(requested);
            let n = s.given(requested) * s.bytes_per_frame;
            &&& s.rules.isolate ==> {
                &&& t.offered == s.offered.skip(n)
                &&& t.staged == s.staged
            }
            &&& !s.rules.isolate ==> {
                &&& t.staged == s.staged.skip(n)
                &&& t.offered == s.offered
            }
            &&& t.fill == s.fill && t.phase == s.phase && t.sink == s.sink && t.rules == s.rules
            &&& t.bytes_per_frame == s.bytes_per_frame
            &&& t.max_packet_bytes == s.max_packet_bytes
        }),
{
    demands_are_met(s, requested);
    let t = s.supplied(requested);
    let n = s.given(requested) * s.bytes_per_frame;
    if s.rules.isolate {
        assert(t.offered =~= s.offered.skip(n));
    } else {
        assert(t.staged =~= s.staged.skip(n));
    }
}

/// PCM is staged behind what waits already; a flush, a packet that is taken, and the
/// framework's word for the largest packet touch nothing but what they are about. The
/// largest packet is as large as the framework says, as it was where the framework says
/// nothing, and never smaller than what the codec always gives it.
pub proof fn steps_touch_only_their_own(s: EncodeState, pcm: Seq<u8>, size: Option<u32>)
    ensures
        ({
            let t = s.extended(pcm);
            &&& t.staged.len() == s.staged.len() + pcm.len()
            &&& t.staged.subrange(0, s.staged.len() as int) == s.staged
            &&& t.staged.skip(s.staged.len() as int) == pcm
            &&& t.phase is Stream
            &&& t == (EncodeState { staged: t.staged, phase: t.phase, ..s })
        }),
        ({
            let t = s.flushing();
            &&& t.phase is Flush
            &&& t == (EncodeState { phase: t.phase, ..s })
        }),
        ({
            let t = s.bounded(size);
            let named = match size {
                Some(n) => n,
                None => s.max_packet_bytes,
            };
            &&& t.max_packet_bytes >= s.rules.least_packet_bytes
            &&& t.max_packet_bytes >= named
            &&& t.max_packet_bytes == named || t.max_packet_bytes == s.rules.least_packet_bytes
            &&& t == (EncodeState { max_packet_bytes: t.max_packet_bytes, ..s })
        }),
        s.sink.pending.len() > 0 ==> {
            let t = s.received();
            &&& t.sink.pending.len() == s.sink.pending.len() - 1
            &&& forall|i: int|
                0 <= i < t.sink.pending.len() ==> #[trigger] t.sink.pending[i]
                    == s.sink.pending[i + 1]
            &&& t.sink.pts == s.sink.pts && t.sink.time_base == s.sink.time_base && t.sink.eof
                == s.sink.eof
            &&& t == (EncodeState { sink: t.sink, ..s })
        },
{
    assert(s.extended(pcm).staged.subrange(0, s.staged.len() as int) =~= s.staged);
    assert(s.extended(pcm).staged.skip(s.staged.len() as int) =~= pcm);
}

/// A fresh session has nothing staged, nothing pending and no fill under way. Its time
/// begins at 0 and counts samples.
pub proof fn fresh_sessions_are_empty(
    rules: EncodeRules,
    bytes_per_frame: u32,
    sample_rate: u32,
    max_packet_bytes: u32,
)
    ensures
        ({
            let s = EncodeState::fresh(rules, bytes_per_frame, sample_rate, max_packet_bytes);
            &&& s.staged.len() == 0
            &&& s.offered.len() == 0
            &&& s.fill is None
            &&& s.phase is Idle
            &&& s.sink.pending.len() == 0
            &&& s.sink.pts == 0
            &&& !s.sink.eof
            &&& s.sink.time_base == sample_time_base(sample_rate)
            &&& s.bytes_per_frame == bytes_per_frame
            &&& s.max_packet_bytes == max_packet_bytes
            &&& s.rules == rules
        }),
{
}

/// The state of a session shows every field of it.
pub proof fn states_show_their_sessions(s: EncodeSession)
    ensures
        s@.staged == s.staging.live(),
        s@.offered == s.offered.live(),
        s@.bytes_per_frame == s.staging.bytes_per_frame,
        s@.fill == s.fill,
        s@.phase == s.phase,
        s@.sink == s.sink@,
        s@.max_packet_bytes == s.max_packet_bytes,
        s@.rules == s.rules,
{
}

} // verus!
