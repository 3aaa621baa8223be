//! Sessions with an AudioConverter: what is asked of it, what is fed to it, and what
//! its answers mean.
//!
//! A session is driven from outside. While [`DecodeSession::next_fill`] gives a
//! request, the driver has the converter fill a buffer, feeds it by
//! [`DecodeSession::supply`] whenever it asks for input, and hands its answer to
//! [`DecodeSession::filled`].

use vstd::prelude::*;

use crate::error::{fails_with, Error, ErrorView};
use crate::status::{status_error, status_failure};
use crate::sys::{
    AudioBufferList1, AudioStreamBasicDescription, AudioStreamPacketDescription, OSStatus, NO_ERR,
};

verus! {

/// A converter to create, and the cookie to install in it; an empty cookie is not
/// installed.
#[derive(Debug)]
pub struct ConverterSetup {
    /// The stream that goes in.
    pub source: AudioStreamBasicDescription,
    /// The stream that comes out.
    pub destination: AudioStreamBasicDescription,
    /// The decompression cookie.
    pub cookie: Vec<u8>,
    /// The call that a failed creation is reported as.
    pub create_op: String,
    /// The call that a refused cookie is reported as.
    pub cookie_op: &'static str,
}

/// A [`ConverterSetup`] as mathematics.
#[verifier::ext_equal]
pub struct SetupView {
    pub source: AudioStreamBasicDescription,
    pub destination: AudioStreamBasicDescription,
    pub cookie: Seq<u8>,
    pub create_op: Seq<char>,
    pub cookie_op: Seq<char>,
}

impl View for ConverterSetup {
    type V = SetupView;

    open spec fn view(&self) -> SetupView {
        SetupView {
            source: self.source,
            destination: self.destination,
            cookie: self.cookie@,
            create_op: self.create_op@,
            cookie_op: self.cookie_op@,
        }
    }
}

/// `r` is what the call `op` that returned `status` comes to: success, or the error of
/// the status.
pub open spec fn is_outcome(r: Result<(), Error>, op: Seq<char>, status: OSStatus) -> bool {
    if status == NO_ERR {
        r is Ok
    } else {
        fails_with(r, status_failure(op, status))
    }
}

/// What the call `op` that returned `status` comes to.
pub fn outcome(op: &str, status: OSStatus) -> (r: Result<(), Error>)
    ensures
        is_outcome(r, op@, status),
{
    if status == NO_ERR {
        Ok(())
    } else {
        Err(status_error(op, status))
    }
}

impl ConverterSetup {
    /// What the creation of the converter comes to.
    pub fn created(&self, status: OSStatus) -> (r: Result<(), Error>)
        ensures
            is_outcome(r, self@.create_op, status),
    {
        outcome(self.create_op.as_str(), status)
    }

    /// What the installation of the cookie comes to.
    pub fn cookie_installed(&self, status: OSStatus) -> (r: Result<(), Error>)
        ensures
            is_outcome(r, self@.cookie_op, status),
    {
        outcome(self.cookie_op, status)
    }
}

/// What a packet leads to in a decoder that makes its converter only when the stream
/// has said what it is.
#[derive(Debug)]
pub enum SendStep {
    /// The converter is to be created; the packet waits for it.
    Open(ConverterSetup),
    /// The packet was queued.
    Queued,
}

/// One request to fill an output buffer.
#[derive(Clone, Copy, Debug, PartialEq, Eq, Structural)]
pub struct FillRequest {
    /// Channels of the output.
    pub channels: u32,
    /// Packets to produce; for PCM a packet is a frame.
    pub packets: u32,
    /// Size of the output buffer in bytes.
    pub capacity: u64,
}

/// The converter's answer to a [`FillRequest`].
#[derive(Debug)]
pub struct FillReply {
    /// The status of the call.
    pub status: OSStatus,
    /// Packets that were produced.
    pub packets: u32,
    /// The bytes that were produced.
    pub data: Vec<u8>,
}

/// What the converter's input callback hands over; no packets mean that there is
/// nothing to hand over.
#[derive(Debug)]
pub struct Supply {
    /// Packets in the buffer.
    pub packets: u32,
    /// The buffer.
    pub list: AudioBufferList1,
    /// Where a compressed packet lies in the buffer.
    pub description: Option<AudioStreamPacketDescription>,
}

impl Supply {
    /// Nothing to hand over.
    pub open spec fn is_nothing(self) -> bool {
        &&& self.packets == 0
        &&& self.list.holds(Seq::empty(), 0)
        &&& self.description is None
    }

    /// One compressed packet that announces `frames` frames.
    pub open spec fn is_packet(self, data: Seq<u8>, frames: u32) -> bool {
        &&& self.packets == 1
        &&& self.list.holds(data, 0)
        &&& self.description == Some(
            AudioStreamPacketDescription {
                start_offset: 0,
                variable_frames_in_packet: frames,
                data_byte_size: data.len() as u32,
            },
        )
    }

    /// Interleaved PCM of `samples` samples in each channel.
    pub open spec fn is_pcm(self, data: Seq<u8>, samples: int) -> bool {
        &&& self.packets == samples
        &&& self.list.holds(data, 0)
        &&& self.description is None
    }

    /// Nothing to hand over.
    pub fn nothing() -> (s: Supply)
        ensures
            s.is_nothing(),
    {
        Supply { packets: 0, list: AudioBufferList1::new(Vec::new(), 0), description: None }
    }

    /// One compressed packet that announces `frames` frames.
    pub fn packet(data: Vec<u8>, frames: u32) -> (s: Supply)
        ensures
            s.is_packet(data@, frames),
    {
        let data_byte_size: u32 = data.len() as u32;
        Supply {
            packets: 1,
            list: AudioBufferList1::new(data, 0),
            description: Some(
                AudioStreamPacketDescription {
                    start_offset: 0,
                    variable_frames_in_packet: frames,
                    data_byte_size,
                },
            ),
        }
    }
}

/// A frame of decoded audio.
#[derive(Debug)]
pub struct AudioFrame {
    /// Samples per channel.
    pub samples: u32,
    /// Time of the first sample, in ticks of the stream's time base.
    pub pts: Option<i64>,
    /// One plane of interleaved samples.
    pub data: Vec<Vec<u8>>,
}

/// An [`AudioFrame`] with its planes as sequences.
#[verifier::ext_equal]
pub struct FrameView {
    pub samples: u32,
    pub pts: Option<i64>,
    pub data: Seq<Seq<u8>>,
}

/// Byte strings as sequences.
pub open spec fn byte_strings(v: Seq<Vec<u8>>) -> Seq<Seq<u8>> {
    v.map_values(|s: Vec<u8>| s@)
}

impl View for AudioFrame {
    type V = FrameView;

    open spec fn view(&self) -> FrameView {
        FrameView { samples: self.samples, pts: self.pts, data: byte_strings(self.data@) }
    }
}

/// Frames with their planes as sequences.
pub open spec fn frame_views(v: Seq<AudioFrame>) -> Seq<FrameView> {
    v.map_values(|f: AudioFrame| f@)
}

/// A frame for an encoder.
#[derive(Debug)]
pub enum Frame {
    /// Audio.
    Audio(AudioFrame),
    /// Something that no audio encoder takes.
    Other,
}

/// The interleaved PCM of a frame: its first plane, or nothing where it has none.
pub open spec fn plane_of(f: FrameView) -> Seq<u8> {
    if f.data.len() == 0 {
        Seq::empty()
    } else {
        f.data[0]
    }
}

/// How far the draining of a decoder has come.
#[derive(Clone, Copy, Debug, PartialEq, Eq, Structural)]
pub enum Drain {
    /// Nothing to drain until more input comes.
    Idle,
    /// Input came in: fill while more than the slack is queued.
    Stream,
    /// The stream ends: fill while input is queued, this many times at most.
    FlushInput(u32),
    /// The input is used up: fill this many times at most.
    FlushTail(u32),
}

/// The rules of a codec's session.
#[derive(Clone, Copy, Debug)]
pub struct DecodeRules {
    /// Packets that stay queued while the stream goes on, so that the converter never
    /// finds its input empty.
    pub keep: usize,
    /// Most fills for queued input when the stream ends.
    pub flush_inputs: u32,
    /// Most fills for what the converter still holds then.
    pub flush_tail: u32,
    /// The call that a failed fill is reported as.
    pub op: &'static str,
}

/// The shape of what a fill produces.
#[derive(Clone, Copy, Debug, PartialEq, Eq, Structural)]
pub struct Geometry {
    /// What one fill asks for.
    pub request: FillRequest,
    /// Bytes of one sample in all channels.
    pub bytes_per_frame: usize,
}

/// The decoding half of a session.
#[derive(Debug)]
pub struct DecodeSession {
    /// Compressed packets that wait for the converter, first come first.
    pub input_queue: Vec<Vec<u8>>,
    /// Decoded frames that wait for the caller, first decoded first.
    pub pending: Vec<AudioFrame>,
    /// Time of the next decoded sample.
    pub pts: i64,
    /// Whether the stream was ended.
    pub eof: bool,
    /// How far draining has come.
    pub drain: Drain,
    /// The rules of the codec.
    pub rules: DecodeRules,
    /// The shape of what a fill produces.
    pub geometry: Geometry,
}

/// A [`DecodeSession`] as mathematics.
#[verifier::ext_equal]
pub struct DecodeState {
    pub queue: Seq<Seq<u8>>,
    pub pending: Seq<FrameView>,
    pub pts: i64,
    pub eof: bool,
    pub drain: Drain,
    pub rules: DecodeRules,
    pub geometry: Geometry,
}

impl View for DecodeSession {
    type V = DecodeState;

    open spec fn view(&self) -> DecodeState {
        DecodeState {
            queue: byte_strings(self.input_queue@),
            pending: frame_views(self.pending@),
            pts: self.pts,
            eof: self.eof,
            drain: self.drain,
            rules: self.rules,
            geometry: self.geometry,
        }
    }
}

/// A fill failed: its status is neither success nor the end of the input.
pub open spec fn is_failure(status: OSStatus) -> bool {
    status != NO_ERR && status != 1
}

impl DecodeState {
    /// A fresh session.
    pub open spec fn fresh(rules: DecodeRules, geometry: Geometry) -> DecodeState {
        DecodeState {
            queue: Seq::empty(),
            pending: Seq::empty(),
            pts: 0,
            eof: false,
            drain: Drain::Idle,
            rules,
            geometry,
        }
    }

    /// A packet came in.
    pub open spec fn queued(self, data: Seq<u8>) -> DecodeState {
        DecodeState { queue: self.queue.push(data), drain: Drain::Stream, ..self }
    }

    /// The stream was ended.
    pub open spec fn flushing(self) -> DecodeState {
        DecodeState { drain: Drain::FlushInput(self.rules.flush_inputs), ..self }
    }

    /// Everything was drained at the end of the stream.
    pub open spec fn ended(self) -> DecodeState {
        DecodeState { drain: Drain::Idle, eof: true, ..self }
    }

    /// The session before its next fill: draining has gone on as far as it can
    /// without one.
    pub open spec fn advanced(self) -> DecodeState {
        match self.drain {
            Drain::Idle => self,
            Drain::Stream => if self.queue.len() > self.rules.keep {
                self
            } else {
                DecodeState { drain: Drain::Idle, ..self }
            },
            Drain::FlushInput(left) => if left > 0 && self.queue.len() > 0 {
                self
            } else if self.rules.flush_tail > 0 {
                DecodeState { drain: Drain::FlushTail(self.rules.flush_tail), ..self }
            } else {
                self.ended()
            },
            Drain::FlushTail(left) => if left > 0 {
                self
            } else {
                self.ended()
            },
        }
    }

    /// The front packet went to the converter.
    pub open spec fn supplied(self) -> DecodeState {
        DecodeState { queue: self.queue.drop_first(), ..self }
    }

    /// Samples in `n` bytes.
    pub open spec fn samples_in(self, n: int) -> int {
        n / self.geometry.bytes_per_frame as int
    }

    /// The answer brought no audio.
    pub open spec fn is_dry(data: Seq<u8>, packets: u32) -> bool {
        data.len() == 0 || packets == 0
    }

    /// The frame that an answer with audio makes.
    pub open spec fn frame_of(self, data: Seq<u8>) -> FrameView {
        FrameView {
            samples: self.samples_in(data.len() as int) as u32,
            pts: Some(self.pts),
            data: seq![data],
        }
    }

    /// The session after an answer: a failure stops draining; an answer with audio
    /// adds a frame and moves the time on; one without ends this stage of draining.
    pub open spec fn filled(self, status: OSStatus, packets: u32, data: Seq<u8>) -> DecodeState {
        if is_failure(status) {
            DecodeState { drain: Drain::Idle, ..self }
        } else if DecodeState::is_dry(data, packets) {
            match self.drain {
                Drain::Idle | Drain::Stream => DecodeState { drain: Drain::Idle, ..self },
                Drain::FlushInput(_) => DecodeState {
                    drain: Drain::FlushTail(self.rules.flush_tail),
                    ..self
                },
                Drain::FlushTail(_) => self.ended(),
            }
        } else {
            DecodeState {
                pending: self.pending.push(self.frame_of(data)),
                pts: (self.pts + self.samples_in(data.len() as int)) as i64,
                drain: match self.drain {
                    Drain::FlushInput(left) => Drain::FlushInput((left - 1) as u32),
                    Drain::FlushTail(left) => Drain::FlushTail((left - 1) as u32),
                    other => other,
                },
                ..self
            }
        }
    }

    /// The first pending frame went to the caller.
    pub open spec fn received(self) -> DecodeState {
        DecodeState { pending: self.pending.drop_first(), ..self }
    }

    /// A fill is under way.
    pub open spec fn is_filling(self) -> bool {
        match self.drain {
            Drain::Idle => false,
            Drain::Stream => true,
            Drain::FlushInput(left) => left > 0,
            Drain::FlushTail(left) => left > 0,
        }
    }

    /// The answer is one that the converter can give: its size fits the 32 bits that
    /// report it, and the time of the next sample fits as well.
    pub open spec fn can_take(self, data: Seq<u8>) -> bool {
        &&& data.len() <= u32::MAX
        &&& self.pts + self.samples_in(data.len() as int) <= i64::MAX
        &&& self.geometry.bytes_per_frame > 0
    }
}

/// What [`DecodeSession::receive_frame`] reports where no frame is pending.
pub open spec fn nothing_pending(eof: bool) -> ErrorView {
    if eof {
        ErrorView::Eof
    } else {
        ErrorView::NeedMore
    }
}

impl DecodeSession {
    /// A fresh session.
    pub fn new(rules: DecodeRules, geometry: Geometry) -> (s: DecodeSession)
        ensures
            s@ == DecodeState::fresh(rules, geometry),
    {
        let s = DecodeSession {
            input_queue: Vec::new(),
            pending: Vec::new(),
            pts: 0,
            eof: false,
            drain: Drain::Idle,
            rules,
            geometry,
        };
        assert(s@ =~= DecodeState::fresh(rules, geometry));
        s
    }

    /// Queue a packet and begin to drain.
    pub fn enqueue(&mut self, data: Vec<u8>)
        ensures
            final(self)@ == old(self)@.queued(data@),
    {
        self.input_queue.push(data);
        self.drain = Drain::Stream;
        assert(self@ =~= old(self)@.queued(data@));
    }

    /// Begin to drain everything, at the end of the stream.
    pub fn begin_flush(&mut self)
        ensures
            final(self)@ == old(self)@.flushing(),
    {
        self.drain = Drain::FlushInput(self.rules.flush_inputs);
    }

    /// Be done at once, at the end of a stream.
    pub fn end(&mut self)
        ensures
            final(self)@ == old(self)@.ended(),
    {
        self.drain = Drain::Idle;
        self.eof = true;
    }

    /// The next fill to make, or `None` when draining is done.
    pub fn next_fill(&mut self) -> (r: Option<FillRequest>)
        ensures
            final(self)@ == old(self)@.advanced(),
            r == if final(self)@.is_filling() {
                Some(old(self).geometry.request)
            } else {
                None
            },
    {
        match self.drain {
            Drain::Idle => None,
            Drain::Stream => {
                if self.input_queue.len() > self.rules.keep {
                    return Some(self.geometry.request);
                }
                self.drain = Drain::Idle;
                None
            },
            Drain::FlushInput(left) => {
                if left > 0 && self.input_queue.len() > 0 {
                    return Some(self.geometry.request);
                }
                if self.rules.flush_tail > 0 {
                    self.drain = Drain::FlushTail(self.rules.flush_tail);
                    return Some(self.geometry.request);
                }
                self.drain = Drain::Idle;
                self.eof = true;
                None
            },
            Drain::FlushTail(left) => {
                if left > 0 {
                    return Some(self.geometry.request);
                }
                self.drain = Drain::Idle;
                self.eof = true;
                None
            },
        }
    }

    /// Take the front packet of the queue.
    pub fn take_packet(&mut self) -> (r: Option<Vec<u8>>)
        ensures
            match r {
                Some(data) => {
                    &&& old(self)@.queue.len() > 0
                    &&& data@ == old(self)@.queue[0]
                    &&& final(self)@ == old(self)@.supplied()
                },
                None => old(self)@.queue.len() == 0 && final(self)@ == old(self)@,
            },
    {
        if self.input_queue.len() == 0 {
            return None;
        }
        let data = self.input_queue.remove(0);
        assert(self@ =~= old(self)@.supplied());
        Some(data)
    }

    /// Hand the front packet to the converter, as a packet of `frames` frames.
    pub fn supply(&mut self, frames: u32) -> (s: Supply)
        ensures
            old(self)@.queue.len() == 0 ==> {
                &&& s.is_nothing()
                &&& final(self)@ == old(self)@
            },
            old(self)@.queue.len() > 0 ==> {
                &&& s.is_packet(old(self)@.queue[0], frames)
                &&& final(self)@ == old(self)@.supplied()
            },
    {
        match self.take_packet() {
            Some(data) => Supply::packet(data, frames),
            None => Supply::nothing(),
        }
    }

    /// Take the converter's answer to a fill. `Ok(true)` if it brought a frame; an
    /// error for a failed call.
    pub fn filled(&mut self, reply: FillReply) -> (r: Result<bool, Error>)
        requires
            old(self)@.is_filling(),
            old(self)@.can_take(reply.data@),
        ensures
            final(self)@ == old(self)@.filled(reply.status, reply.packets, reply.data@),
            is_failure(reply.status) ==> fails_with(
                r,
                status_failure(old(self).rules.op@, reply.status),
            ),
            !is_failure(reply.status) ==> r == Ok::<bool, Error>(
                !DecodeState::is_dry(reply.data@, reply.packets),
            ),
    {
        if reply.status != NO_ERR && reply.status != 1 {
            self.drain = Drain::Idle;
            return Err(status_error(self.rules.op, reply.status));
        }
        let n: usize = reply.data.len();
        if n == 0 || reply.packets == 0 {
            match self.drain {
                Drain::Idle | Drain::Stream => {
                    self.drain = Drain::Idle;
                },
                Drain::FlushInput(_) => {
                    self.drain = Drain::FlushTail(self.rules.flush_tail);
                },
                Drain::FlushTail(_) => {
                    self.drain = Drain::Idle;
                    self.eof = true;
                },
            }
            return Ok(false);
        }
        let samples: usize = n / self.geometry.bytes_per_frame;
        proof {
            lemma_quotient(n as int, self.geometry.bytes_per_frame as int);
        }
        let mut planes: Vec<Vec<u8>> = Vec::new();
        planes.push(reply.data);
        let frame = AudioFrame { samples: samples as u32, pts: Some(self.pts), data: planes };
        assert(frame@ =~= old(self)@.frame_of(reply.data@));
        self.pending.push(frame);
        self.pts = self.pts + samples as i64;
        match self.drain {
            Drain::FlushInput(left) => {
                self.drain = Drain::FlushInput(left - 1);
            },
            Drain::FlushTail(left) => {
                self.drain = Drain::FlushTail(left - 1);
            },
            _ => {},
        }
        assert(self@ =~= old(self)@.filled(reply.status, reply.packets, reply.data@));
        Ok(true)
    }

    /// Take the first pending frame. Without one, the end of the stream or a need for
    /// more input is reported.
    pub fn receive_frame(&mut self) -> (r: Result<AudioFrame, Error>)
        ensures
            old(self)@.pending.len() > 0 ==> {
                &&& r is Ok
                &&& r->Ok_0@ == old(self)@.pending[0]
                &&& final(self)@ == old(self)@.received()
            },
            old(self)@.pending.len() == 0 ==> {
                &&& fails_with(r, nothing_pending(old(self).eof))
                &&& final(self)@ == old(self)@
            },
    {
        if self.pending.len() > 0 {
            let frame = self.pending.remove(0);
            assert(self@ =~= old(self)@.received());
            return Ok(frame);
        }
        if self.eof {
            return Err(Error::Eof);
        }
        Err(Error::NeedMore)
    }

    /// Forget everything that came in and everything that is pending.
    pub fn reset(&mut self)
        ensures
            final(self)@ == DecodeState::fresh(old(self).rules, old(self).geometry),
    {
        self.input_queue.clear();
        self.pending.clear();
        self.pts = 0;
        self.eof = false;
        self.drain = Drain::Idle;
        assert(self@ =~= DecodeState::fresh(old(self).rules, old(self).geometry));
    }
}

proof fn lemma_quotient(n: int, d: int)
    by (nonlinear_arith)
    requires
        n >= 0,
        d > 0,
    ensures
        0 <= n / d <= n,
{
}

/// While the stream goes on, the converter is only asked for audio when more packets
/// are queued than the slack that must stay: it never finds its input empty before
/// its first packet.
pub proof fn streaming_keeps_its_slack(s: DecodeState)
    requires
        s.drain is Stream,
        s.advanced().is_filling(),
    ensures
        s.queue.len() > s.rules.keep,
        s.advanced() == s,
{
}

/// Draining without a fill changes nothing but how far draining has come and, at the
/// end of the stream, that it has ended.
pub proof fn advancing_loses_nothing(s: DecodeState)
    ensures
        s.advanced().queue == s.queue,
        s.advanced().pending == s.pending,
        s.advanced().pts == s.pts,
        s.eof ==> s.advanced().eof,
        s.advanced().eof && !s.eof ==> s.advanced().drain is Idle,
{
}

/// The most fills that may still come before draining at the end of the stream is
/// done.
pub open spec fn flush_fills_left(s: DecodeState) -> int {
    match s.drain {
        Drain::FlushInput(left) => left + s.rules.flush_tail,
        Drain::FlushTail(left) => left as int,
        _ => 0,
    }
}

/// The end of a stream is drained in a bounded number of fills: each answer, whatever
/// it is, leaves fewer of them.
pub proof fn flush_is_bounded(s: DecodeState, status: OSStatus, packets: u32, data: Seq<u8>)
    requires
        s.drain is FlushInput || s.drain is FlushTail,
        s.is_filling(),
    ensures
        0 <= flush_fills_left(s.filled(status, packets, data)) < flush_fills_left(s),
        flush_fills_left(s.filled(status, packets, data).advanced()) <= flush_fills_left(
            s.filled(status, packets, data),
        ),
        s.flushing().drain is FlushInput,
        flush_fills_left(s.flushing()) == s.rules.flush_inputs + s.rules.flush_tail,
{
}

/// Every pending frame begins where the one before it ended, and the next one will
/// begin where the last one ends.
pub open spec fn is_gapless(s: DecodeState) -> bool {
    forall|i: int|
        0 <= i < s.pending.len() ==> {
            &&& (#[trigger] s.pending[i]).pts is Some
            &&& s.pending[i].pts->0 + s.pending[i].samples == (if i + 1 < s.pending.len() {
                s.pending[i + 1].pts->0
            } else {
                s.pts
            })
        }
}

/// The times of the decoded frames leave no gap: no operation of a session breaks
/// what [`is_gapless`] says.
pub proof fn time_has_no_gaps(
    s: DecodeState,
    status: OSStatus,
    packets: u32,
    data: Seq<u8>,
)
    requires
        is_gapless(s),
        s.can_take(data),
    ensures
        is_gapless(DecodeState::fresh(s.rules, s.geometry)),
        is_gapless(s.queued(data)),
        is_gapless(s.flushing()),
        is_gapless(s.advanced()),
        is_gapless(s.filled(status, packets, data)),
        s.pending.len() > 0 ==> is_gapless(s.received()),
{
    lemma_quotient(data.len() as int, s.geometry.bytes_per_frame as int);
    let t = s.filled(status, packets, data);
    if !is_failure(status) && !DecodeState::is_dry(data, packets) {
        assert forall|i: int| 0 <= i < t.pending.len() implies {
            &&& (#[trigger] t.pending[i]).pts is Some
            &&& t.pending[i].pts->0 + t.pending[i].samples == (if i + 1 < t.pending.len() {
                t.pending[i + 1].pts->0
            } else {
                t.pts
            })
        } by {
            if i < s.pending.len() {
                assert(t.pending[i] == s.pending[i]);
            }
        }
    } else {
        assert(t.pending == s.pending && t.pts == s.pts);
    }
    if s.pending.len() > 0 {
        let u = s.received();
        assert forall|i: int| 0 <= i < u.pending.len() implies {
            &&& (#[trigger] u.pending[i]).pts is Some
            &&& u.pending[i].pts->0 + u.pending[i].samples == (if i + 1 < u.pending.len() {
                u.pending[i + 1].pts->0
            } else {
                u.pts
            })
        } by {
            assert(u.pending[i] == s.pending[i + 1]);
        }
    }
}

/// A frame holds its samples and nothing else, wherever the converter answers in
/// whole frames.
pub proof fn frames_are_full(s: DecodeState, data: Seq<u8>)
    requires
        s.can_take(data),
        data.len() as int % s.geometry.bytes_per_frame as int == 0,
    ensures
        s.frame_of(data).samples * s.geometry.bytes_per_frame == data.len(),
        s.frame_of(data).data == seq![data],
{
    let d = s.geometry.bytes_per_frame as int;
    let n = data.len() as int;
    lemma_quotient(n, d);
    vstd::arithmetic::div_mod::lemma_fundamental_div_mod(n, d);
    assert(n / d * d == n) by (nonlinear_arith)
        requires
            n == d * (n / d) + n % d,
            n % d == 0,
    ;
}

/// Packets reach the converter in the order in which they came, and none is lost or
/// made up on the way.
pub proof fn packets_keep_their_order(s: DecodeState, data: Seq<u8>)
    requires
        s.queue.len() > 0,
    ensures
        s.supplied().queued(data).queue == s.queued(data).supplied().queue,
        s.queued(data).queue[0] == s.queue[0],
        seq![s.queue[0]] + s.supplied().queue == s.queue,
{
    assert(s.supplied().queued(data).queue =~= s.queued(data).supplied().queue);
    assert(seq![s.queue[0]] + s.supplied().queue =~= s.queue);
}

/// In every stage of draining, an answer that is no failure and brings audio adds
/// exactly one frame behind those that wait. Its one plane is the answer's bytes, it
/// holds as many whole samples as they make, it begins at the session's time, and the
/// session's time moves on by its samples. Nothing else of the stream changes.
pub proof fn audio_becomes_one_frame(s: DecodeState, status: OSStatus, packets: u32, data: Seq<u8>)
    requires
        status == 0 || status == 1,
        packets > 0,
        0 < data.len() <= u32::MAX,
        s.geometry.bytes_per_frame > 0,
        s.pts + data.len() as int / s.geometry.bytes_per_frame as int <= i64::MAX,
    ensures
        ({
            let t = s.filled(status, packets, data);
            let frame = t.pending.last();
            let size = s.geometry.bytes_per_frame as int;
            &&& t.pending.len() == s.pending.len() + 1
            &&& t.pending.drop_last() == s.pending
            &&& frame.data == seq![data]
            &&& frame.pts == Some(s.pts)
            &&& frame.samples * size <= data.len() < (frame.samples + 1) * size
            &&& t.pts == s.pts + frame.samples
            &&& t.queue == s.queue
            &&& t.eof == s.eof
            &&& t.rules == s.rules
            &&& t.geometry == s.geometry
        }),
{
    let t = s.filled(status, packets, data);
    let size = s.geometry.bytes_per_frame as int;
    let n = data.len() as int;
    lemma_quotient(n, size);
    vstd::arithmetic::div_mod::lemma_fundamental_div_mod(n, size);
    assert(n / size * size <= n < (n / size + 1) * size) by (nonlinear_arith)
        requires
            size > 0,
            n == size * (n / size) + n % size,
            0 <= n % size < size,
    ;
    assert(t.pending.drop_last() =~= s.pending);
}

/// An answer with audio leaves a session in its stage of draining. At the end of a
/// stream it uses up one of the fills that the stage may make.
pub proof fn audio_keeps_the_stage(
    s: DecodeState,
    status: OSStatus,
    packets: u32,
    data: Seq<u8>,
    left: u32,
)
    requires
        status == 0 || status == 1,
        packets > 0,
        data.len() > 0,
        left < u32::MAX,
    ensures
        s.drain is Stream ==> s.filled(status, packets, data).drain is Stream,
        s.drain == Drain::FlushInput((left + 1) as u32) ==> s.filled(
            status,
            packets,
            data,
        ).drain == Drain::FlushInput(left),
        s.drain == Drain::FlushTail((left + 1) as u32) ==> s.filled(status, packets, data).drain
            == Drain::FlushTail(left),
{
}

/// An answer without audio, and a failed one, add no frame and take no time. A failure
/// stops draining and ends no stream. An answer without audio ends its stage: draining
/// stops while the stream goes on, the tail follows the input when the stream ends, and
/// the stream is over behind the tail.
pub proof fn silence_adds_nothing(s: DecodeState, status: OSStatus, packets: u32, data: Seq<u8>)
    requires
        !(status == 0 || status == 1) || data.len() == 0 || packets == 0,
    ensures
        ({
            let t = s.filled(status, packets, data);
            &&& t.pending == s.pending
            &&& t.pts == s.pts
            &&& t.queue == s.queue
            &&& t.rules == s.rules
            &&& t.geometry == s.geometry
            &&& !(status == 0 || status == 1) ==> t.drain is Idle && t.eof == s.eof
            &&& status == 0 || status == 1 ==> match s.drain {
                Drain::FlushInput(_) => {
                    &&& t.drain == Drain::FlushTail(s.rules.flush_tail)
                    &&& t.eof == s.eof
                },
                Drain::FlushTail(_) => t.drain is Idle && t.eof,
                _ => t.drain is Idle && t.eof == s.eof,
            }
        }),
{
}

/// Success and the end of the input, 0 and 1, are the only statuses that are no
/// failures. An answer is dry exactly if it has no bytes or counts no packets.
pub proof fn answers_are_told_apart(status: OSStatus, packets: u32, data: Seq<u8>)
    ensures
        is_failure(status) <==> !(status == 0 || status == 1),
        !DecodeState::is_dry(data, packets) <==> data.len() > 0 && packets > 0,
{
}

/// When a fill is asked for: while the stream goes on, exactly when more packets are
/// queued than the slack; at its end, while packets are queued and fills are left for
/// them, and after that as often as the tail may be asked for. The stream is over when
/// nothing more may be asked for at its end, and not before.
pub proof fn fills_are_asked_for_while_there_is_work(s: DecodeState)
    ensures
        ({
            let t = s.advanced();
            match s.drain {
                Drain::Idle => !t.is_filling() && t.drain is Idle && t.eof == s.eof,
                Drain::Stream => {
                    &&& t.is_filling() <==> s.queue.len() > s.rules.keep
                    &&& t.drain is Stream <==> s.queue.len() > s.rules.keep
                    &&& t.drain is Stream || t.drain is Idle
                    &&& t.eof == s.eof
                },
                Drain::FlushInput(left) => {
                    &&& left > 0 && s.queue.len() > 0 ==> t.drain == s.drain
                    &&& (left == 0 || s.queue.len() == 0) && s.rules.flush_tail > 0 ==> t.drain
                        == Drain::FlushTail(s.rules.flush_tail)
                    &&& (left == 0 || s.queue.len() == 0) && s.rules.flush_tail == 0
                        ==> t.drain is Idle && t.eof
                    &&& t.is_filling() <==> left > 0 && s.queue.len() > 0 || s.rules.flush_tail > 0
                    &&& t.is_filling() ==> t.eof == s.eof
                },
                Drain::FlushTail(left) => {
                    &&& t.is_filling() <==> left > 0
                    &&& left > 0 ==> t.drain == s.drain && t.eof == s.eof
                    &&& left == 0 ==> t.drain is Idle && t.eof
                },
            }
        }),
        s.advanced().rules == s.rules,
        s.advanced().geometry == s.geometry,
{
}

/// A session is being filled in every stage but the idle one, as long as the stage has
/// a fill left.
pub proof fn stages_are_filled(s: DecodeState, left: u32)
    ensures
        s.drain is Idle ==> !s.is_filling(),
        s.drain is Stream ==> s.is_filling(),
        s.drain == Drain::FlushInput(left) ==> (s.is_filling() <==> left > 0),
        s.drain == Drain::FlushTail(left) ==> (s.is_filling() <==> left > 0),
{
}

/// A packet joins the queue behind all others and starts draining; the start of a
/// flush, the end of a stream and a packet that goes to the converter touch nothing but
/// what they are about.
pub proof fn steps_touch_only_their_own(s: DecodeState, data: Seq<u8>)
    ensures
        ({
            let t = s.queued(data);
            &&& t.queue.len() == s.queue.len() + 1
            &&& t.queue.last() == data
            &&& t.queue.drop_last() == s.queue
            &&& t.drain is Stream
            &&& t.pending == s.pending && t.pts == s.pts && t.eof == s.eof
            &&& t.rules == s.rules && t.geometry == s.geometry
        }),
        ({
            let t = s.flushing();
            &&& t.drain == Drain::FlushInput(s.rules.flush_inputs)
            &&& t.queue == s.queue && t.pending == s.pending && t.pts == s.pts && t.eof == s.eof
            &&& t.rules == s.rules && t.geometry == s.geometry
        }),
        ({
            let t = s.ended();
            &&& t.drain is Idle
            &&& t.eof
            &&& t.queue == s.queue && t.pending == s.pending && t.pts == s.pts
            &&& t.rules == s.rules && t.geometry == s.geometry
        }),
        s.queue.len() > 0 ==> {
            let t = s.supplied();
            &&& t.queue.len() == s.queue.len() - 1
            &&& forall|i: int| 0 <= i < t.queue.len() ==> #[trigger] t.queue[i] == s.queue[i + 1]
            &&& t.pending == s.pending && t.pts == s.pts && t.eof == s.eof && t.drain == s.drain
            &&& t.rules == s.rules && t.geometry == s.geometry
        },
        s.pending.len() > 0 ==> {
            let t = s.received();
            &&& t.pending.len() == s.pending.len() - 1
            &&& forall|i: int|
                0 <= i < t.pending.len() ==> #[trigger] t.pending[i] == s.pending[i + 1]
            &&& t.queue == s.queue && t.pts == s.pts && t.eof == s.eof && t.drain == s.drain
            &&& t.rules == s.rules && t.geometry == s.geometry
        },
{
    assert(s.queued(data).queue.drop_last() =~= s.queue);
}

/// A fresh session has no packets and no frames, stands at time 0, waits for input and
/// has not ended.
pub proof fn fresh_sessions_are_empty(rules: DecodeRules, geometry: Geometry)
    ensures
        ({
            let s = DecodeState::fresh(rules, geometry);
            &&& s.queue.len() == 0
            &&& s.pending.len() == 0
            &&& s.pts == 0
            &&& !s.eof
            &&& s.drain is Idle
            &&& s.rules == rules
            &&& s.geometry == geometry
        }),
{
}

/// The state of a session shows every field of it: each queued packet and each pending
/// frame in its place, with its bytes.
pub proof fn states_show_their_sessions(s: DecodeSession, i: int, j: int)
    ensures
        s@.queue.len() == s.input_queue@.len(),
        0 <= i < s.input_queue@.len() ==> s@.queue[i] == s.input_queue@[i]@,
        s@.pending.len() == s.pending@.len(),
        0 <= i < s.pending@.len() ==> {
            let frame = s.pending@[i];
            &&& s@.pending[i].samples == frame.samples
            &&& s@.pending[i].pts == frame.pts
            &&& s@.pending[i].data.len() == frame.data@.len()
            &&& 0 <= j < frame.data@.len() ==> s@.pending[i].data[j] == frame.data@[j]@
        },
        s@.pts == s.pts,
        s@.eof == s.eof,
        s@.drain == s.drain,
        s@.rules == s.rules,
        s@.geometry == s.geometry,
{
}

/// What the converter is handed: nothing is no packets, no bytes and no description; a
/// compressed packet is one packet at offset 0 that says its frames and its size; PCM
/// counts its samples and has no description. The one buffer holds the bytes as they
/// are and names no channels.
pub proof fn supplies_describe_their_bytes(s: Supply, data: Seq<u8>, frames: u32)
    ensures
        s.is_nothing() || s.is_packet(data, frames) || s.is_pcm(data, frames as int) ==> {
            &&& s.list.number_buffers == 1
            &&& s.list.buffers@[0].number_channels == 0
            &&& s.list.buffers@[0].data_byte_size == s.list.buffers@[0].data@.len() as u32
        },
        s.is_nothing() ==> {
            &&& s.packets == 0
            &&& s.list.buffers@[0].data@.len() == 0
            &&& s.description is None
        },
        s.is_packet(data, frames) ==> {
            &&& s.packets == 1
            &&& s.list.buffers@[0].data@ == data
            &&& s.description is Some
            &&& s.description->0.start_offset == 0
            &&& s.description->0.variable_frames_in_packet == frames
            &&& s.description->0.data_byte_size == data.len() as u32
        },
        s.is_pcm(data, frames as int) ==> {
            &&& s.packets == frames
            &&& s.list.buffers@[0].data@ == data
            &&& s.description is None
        },
{
}

/// The PCM of a frame is its first plane, and nothing where it has no plane.
pub proof fn frames_are_read_from_their_first_plane(f: FrameView)
    ensures
        f.data.len() > 0 ==> plane_of(f) == f.data.first(),
        f.data.len() == 0 ==> plane_of(f).len() == 0,
{
}

/// A call comes to success exactly if its status is 0; otherwise it fails with the error
/// of its call and its status. Where nothing is pending, a stream that has ended says
/// so, and any other asks for more.
pub proof fn only_zero_is_success(r: Result<(), Error>, op: Seq<char>, status: OSStatus)
    ensures
        is_outcome(r, op, 0) <==> r is Ok,
        status != 0 ==> (is_outcome(r, op, status) <==> r is Err && r->Err_0@ == status_failure(
            op,
            status,
        )),
        nothing_pending(true) is Eof,
        nothing_pending(false) is NeedMore,
{
}

/// Every answer can be taken whose size fits 32 bits and whose samples leave the time of
/// the next one within 64 bits: an answer that is no longer than another can be taken
/// where that one can, and one without bytes can always be taken.
pub proof fn answers_can_be_taken(s: DecodeState, data: Seq<u8>, longer: Seq<u8>)
    requires
        s.geometry.bytes_per_frame > 0,
    ensures
        data.len() <= u32::MAX && s.pts + data.len() <= i64::MAX ==> s.can_take(data),
        s.can_take(data) <==> {
            &&& data.len() <= u32::MAX
            &&& s.pts + data.len() as int / s.geometry.bytes_per_frame as int <= i64::MAX
        },
        data.len() == 0 ==> s.can_take(data),
        data.len() <= longer.len() && s.can_take(longer) ==> s.can_take(data),
{
    let size = s.geometry.bytes_per_frame as int;
    lemma_quotient(data.len() as int, size);
    if data.len() <= longer.len() {
        vstd::arithmetic::div_mod::lemma_div_is_ordered(
            data.len() as int,
            longer.len() as int,
            size,
        );
    }
}

} // verus!
