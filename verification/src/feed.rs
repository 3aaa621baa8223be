//! The two ends of an encoder: PCM on its way to the converter, packets on their way to
//! the caller.

use vstd::prelude::*;

use crate::bytes::{copy_range, push_bytes};
use crate::error::{fails_with, Error};
use crate::params::TimeBase;
use crate::session::{nothing_pending, Supply};
use crate::sys::AudioBufferList1;

verus! {

/// A packet of coded audio.
#[derive(Debug)]
pub struct Packet {
    /// Index of its stream.
    pub stream_index: u32,
    /// The time base of its time.
    pub time_base: TimeBase,
    /// Time of its first sample.
    pub pts: Option<i64>,
    /// Whether decoding can begin with it.
    pub keyframe: bool,
    /// The coded audio.
    pub data: Vec<u8>,
}

/// A [`Packet`] with its data as a sequence.
#[verifier::ext_equal]
pub struct PacketView {
    pub stream_index: u32,
    pub time_base: TimeBase,
    pub pts: Option<i64>,
    pub keyframe: bool,
    pub data: Seq<u8>,
}

impl View for Packet {
    type V = PacketView;

    open spec fn view(&self) -> PacketView {
        PacketView {
            stream_index: self.stream_index,
            time_base: self.time_base,
            pts: self.pts,
            keyframe: self.keyframe,
            data: self.data@,
        }
    }
}

/// Packets with their data as sequences.
pub open spec fn packet_views(v: Seq<Packet>) -> Seq<PacketView> {
    v.map_values(|p: Packet| p@)
}

/// The packets of an encoder.
#[derive(Debug)]
pub struct PacketSink {
    /// Packets that wait for the caller, first coded first.
    pub pending: Vec<Packet>,
    /// Time of the next packet.
    pub pts: i64,
    /// The time base of the stream.
    pub time_base: TimeBase,
    /// Whether the stream was ended.
    pub eof: bool,
}

/// A [`PacketSink`] as mathematics.
#[verifier::ext_equal]
pub struct SinkState {
    pub pending: Seq<PacketView>,
    pub pts: i64,
    pub time_base: TimeBase,
    pub eof: bool,
}

impl View for PacketSink {
    type V = SinkState;

    open spec fn view(&self) -> SinkState {
        SinkState {
            pending: packet_views(self.pending@),
            pts: self.pts,
            time_base: self.time_base,
            eof: self.eof,
        }
    }
}

impl SinkState {
    /// No packets yet.
    pub open spec fn fresh(time_base: TimeBase) -> SinkState {
        SinkState { pending: Seq::empty(), pts: 0, time_base, eof: false }
    }

    /// A packet of `samples` samples was coded.
    pub open spec fn emitted(self, data: Seq<u8>, samples: int) -> SinkState {
        SinkState {
            pending: self.pending.push(
                PacketView {
                    stream_index: 0,
                    time_base: self.time_base,
                    pts: Some(self.pts),
                    keyframe: true,
                    data,
                },
            ),
            pts: (self.pts + samples) as i64,
            ..self
        }
    }

    /// The first pending packet went to the caller.
    pub open spec fn received(self) -> SinkState {
        SinkState { pending: self.pending.drop_first(), ..self }
    }

    /// The stream was ended.
    pub open spec fn ended(self) -> SinkState {
        SinkState { eof: true, ..self }
    }

    /// The pending packets, of `step` samples each, follow one another without a gap,
    /// and the next packet follows them.
    pub open spec fn is_contiguous(self, step: int) -> bool {
        forall|i: int|
            0 <= i < self.pending.len() ==> (#[trigger] self.pending[i]).pts is Some
                && self.pending[i].pts->0 == self.pts - (self.pending.len() - i) * step
    }
}

impl PacketSink {
    /// No packets yet.
    pub fn new(time_base: TimeBase) -> (s: PacketSink)
        ensures
            s@ == SinkState::fresh(time_base),
    {
        let s = PacketSink { pending: Vec::new(), pts: 0, time_base, eof: false };
        assert(s@ =~= SinkState::fresh(time_base));
        s
    }

    /// Add a packet of `samples` samples.
    pub fn emit(&mut self, data: Vec<u8>, samples: u64)
        requires
            0 <= old(self).pts,
            old(self).pts + samples <= i64::MAX,
        ensures
            final(self)@ == old(self)@.emitted(data@, samples as int),
    {
        let packet = Packet {
            stream_index: 0,
            time_base: self.time_base,
            pts: Some(self.pts),
            keyframe: true,
            data,
        };
        self.pending.push(packet);
        self.pts = self.pts + samples as i64;
        assert(self@ =~= old(self)@.emitted(data@, samples as int));
    }

    /// Take the first pending packet. Without one, the end of the stream or a need for
    /// more input is reported.
    pub fn receive_packet(&mut self) -> (r: Result<Packet, Error>)
        ensures
            old(self)@.pending.len() > 0 ==> {
                &&& r is Ok
                &&& r->Ok_0@ == old(self)@.pending[0]
                &&& final(self)@ == old(self)@.received()
            },
            old(self)@.pending.len() == 0 ==> {
                &&& fails_with(r, nothing_pending(old(self).eof))
                &&& final(self)@ == old(self)@
            },
    {
        if self.pending.len() > 0 {
            let packet = self.pending.remove(0);
            assert(self@ =~= old(self)@.received());
            return Ok(packet);
        }
        if self.eof {
            return Err(Error::Eof);
        }
        Err(Error::NeedMore)
    }
}

/// PCM that waits for the converter: a queue of bytes, and how many of them the
/// converter has taken already.
#[derive(Debug)]
pub struct PcmContext {
    /// The queue.
    pub queue: Vec<u8>,
    /// Bytes at its front that were taken.
    pub read_pos: usize,
    /// Bytes of one sample in all channels.
    pub bytes_per_frame: u32,
}

impl PcmContext {
    /// No more bytes were taken than are there, and a sample has bytes.
    pub open spec fn is_sound(self) -> bool {
        self.read_pos <= self.queue@.len() && self.bytes_per_frame > 0
    }

    /// The bytes that the converter has not taken.
    pub open spec fn live(self) -> Seq<u8> {
        self.queue@.subrange(self.read_pos as int, self.queue@.len() as int)
    }

    /// An empty queue.
    pub fn new(bytes_per_frame: u32) -> (c: PcmContext)
        requires
            bytes_per_frame > 0,
        ensures
            c.is_sound(),
            c.live() == Seq::<u8>::empty(),
            c.bytes_per_frame == bytes_per_frame,
    {
        let c = PcmContext { queue: Vec::new(), read_pos: 0, bytes_per_frame };
        assert(c.live() =~= Seq::<u8>::empty());
        c
    }

    /// Bytes that the converter has not taken.
    pub fn remaining(&self) -> (n: usize)
        requires
            self.is_sound(),
        ensures
            n == self.live().len(),
    {
        self.queue.len() - self.read_pos
    }

    /// Append PCM. The bytes that were taken are dropped once they make up half of the
    /// queue.
    pub fn extend(&mut self, pcm: &[u8])
        requires
            old(self).is_sound(),
        ensures
            final(self).is_sound(),
            final(self).bytes_per_frame == old(self).bytes_per_frame,
            final(self).live() == old(self).live() + pcm@,
    {
        if self.read_pos > 0 && self.read_pos >= self.queue.len() / 2 {
            self.compact();
        }
        push_bytes(&mut self.queue, pcm);
        assert(self.live() =~= old(self).live() + pcm@);
    }

    /// Drop the bytes that were taken.
    pub fn compact(&mut self)
        requires
            old(self).is_sound(),
        ensures
            final(self).is_sound(),
            final(self).read_pos == 0,
            final(self).bytes_per_frame == old(self).bytes_per_frame,
            final(self).live() == old(self).live(),
    {
        let rest = copy_range(self.queue.as_slice(), self.read_pos, self.queue.len());
        self.queue = rest;
        self.read_pos = 0;
        assert(self.live() =~= old(self).live());
    }

    /// Append zeros until `n` bytes wait.
    pub fn pad_to(&mut self, n: usize)
        requires
            old(self).is_sound(),
            old(self).live().len() <= n,
        ensures
            final(self).is_sound(),
            final(self).bytes_per_frame == old(self).bytes_per_frame,
            final(self).live() == old(self).live() + Seq::new(
                (n - old(self).live().len()) as nat,
                |i: int| 0u8,
            ),
    {
        let need: usize = n - self.remaining();
        let pad: Vec<u8> = vec![0u8; need];
        self.extend(pad.as_slice());
        assert(pad@ =~= Seq::new(need as nat, |i: int| 0u8));
    }

    /// Take the next `n` bytes.
    pub fn take_bytes(&mut self, n: usize) -> (data: Vec<u8>)
        requires
            old(self).is_sound(),
            n <= old(self).live().len(),
        ensures
            final(self).is_sound(),
            final(self).bytes_per_frame == old(self).bytes_per_frame,
            final(self).queue == old(self).queue,
            final(self).read_pos == old(self).read_pos + n,
            data@ == old(self).live().subrange(0, n as int),
            final(self).live() == old(self).live().subrange(
                n as int,
                old(self).live().len() as int,
            ),
    {
        assert(self.live().len() == self.queue.len() - self.read_pos);
        let data = copy_range(self.queue.as_slice(), self.read_pos, self.read_pos + n);
        self.read_pos = self.read_pos + n;
        assert(data@ =~= old(self).live().subrange(0, n as int));
        assert(self.live() =~= old(self).live().subrange(n as int, old(self).live().len() as int));
        data
    }

    /// Hand the converter as many samples as it wants, as far as they are there.
    pub fn supply(&mut self, wanted: u32) -> (s: Supply)
        requires
            old(self).is_sound(),
        ensures
            final(self).is_sound(),
            final(self).bytes_per_frame == old(self).bytes_per_frame,
            final(self).queue == old(self).queue,
            ({
                let live = old(self).live();
                let size = old(self).bytes_per_frame as int;
                let given = samples_given(live.len() as int, size, wanted);
                &&& 0 <= given * size <= live.len()
                &&& s.is_pcm(live.subrange(0, given * size), given)
                &&& final(self).live() == live.subrange(given * size, live.len() as int)
                &&& final(self).read_pos == old(self).read_pos + given * size
            }),
    {
        let size: usize = self.bytes_per_frame as usize;
        let available: usize = self.remaining() / size;
        let give: usize = if available < wanted as usize {
            available
        } else {
            wanted as usize
        };
        proof {
            lemma_samples_fit(self.live().len() as int, size as int, give as int);
        }
        assert(self.live().len() == self.queue.len() - self.read_pos);
        let n: usize = give * size;
        let data = self.take_bytes(n);
        Supply { packets: give as u32, list: AudioBufferList1::new(data, 0), description: None }
    }
}

/// How many samples go to a converter that wants `wanted`, out of `len` bytes.
pub open spec fn samples_given(len: int, bytes_per_frame: int, wanted: u32) -> int {
    if len / bytes_per_frame < wanted {
        len / bytes_per_frame
    } else {
        wanted as int
    }
}

proof fn lemma_samples_fit(len: int, size: int, samples: int)
    by (nonlinear_arith)
    requires
        len >= 0,
        size > 0,
        0 <= samples <= len / size,
    ensures
        0 <= samples * size <= len,
{
}

/// Time has no gaps: packets of equal length follow one another from 0 on, whatever
/// comes and goes.
pub proof fn packets_tile_time(s: SinkState, step: int, data: Seq<u8>, time_base: TimeBase)
    requires
        s.is_contiguous(step),
        step >= 0,
        0 <= s.pts,
        s.pts + step <= i64::MAX,
    ensures
        SinkState::fresh(time_base).is_contiguous(step),
        s.emitted(data, step).is_contiguous(step),
        s.pending.len() > 0 ==> s.received().is_contiguous(step),
        s.ended().is_contiguous(step),
{
    let after = s.emitted(data, step);
    assert forall|i: int| 0 <= i < after.pending.len() implies (
    #[trigger] after.pending[i]).pts is Some && after.pending[i].pts->0 == after.pts - (
    after.pending.len() - i) * step by {
        let n = s.pending.len() as int;
        assert((n + 1 - i) * step == (n - i) * step + step) by (nonlinear_arith);
        if i < n {
            assert(after.pending[i] == s.pending[i]);
        } else {
            assert((n - i) * step == 0) by (nonlinear_arith)
                requires
                    i == n,
            ;
        }
    }
    if s.pending.len() > 0 {
        assert forall|i: int| 0 <= i < s.received().pending.len() implies (
        #[trigger] s.received().pending[i]).pts is Some && s.received().pending[i].pts->0
            == s.received().pts - (s.received().pending.len() - i) * step by {
            assert(s.received().pending[i] == s.pending[i + 1]);
        }
    }
}

/// Packets come out in the order in which they were coded: what one packet adds, it adds
/// behind all that wait, and what waits longest goes first.
pub proof fn packets_keep_their_order(s: SinkState, data: Seq<u8>, samples: int)
    requires
        s.pending.len() > 0,
    ensures
        s.emitted(data, samples).pending[0] == s.pending[0],
        s.emitted(data, samples).received() == s.received().emitted(data, samples),
{
    assert(s.emitted(data, samples).received() =~= s.received().emitted(data, samples));
}

/// A coded packet joins those that wait as the last of them: its data is what was coded,
/// whole and unchanged, its time is the sink's time, it belongs to the first stream and
/// decoding can begin with it. The sink's time moves on by its samples, and the packets
/// before it stay as they were.
pub proof fn coded_bytes_become_one_packet(s: SinkState, data: Seq<u8>, samples: int)
    requires
        0 <= s.pts,
        0 <= samples,
        s.pts + samples <= i64::MAX,
    ensures
        ({
            let t = s.emitted(data, samples);
            let packet = t.pending.last();
            &&& t.pending.len() == s.pending.len() + 1
            &&& t.pending.drop_last() == s.pending
            &&& packet.data == data
            &&& packet.pts == Some(s.pts)
            &&& packet.time_base == s.time_base
            &&& packet.stream_index == 0
            &&& packet.keyframe
            &&& t.pts == s.pts + samples
            &&& t.time_base == s.time_base
            &&& t.eof == s.eof
        }),
{
    assert(s.emitted(data, samples).pending.drop_last() =~= s.pending);
}

/// Without a packet, a sink begins empty at time 0; a packet that is taken leaves those
/// behind it in their order; the end of the stream takes nothing away.
pub proof fn sinks_change_only_by_their_packets(s: SinkState, time_base: TimeBase)
    ensures
        ({
            let t = SinkState::fresh(time_base);
            &&& t.pending.len() == 0
            &&& t.pts == 0
            &&& t.time_base == time_base
            &&& !t.eof
        }),
        s.pending.len() > 0 ==> {
            let t = s.received();
            &&& t.pending.len() == s.pending.len() - 1
            &&& forall|i: int|
                0 <= i < t.pending.len() ==> #[trigger] t.pending[i] == s.pending[i + 1]
            &&& t.pts == s.pts && t.time_base == s.time_base && t.eof == s.eof
        },
        ({
            let t = s.ended();
            &&& t.eof
            &&& t.pending == s.pending && t.pts == s.pts && t.time_base == s.time_base
        }),
{
}

/// The state of a sink shows every packet of it in its place, with its bytes.
pub proof fn states_show_their_sinks(s: PacketSink, i: int)
    ensures
        s@.pending.len() == s.pending@.len(),
        0 <= i < s.pending@.len() ==> {
            let packet = s.pending@[i];
            &&& s@.pending[i].stream_index == packet.stream_index
            &&& s@.pending[i].time_base == packet.time_base
            &&& s@.pending[i].pts == packet.pts
            &&& s@.pending[i].keyframe == packet.keyframe
            &&& s@.pending[i].data == packet.data@
        },
        s@.pts == s.pts,
        s@.time_base == s.time_base,
        s@.eof == s.eof,
{
}

/// A converter gets every sample that it wants and that is there in whole, and no more:
/// either what it wants, or all but less than one sample.
pub proof fn as_much_is_given_as_is_there(len: int, bytes_per_frame: int, wanted: u32)
    requires
        len >= 0,
        bytes_per_frame > 0,
    ensures
        ({
            let given = samples_given(len, bytes_per_frame, wanted);
            &&& 0 <= given <= wanted
            &&& given * bytes_per_frame <= len
            &&& given < wanted ==> len < (given + 1) * bytes_per_frame
        }),
{
    let whole = len / bytes_per_frame;
    let given = samples_given(len, bytes_per_frame, wanted);
    vstd::arithmetic::div_mod::lemma_fundamental_div_mod(len, bytes_per_frame);
    assert(0 <= whole && whole * bytes_per_frame <= len < (whole + 1) * bytes_per_frame)
        by (nonlinear_arith)
        requires
            bytes_per_frame > 0,
            len >= 0,
            len == bytes_per_frame * whole + len % bytes_per_frame,
            0 <= len % bytes_per_frame < bytes_per_frame,
    ;
    assert(given * bytes_per_frame <= whole * bytes_per_frame) by (nonlinear_arith)
        requires
            given <= whole,
            bytes_per_frame > 0,
    ;
}

/// What waits in a queue is what was queued, less the bytes at its front that were
/// taken.
pub proof fn queues_hold_what_was_not_taken(c: PcmContext)
    requires
        c.read_pos <= c.queue@.len(),
    ensures
        c.live().len() + c.read_pos == c.queue@.len(),
        forall|i: int|
            0 <= i < c.live().len() ==> #[trigger] c.live()[i] == c.queue@[c.read_pos + i],
{
}

} // verus!
