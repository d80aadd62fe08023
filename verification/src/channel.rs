//! The per-topic fan-out channel: a bounded buffer of frames with one
//! independent read cursor per subscriber.
//!
//! Frames get consecutive absolute indices in publish order. The channel
//! retains a window of at most `CHANNEL_CAPACITY` frames; when a publish
//! finds the window full, the oldest retained frame is evicted, so a publish
//! never blocks and never fails. A cursor that points below the window's
//! start has lagged: the frames it missed are gone, and reading from it
//! reports the lag instead of a frame.

use vstd::prelude::*;

verus! {

/// How many frames a topic's channel retains.
pub const CHANNEL_CAPACITY: usize = 4096;

/// The mathematical state of a channel: the absolute index of the oldest
/// retained frame, the retained frames themselves (oldest first), and each
/// subscriber's cursor, the absolute index of the next frame it will read.
#[verifier::ext_equal]
pub struct ChannelModel {
    pub start: int,
    pub window: Seq<Seq<u8>>,
    pub cursors: Seq<int>,
}

impl ChannelModel {
    /// The absolute index the next published frame will get; equivalently,
    /// how many frames were ever published on this channel.
    pub open spec fn next(self) -> int {
        self.start + self.window.len()
    }

    /// The retained frame at absolute index `i`.
    pub open spec fn frame_at(self, i: int) -> Seq<u8> {
        self.window[i - self.start]
    }

    pub open spec fn empty() -> ChannelModel {
        ChannelModel { start: 0, window: Seq::empty(), cursors: Seq::empty() }
    }

    /// Well-formedness: the window never exceeds the capacity, every cursor
    /// sits between zero and `next()`, and the absolute index counter stays
    /// representable in a machine word.
    pub open spec fn wf(self) -> bool {
        &&& 0 <= self.start
        &&& self.window.len() <= CHANNEL_CAPACITY
        &&& self.next() <= u64::MAX
        &&& forall|i: int|
            0 <= i < self.cursors.len() ==> 0 <= #[trigger] self.cursors[i] <= self.next()
    }
}

/// Publishing appends the frame at index `next()`; on a full window the
/// oldest retained frame is evicted first. Cursors are untouched.
pub open spec fn spec_publish(m: ChannelModel, frame: Seq<u8>) -> ChannelModel {
    if m.window.len() < CHANNEL_CAPACITY {
        ChannelModel { window: m.window.push(frame), ..m }
    } else {
        ChannelModel {
            start: m.start + 1,
            window: m.window.subrange(1, m.window.len() as int).push(frame),
            ..m
        }
    }
}

/// Attaching a subscriber adds a cursor at `next()`: it will observe only
/// frames published from that point on, never history.
pub open spec fn spec_subscribe(m: ChannelModel) -> ChannelModel {
    ChannelModel { cursors: m.cursors.push(m.next()), ..m }
}

/// What one read on a cursor yields.
pub enum RecvClass {
    /// The frame at the cursor's index; the cursor advances past it.
    Frame(Seq<u8>),
    /// The cursor has consumed everything published so far.
    Empty,
    /// The cursor fell behind the retention window: frames it had not read
    /// were evicted.
    Lagged,
}

pub open spec fn spec_recv_class(m: ChannelModel, sub: int) -> RecvClass {
    if m.cursors[sub] < m.start {
        RecvClass::Lagged
    } else if m.cursors[sub] == m.next() {
        RecvClass::Empty
    } else {
        RecvClass::Frame(m.frame_at(m.cursors[sub]))
    }
}

/// The state after one read: only a read that yields a frame changes
/// anything, and it only advances the reading subscriber's own cursor.
pub open spec fn spec_recv_next(m: ChannelModel, sub: int) -> ChannelModel {
    if m.start <= m.cursors[sub] < m.next() {
        ChannelModel { cursors: m.cursors.update(sub, m.cursors[sub] + 1), ..m }
    } else {
        m
    }
}

/// What one read on a subscriber's cursor yields, as executable data.
pub enum RecvOutcome {
    Frame(Vec<u8>),
    Empty,
    Lagged,
}

impl View for RecvOutcome {
    type V = RecvClass;

    open spec fn view(&self) -> RecvClass {
        match self {
            RecvOutcome::Frame(f) => RecvClass::Frame(f@),
            RecvOutcome::Empty => RecvClass::Empty,
            RecvOutcome::Lagged => RecvClass::Lagged,
        }
    }
}

/// A topic's fan-out channel.
pub struct Channel {
    start: u64,
    buffer: Vec<Vec<u8>>,
    cursors: Vec<u64>,
}

impl View for Channel {
    type V = ChannelModel;

    closed spec fn view(&self) -> ChannelModel {
        ChannelModel {
            start: self.start as int,
            window: self.buffer@.map_values(|f: Vec<u8>| f@),
            cursors: self.cursors@.map_values(|c: u64| c as int),
        }
    }
}

impl Channel {
    pub fn new() -> (c: Channel)
        ensures
            c@ == ChannelModel::empty(),
            c@.wf(),
    {
        let c = Channel { start: 0, buffer: Vec::new(), cursors: Vec::new() };
        proof {
            assert(c@.window =~= Seq::<Seq<u8>>::empty());
            assert(c@.cursors =~= Seq::<int>::empty());
            assert(c@ =~= ChannelModel::empty());
        }
        c
    }

    /// Publish one frame. Never blocks and never fails: on a full window the
    /// oldest retained frame is evicted to make room.
    pub fn publish(&mut self, frame: Vec<u8>)
        requires
            old(self)@.wf(),
            old(self)@.next() < u64::MAX,
        ensures
            final(self)@ == spec_publish(old(self)@, frame@),
            final(self)@.wf(),
    {
        let ghost m = self@;
        if self.buffer.len() == CHANNEL_CAPACITY {
            self.buffer.remove(0);
            self.start = self.start + 1;
            self.buffer.push(frame);
            proof {
                assert(self@.window =~= m.window.subrange(1, m.window.len() as int).push(
                    frame@,
                ));
                assert(self@.cursors =~= m.cursors);
                assert(self@ =~= spec_publish(m, frame@));
            }
        } else {
            self.buffer.push(frame);
            proof {
                assert(self@.window =~= m.window.push(frame@));
                assert(self@.cursors =~= m.cursors);
                assert(self@ =~= spec_publish(m, frame@));
            }
        }
    }

    /// Whether one more frame can be published without exhausting the
    /// absolute index counter. True for any channel a machine can reach.
    pub fn can_publish(&self) -> (r: bool)
        requires
            self@.wf(),
        ensures
            r == (self@.next() < u64::MAX),
    {
        self.start + (self.buffer.len() as u64) < u64::MAX
    }

    /// Attach a new subscriber: its cursor starts at `next()`, so it will
    /// receive exactly the frames published after this call.
    pub fn subscribe(&mut self) -> (sub: usize)
        requires
            old(self)@.wf(),
        ensures
            final(self)@ == spec_subscribe(old(self)@),
            final(self)@.wf(),
            sub == old(self)@.cursors.len(),
    {
        let ghost m = self@;
        let next: u64 = self.start + (self.buffer.len() as u64);
        let sub = self.cursors.len();
        self.cursors.push(next);
        proof {
            assert(self@.cursors =~= m.cursors.push(m.next()));
            assert(self@.window =~= m.window);
            assert(self@ =~= spec_subscribe(m));
        }
        sub
    }

    /// Read one frame on a subscriber's cursor. Yields the frame at the
    /// cursor and advances only that cursor; reports `Empty` when the cursor
    /// has consumed everything published so far, and `Lagged` when frames it
    /// had not read were already evicted.
    pub fn recv(&mut self, sub: usize) -> (r: RecvOutcome)
        requires
            old(self)@.wf(),
            sub < old(self)@.cursors.len(),
        ensures
            final(self)@ == spec_recv_next(old(self)@, sub as int),
            final(self)@.wf(),
            r@ == spec_recv_class(old(self)@, sub as int),
    {
        let ghost m = self@;
        let cur = self.cursors[sub];
        if cur < self.start {
            return RecvOutcome::Lagged;
        }
        let next: u64 = self.start + (self.buffer.len() as u64);
        if cur == next {
            return RecvOutcome::Empty;
        }
        let idx = (cur - self.start) as usize;
        let frame = vstd::slice::slice_to_vec(self.buffer[idx].as_slice());
        self.cursors[sub] = cur + 1;
        proof {
            assert(self@.cursors =~= m.cursors.update(sub as int, m.cursors[sub as int] + 1));
            assert(self@.window =~= m.window);
            assert(self@ =~= spec_recv_next(m, sub as int));
            assert(frame@ == m.frame_at(m.cursors[sub as int]));
        }
        RecvOutcome::Frame(frame)
    }
}

/// A subscriber that is attached and caught up when a frame is published
/// receives exactly that frame's bytes on its next read, and is then caught
/// up again — so, read after read, it receives every frame published after
/// its attachment, in publish order, as long as it does not lag.
pub proof fn lemma_attached_subscriber_receives_publish(
    m: ChannelModel,
    frame: Seq<u8>,
    sub: int,
)
    requires
        m.wf(),
        0 <= sub < m.cursors.len(),
        m.cursors[sub] == m.next(),
    ensures
        spec_recv_class(spec_publish(m, frame), sub) == RecvClass::Frame(frame),
        spec_recv_next(spec_publish(m, frame), sub).cursors[sub] == spec_publish(m, frame).next(),
{
}

/// Publishing assigns the new frame the next absolute index, moves no
/// cursor, and — as long as the window is not full, so nothing is evicted —
/// keeps every already-retained frame at its index with its bytes; on a full
/// window only the oldest retained frame is lost.
pub proof fn lemma_publish_retains_window(m: ChannelModel, frame: Seq<u8>)
    requires
        m.wf(),
    ensures
        spec_publish(m, frame).next() == m.next() + 1,
        spec_publish(m, frame).frame_at(m.next()) == frame,
        spec_publish(m, frame).cursors == m.cursors,
        m.window.len() < CHANNEL_CAPACITY ==> spec_publish(m, frame).start == m.start && forall|
            i: int,
        |
            m.start <= i < m.next() ==> (#[trigger] spec_publish(m, frame).frame_at(i))
                == m.frame_at(i),
        m.window.len() == CHANNEL_CAPACITY ==> spec_publish(m, frame).start == m.start + 1
            && forall|i: int|
            m.start + 1 <= i < m.next() ==> (#[trigger] spec_publish(m, frame).frame_at(i))
                == m.frame_at(i),
{
}

/// A reader is only ever handed the frame at its own cursor, a fresh
/// subscriber's cursor starts at `next()`, and no operation moves a cursor
/// backwards: a subscriber attached when `a` frames had been published can
/// never receive a frame whose absolute index lies below `a`. Frames
/// published before its attachment are invisible to it.
pub proof fn lemma_no_history(m: ChannelModel, frame: Seq<u8>, sub: int, a: int)
    requires
        m.wf(),
        0 <= sub < m.cursors.len(),
        m.cursors[sub] >= a,
    ensures
        spec_subscribe(m).cursors.last() == m.next(),
        spec_recv_class(m, sub) matches RecvClass::Frame(f) ==> f == m.frame_at(m.cursors[sub])
            && m.cursors[sub] >= a,
        spec_publish(m, frame).cursors[sub] >= a,
        spec_subscribe(m).cursors[sub] >= a,
        spec_recv_next(m, sub).cursors[sub] >= a,
{
}

/// One publisher's frames reach every subscriber in the publisher's send
/// order: each publish takes the next absolute index, so an earlier frame
/// has a strictly smaller index, and each successful read advances the
/// reading cursor past the index it was read from, so successive reads on
/// one cursor observe strictly increasing indices. Nothing relates the
/// interleaving of two publishers beyond each one's own order.
pub proof fn lemma_publish_order_preserved(m: ChannelModel, sub: int)
    requires
        m.wf(),
        0 <= sub < m.cursors.len(),
    ensures
        spec_recv_class(m, sub) matches RecvClass::Frame(f) ==> spec_recv_next(
            m,
            sub,
        ).cursors[sub] == m.cursors[sub] + 1 && f == m.frame_at(m.cursors[sub]),
{
}

/// The channel after publishing every frame of `fs`, in order.
pub open spec fn spec_publish_all(m: ChannelModel, fs: Seq<Seq<u8>>) -> ChannelModel
    decreases fs.len(),
{
    if fs.len() == 0 {
        m
    } else {
        spec_publish_all(spec_publish(m, fs.first()), fs.drop_first())
    }
}

/// The frames yielded by `n` successive reads on one cursor, stopping early
/// once a read yields no frame.
pub open spec fn spec_read_seq(m: ChannelModel, sub: int, n: nat) -> Seq<Seq<u8>>
    decreases n,
{
    if n == 0 {
        Seq::empty()
    } else {
        match spec_recv_class(m, sub) {
            RecvClass::Frame(f) => seq![f] + spec_read_seq(
                spec_recv_next(m, sub),
                sub,
                (n - 1) as nat,
            ),
            RecvClass::Empty => Seq::empty(),
            RecvClass::Lagged => Seq::empty(),
        }
    }
}

/// A burst of publishes that fits the free part of the window evicts
/// nothing: it appends its frames after the retained ones and moves no
/// cursor.
pub proof fn lemma_publish_all_no_eviction(m: ChannelModel, fs: Seq<Seq<u8>>)
    requires
        m.wf(),
        m.window.len() + fs.len() <= CHANNEL_CAPACITY,
        m.next() + fs.len() <= u64::MAX,
    ensures
        spec_publish_all(m, fs).wf(),
        spec_publish_all(m, fs).start == m.start,
        spec_publish_all(m, fs).cursors == m.cursors,
        spec_publish_all(m, fs).next() == m.next() + fs.len(),
        spec_publish_all(m, fs).window == m.window + fs,
    decreases fs.len(),
{
    if fs.len() == 0 {
        assert(m.window + fs =~= m.window);
    } else {
        let m1 = spec_publish(m, fs.first());
        assert(m1.window =~= m.window.push(fs.first()));
        lemma_publish_all_no_eviction(m1, fs.drop_first());
        assert(m1.window + fs.drop_first() =~= m.window + fs);
    }
}

/// Reads deliver the window: a cursor standing where a run of frames sits
/// retained yields exactly those frames, in window order, one per read.
pub proof fn lemma_reads_from_window(m: ChannelModel, sub: int, fs: Seq<Seq<u8>>, c: int)
    requires
        m.wf(),
        0 <= sub < m.cursors.len(),
        m.cursors[sub] == c,
        m.start <= c,
        c + fs.len() <= m.next(),
        forall|k: int| 0 <= k < fs.len() ==> m.frame_at(c + k) == fs[k],
    ensures
        spec_read_seq(m, sub, fs.len()) == fs,
    decreases fs.len(),
{
    if fs.len() == 0 {
        assert(spec_read_seq(m, sub, 0) =~= fs);
    } else {
        assert(m.frame_at(c) == fs[0]);
        assert(spec_recv_class(m, sub) == RecvClass::Frame(fs[0]));
        let m1 = spec_recv_next(m, sub);
        assert forall|k: int| 0 <= k < fs.drop_first().len() implies m1.frame_at(c + 1 + k)
            == fs.drop_first()[k] by {
            assert(m.frame_at(c + 1 + k) == fs[k + 1]);
        }
        lemma_reads_from_window(m1, sub, fs.drop_first(), c + 1);
        assert(spec_read_seq(m, sub, fs.len()) =~= seq![fs[0]] + fs.drop_first());
        assert(seq![fs[0]] + fs.drop_first() =~= fs);
    }
}

/// A subscriber that is attached and caught up before a burst of publishes
/// receives exactly those frames' bytes, in the publisher's send order,
/// provided the burst fits the retention window so that no eviction
/// intervenes.
pub proof fn lemma_subscriber_receives_stream(m: ChannelModel, fs: Seq<Seq<u8>>, sub: int)
    requires
        m.wf(),
        0 <= sub < m.cursors.len(),
        m.cursors[sub] == m.next(),
        m.window.len() + fs.len() <= CHANNEL_CAPACITY,
        m.next() + fs.len() <= u64::MAX,
    ensures
        spec_read_seq(spec_publish_all(m, fs), sub, fs.len()) == fs,
{
    lemma_publish_all_no_eviction(m, fs);
    let mp = spec_publish_all(m, fs);
    assert forall|k: int| 0 <= k < fs.len() implies mp.frame_at(m.next() + k) == fs[k] by {
        assert(mp.window[m.next() + k - mp.start] == (m.window + fs)[m.window.len() + k]);
    }
    lemma_reads_from_window(mp, sub, fs, m.next());
}

/// Subscriber cursors are independent: a read on one cursor never changes
/// another cursor nor the retained frames, and two cursors standing at the
/// same index are handed the same outcome — so subscribers attached at the
/// same point receive identical copies of every later frame, each at its own
/// pace.
pub proof fn lemma_cursors_independent(m: ChannelModel, s1: int, s2: int)
    requires
        m.wf(),
        0 <= s1 < m.cursors.len(),
        0 <= s2 < m.cursors.len(),
        s1 != s2,
    ensures
        spec_recv_next(m, s1).cursors[s2] == m.cursors[s2],
        spec_recv_next(m, s1).window == m.window,
        spec_recv_next(m, s1).start == m.start,
        m.cursors[s1] == m.cursors[s2] ==> spec_recv_class(m, s1) == spec_recv_class(m, s2),
{
}

} // verus!
