use vstd::prelude::*;
use crate::frame::Frame;
use crate::metadata::Timestamp;

verus! {

/// Frames ordered by presentation timestamp, earliest first; frames
/// sharing a timestamp keep their publication (FIFO) order.
pub open spec fn sorted_by_pts(s: Seq<Frame>) -> bool {
    forall|i: int, j: int| 0 <= i <= j < s.len() ==> #[trigger] s[i].pts <= #[trigger] s[j].pts
}

/// Each later frame carries a strictly later timestamp.
pub open spec fn strictly_increasing_pts(s: Seq<Frame>) -> bool {
    forall|i: int, j: int| 0 <= i < j < s.len() ==> #[trigger] s[i].pts < #[trigger] s[j].pts
}

/// The position at which a frame with timestamp `p` is filed into `s`:
/// the first index whose frame is strictly later than `p`, so a new
/// frame lands after every frame already queued at the same timestamp.
pub open spec fn insert_index(s: Seq<Frame>, p: Timestamp) -> int
    decreases s.len(),
{
    if s.len() == 0 {
        0
    } else if s[0].pts <= p {
        1 + insert_index(s.drop_first(), p)
    } else {
        0
    }
}

/// The buffer's contents after filing `f` under its timestamp.
pub open spec fn published(s: Seq<Frame>, f: Frame) -> Seq<Frame> {
    s.insert(insert_index(s, f.pts), f)
}

/// The buffer's contents after dropping the oldest frames until no
/// more than `max` remain; the newest frames always survive.
pub open spec fn evicted(s: Seq<Frame>, max: int) -> Seq<Frame> {
    if s.len() > max {
        s.skip(s.len() - max)
    } else {
        s
    }
}

/// What `publish` owes when the buffer is full: live playback drops
/// the oldest queued frames to make room, while ordered delivery keeps
/// every frame and expects the producer to pause instead.
#[derive(Clone, Copy, PartialEq, Eq, Structural, Debug)]
pub enum BufferMode {
    DropOldest,
    KeepAll,
}

/// The shared, timestamp-ordered collection of pending frames between
/// the decode producer and the present consumer. The consumer always
/// removes the minimum timestamp first; the growth policy is an
/// explicit mode, never an implicit behavior of a call site.
pub struct FrameBuffer {
    frames: Vec<Frame>,
    mode: BufferMode,
    max_depth: usize,
}

impl View for FrameBuffer {
    type V = Seq<Frame>;

    closed spec fn view(&self) -> Seq<Frame> {
        self.frames@
    }
}

impl FrameBuffer {
    pub closed spec fn mode(&self) -> BufferMode {
        self.mode
    }

    pub closed spec fn depth(&self) -> int {
        self.max_depth as int
    }

    /// Well-formed buffer: contents sorted by timestamp, a positive
    /// depth bound, and, under drop-oldest eviction, never more than
    /// `depth` frames queued.
    pub open spec fn wf(&self) -> bool {
        &&& sorted_by_pts(self@)
        &&& self.depth() >= 1
        &&& (self.mode() == BufferMode::DropOldest ==> self@.len() <= self.depth())
    }

    pub fn new(mode: BufferMode, max_depth: usize) -> (r: FrameBuffer)
        requires
            max_depth >= 1,
        ensures
            r.wf(),
            r@ == Seq::<Frame>::empty(),
            r.mode() == mode,
            r.depth() == max_depth as int,
    {
        FrameBuffer { frames: Vec::new(), mode, max_depth }
    }

    pub fn len(&self) -> (r: usize)
        ensures
            r == self@.len(),
    {
        self.frames.len()
    }

    pub fn is_empty(&self) -> (r: bool)
        ensures
            r == (self@.len() == 0),
    {
        self.frames.len() == 0
    }

    /// Whether the buffer has reached its depth bound. In keep-all
    /// mode the producer pauses while this holds instead of dropping.
    pub fn is_full(&self) -> (r: bool)
        ensures
            r == (self@.len() >= self.depth()),
    {
        self.frames.len() >= self.max_depth
    }

    /// Insert `frame` under its timestamp, after any frames already
    /// queued at that timestamp. In drop-oldest mode the frames with
    /// the smallest timestamps are then dropped until the buffer is
    /// back within its depth bound.
    pub fn publish(&mut self, frame: Frame)
        requires
            old(self).wf(),
        ensures
            final(self).wf(),
            final(self).mode() == old(self).mode(),
            final(self).depth() == old(self).depth(),
            old(self).mode() == BufferMode::KeepAll ==> final(self)@ == published(
                old(self)@,
                frame,
            ),
            old(self).mode() == BufferMode::KeepAll ==> final(self)@.len() == old(self)@.len()
                + 1,
            old(self).mode() == BufferMode::KeepAll ==> final(self)@.to_multiset() == old(
                self,
            )@.to_multiset().insert(frame),
            old(self).mode() == BufferMode::DropOldest ==> final(self)@ == evicted(
                published(old(self)@, frame),
                old(self).depth(),
            ),
    {
        let ghost s0 = self.frames@;
        let n = self.frames.len();
        let mut i: usize = 0;
        while i < n && self.frames[i].pts <= frame.pts
            invariant
                i <= n,
                n == self.frames@.len(),
                self.frames@ == s0,
                forall|j: int| 0 <= j < i ==> #[trigger] s0[j].pts <= frame.pts,
            decreases n - i,
        {
            i = i + 1;
        }
        proof {
            lemma_insert_index_unique(s0, frame.pts, i as int);
            lemma_published_sorted(s0, frame);
        }
        self.frames.insert(i, frame);
        match self.mode {
            BufferMode::KeepAll => {},
            BufferMode::DropOldest => {
                if self.frames.len() > self.max_depth {
                    let ghost s1 = self.frames@;
                    self.frames.remove(0);
                    proof {
                        assert(self.frames@ =~= evicted(s1, self.max_depth as int));
                        lemma_sorted_skip(s1, 1);
                    }
                }
            },
        }
    }

    /// Remove and return the frame with the smallest timestamp, or
    /// nothing when the buffer is empty. Never blocks: an empty buffer
    /// is the consumer's idle state, not an error.
    pub fn take_earliest(&mut self) -> (r: Option<Frame>)
        requires
            old(self).wf(),
        ensures
            final(self).wf(),
            final(self).mode() == old(self).mode(),
            final(self).depth() == old(self).depth(),
            old(self)@.len() == 0 ==> r is None && final(self)@ == old(self)@,
            old(self)@.len() > 0 ==> r == Some(old(self)@[0]) && final(self)@ == old(
                self,
            )@.drop_first(),
            r matches Some(f) ==> forall|j: int|
                0 <= j < final(self)@.len() ==> f.pts <= #[trigger] final(self)@[j].pts,
    {
        if self.frames.len() == 0 {
            None
        } else {
            let f = self.frames.remove(0);
            proof {
                assert(self.frames@ =~= old(self)@.drop_first());
                lemma_sorted_skip(old(self)@, 1);
            }
            Some(f)
        }
    }
}

/// The index `insert_index` picks is the unique sorted position: every
/// frame before it is at or before `p`, and the frame at it (if any)
/// is strictly after `p`.
pub proof fn lemma_insert_index_props(s: Seq<Frame>, p: Timestamp)
    ensures
        0 <= insert_index(s, p) <= s.len(),
        forall|j: int| 0 <= j < insert_index(s, p) ==> #[trigger] s[j].pts <= p,
        insert_index(s, p) < s.len() ==> s[insert_index(s, p)].pts > p,
    decreases s.len(),
{
    if s.len() == 0 {
    } else if s[0].pts <= p {
        lemma_insert_index_props(s.drop_first(), p);
        assert forall|j: int| 0 <= j < insert_index(s, p) implies #[trigger] s[j].pts
            <= p by {
            if j > 0 {
                assert(s.drop_first()[j - 1] == s[j]);
            }
        }
        if insert_index(s, p) < s.len() {
            assert(s.drop_first()[insert_index(s, p) - 1] == s[insert_index(s, p)]);
        }
    } else {
    }
}

/// In a sorted buffer, any index with those two properties is exactly
/// `insert_index`; it lets the executable scan conclude it found it.
pub proof fn lemma_insert_index_unique(s: Seq<Frame>, p: Timestamp, i: int)
    requires
        sorted_by_pts(s),
        0 <= i <= s.len(),
        forall|j: int| 0 <= j < i ==> #[trigger] s[j].pts <= p,
        i < s.len() ==> s[i].pts > p,
    ensures
        i == insert_index(s, p),
{
    lemma_insert_index_props(s, p);
    let ii = insert_index(s, p);
    if i < ii {
        assert(s[i].pts <= p);
        assert(s[i].pts > p);
    } else if ii < i {
        assert(s[ii].pts <= p);
        assert(s[ii].pts > p);
    }
}

/// Publishing into a sorted buffer keeps it sorted, grows it by one
/// frame, and adds exactly that frame to its contents.
pub proof fn lemma_published_sorted(s: Seq<Frame>, f: Frame)
    requires
        sorted_by_pts(s),
    ensures
        sorted_by_pts(published(s, f)),
        published(s, f).len() == s.len() + 1,
        published(s, f).to_multiset() == s.to_multiset().insert(f),
{
    broadcast use vstd::seq_lib::to_multiset_insert;

    lemma_insert_index_props(s, f.pts);
    let ii = insert_index(s, f.pts);
    let t = published(s, f);
    s.insert_ensures(ii, f);
    assert forall|i: int, j: int| 0 <= i <= j < t.len() implies #[trigger] t[i].pts
        <= #[trigger] t[j].pts by {
        if i < ii {
            assert(t[i] == s[i]);
        } else if i > ii {
            assert(t[i] == s[i - 1]);
        }
        if j < ii {
            assert(t[j] == s[j]);
        } else if j > ii {
            assert(t[j] == s[j - 1]);
        }
        if i == ii && j > ii {
            assert(s[ii].pts > f.pts);
            assert(s[ii].pts <= s[j - 1].pts);
        }
        if j == ii && i < ii {
            assert(s[i].pts <= f.pts);
        }
    }
}

/// Dropping a prefix of a sorted buffer leaves it sorted.
pub proof fn lemma_sorted_skip(s: Seq<Frame>, n: int)
    requires
        sorted_by_pts(s),
        0 <= n <= s.len(),
    ensures
        sorted_by_pts(s.skip(n)),
{
    assert forall|i: int, j: int| 0 <= i <= j < s.skip(n).len() implies #[trigger] s.skip(n)[i].pts
        <= #[trigger] s.skip(n)[j].pts by {
        assert(s.skip(n)[i] == s[i + n]);
        assert(s.skip(n)[j] == s[j + n]);
    }
}

/// The buffer's contents after publishing each frame of `fs` in turn
/// under drop-oldest eviction with depth bound `max`.
pub open spec fn publish_all(s: Seq<Frame>, fs: Seq<Frame>, max: int) -> Seq<Frame>
    decreases fs.len(),
{
    if fs.len() == 0 {
        s
    } else {
        publish_all(evicted(published(s, fs[0]), max), fs.drop_first(), max)
    }
}

/// A frame at or after every queued timestamp is filed at the very
/// end of the buffer.
pub proof fn lemma_insert_index_at_end(s: Seq<Frame>, p: Timestamp)
    requires
        forall|j: int| 0 <= j < s.len() ==> #[trigger] s[j].pts <= p,
    ensures
        insert_index(s, p) == s.len(),
    decreases s.len(),
{
    if s.len() > 0 {
        assert forall|j: int| 0 <= j < s.drop_first().len() implies #[trigger] s.drop_first()[j].pts
            <= p by {
            assert(s.drop_first()[j] == s[j + 1]);
        }
        lemma_insert_index_at_end(s.drop_first(), p);
    }
}

/// Dropping a prefix does not change what eviction leaves, as long as
/// at least `max` frames survive the prefix drop.
pub proof fn lemma_evicted_skip(v: Seq<Frame>, a: int, max: int)
    requires
        max >= 1,
        0 <= a,
        a + max <= v.len(),
    ensures
        evicted(v.skip(a), max) == evicted(v, max),
{
    assert(evicted(v.skip(a), max) =~= evicted(v, max));
}

/// Evicting before or after appending more frames comes to the same
/// thing: eviction only ever discards frames that a later, fuller
/// buffer would have discarded anyway.
pub proof fn lemma_evicted_concat(t: Seq<Frame>, u: Seq<Frame>, max: int)
    requires
        max >= 1,
    ensures
        evicted(evicted(t, max) + u, max) == evicted(t + u, max),
{
    if t.len() > max {
        let a = t.len() - max;
        assert(evicted(t, max) + u =~= (t + u).skip(a));
        lemma_evicted_skip(t + u, a, max);
    } else {
        assert(evicted(t, max) + u =~= t + u);
    }
}

/// Publishing strictly newer frames into a sorted buffer that is
/// within its depth bound ends exactly as if all frames stood in one
/// line and eviction then kept the newest `max` of them.
pub proof fn lemma_publish_all_increasing(s: Seq<Frame>, fs: Seq<Frame>, max: int)
    requires
        max >= 1,
        sorted_by_pts(s),
        s.len() <= max,
        strictly_increasing_pts(fs),
        forall|i: int, j: int|
            0 <= i < s.len() && 0 <= j < fs.len() ==> #[trigger] s[i].pts < #[trigger] fs[j].pts,
    ensures
        publish_all(s, fs, max) == evicted(s + fs, max),
    decreases fs.len(),
{
    if fs.len() == 0 {
        assert(s + fs =~= s);
    } else {
        let f0 = fs[0];
        let rest = fs.drop_first();
        lemma_insert_index_at_end(s, f0.pts);
        let sp = published(s, f0);
        lemma_published_sorted(s, f0);
        let s1 = evicted(sp, max);
        if sp.len() > max {
            lemma_sorted_skip(sp, sp.len() - max);
        }
        assert forall|i: int, j: int|
            0 <= i < s1.len() && 0 <= j < rest.len() implies #[trigger] s1[i].pts
            < #[trigger] rest[j].pts by {
            let off: int = if sp.len() > max {
                sp.len() - max
            } else {
                0
            };
            assert(s1[i] == sp[i + off]);
            assert(rest[j] == fs[j + 1]);
            if i + off < s.len() {
                assert(sp[i + off] == s[i + off]);
            } else {
                assert(sp[i + off] == f0);
            }
        }
        assert forall|i: int, j: int| 0 <= i < j < rest.len() implies #[trigger] rest[i].pts
            < #[trigger] rest[j].pts by {
            assert(rest[i] == fs[i + 1]);
            assert(rest[j] == fs[j + 1]);
        }
        lemma_publish_all_increasing(s1, rest, max);
        lemma_evicted_concat(sp, rest, max);
        assert(sp + rest =~= s + fs);
    }
}

/// Law (eviction invariant): with depth bound `max` under drop-oldest
/// eviction, after publishing frames with strictly increasing
/// timestamps into an empty buffer, the buffer retains exactly the
/// most recent `max` of them; the oldest are dropped, never the
/// newest.
pub proof fn lemma_drop_oldest_retains_newest(fs: Seq<Frame>, max: int)
    requires
        max >= 1,
        strictly_increasing_pts(fs),
    ensures
        publish_all(Seq::<Frame>::empty(), fs, max) == evicted(fs, max),
        fs.len() >= max ==> publish_all(Seq::<Frame>::empty(), fs, max) == fs.skip(
            fs.len() - max,
        ),
{
    lemma_publish_all_increasing(Seq::<Frame>::empty(), fs, max);
    assert(Seq::<Frame>::empty() + fs =~= fs);
    if fs.len() == max {
        assert(evicted(fs, max) == fs);
        assert(fs.skip(0) =~= fs);
    }
}

/// Law: frames leave the buffer in non-decreasing timestamp order.
/// Whatever order timestamps were published in, the frame a later
/// `take_earliest` returns never carries an earlier timestamp than the
/// frame a sooner one returned.
pub proof fn lemma_extraction_order(b: &FrameBuffer, i: int, j: int)
    requires
        b.wf(),
        0 <= i <= j < b@.len(),
    ensures
        b@[i].pts <= b@[j].pts,
{
}

} // verus!
