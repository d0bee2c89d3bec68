use vstd::prelude::*;
use crate::buffer::{
    evicted, insert_index, lemma_insert_index_props, published, BufferMode, FrameBuffer,
};
use crate::frame::Frame;
use crate::metadata::Timestamp;

verus! {

/// The timestamp a decoded frame is published under: what the decoder
/// reported, or zero when it reported none.
pub open spec fn effective_pts_spec(reported: Option<Timestamp>) -> Timestamp {
    match reported {
        Some(p) => p,
        None => 0,
    }
}

pub fn effective_pts(reported: Option<Timestamp>) -> (r: Timestamp)
    ensures
        r == effective_pts_spec(reported),
{
    match reported {
        Some(p) => p,
        None => 0,
    }
}

/// Whether a frame survives the seek filter: after a seek, every
/// frame earlier than the target is discarded rather than published,
/// so playback never visually jumps backward.
pub open spec fn passes_seek_spec(target: Option<Timestamp>, pts: Timestamp) -> bool {
    match target {
        Some(t) => pts >= t,
        None => true,
    }
}

pub fn passes_seek(target: Option<Timestamp>, pts: Timestamp) -> (r: bool)
    ensures
        r == passes_seek_spec(target, pts),
{
    match target {
        Some(t) => pts >= t,
        None => true,
    }
}

/// The buffer's contents after the producer handles one decoded
/// frame: published under the buffer's mode when it passes the seek
/// filter, untouched when it is discarded.
pub open spec fn delivered(
    s: Seq<Frame>,
    f: Frame,
    target: Option<Timestamp>,
    mode: BufferMode,
    max: int,
) -> Seq<Frame> {
    if passes_seek_spec(target, f.pts) {
        match mode {
            BufferMode::KeepAll => published(s, f),
            BufferMode::DropOldest => evicted(published(s, f), max),
        }
    } else {
        s
    }
}

/// The buffer's contents after the producer handles each decoded
/// frame of `fs` in turn.
pub open spec fn produced(
    s: Seq<Frame>,
    fs: Seq<Frame>,
    target: Option<Timestamp>,
    mode: BufferMode,
    max: int,
) -> Seq<Frame>
    decreases fs.len(),
{
    if fs.len() == 0 {
        s
    } else {
        produced(delivered(s, fs[0], target, mode, max), fs.drop_first(), target, mode, max)
    }
}

/// Hand one decoded frame to the buffer, honoring the seek filter.
/// Returns whether the frame was published or discarded.
pub fn deliver_frame(buf: &mut FrameBuffer, target: Option<Timestamp>, frame: Frame) -> (r: bool)
    requires
        old(buf).wf(),
    ensures
        final(buf).wf(),
        final(buf).mode() == old(buf).mode(),
        final(buf).depth() == old(buf).depth(),
        r == passes_seek_spec(target, frame.pts),
        final(buf)@ == delivered(old(buf)@, frame, target, old(buf).mode(), old(buf).depth()),
    {
    if passes_seek(target, frame.pts) {
        buf.publish(frame);
        true
    } else {
        false
    }
}

/// Publish a whole run of decoded frames, in decode order, through
/// the seek filter: the verified body of the producer's inner loop,
/// with the decode session itself left to the caller.
pub fn run_producer(buf: &mut FrameBuffer, decoded: Vec<Frame>, target: Option<Timestamp>)
    requires
        old(buf).wf(),
    ensures
        final(buf).wf(),
        final(buf).mode() == old(buf).mode(),
        final(buf).depth() == old(buf).depth(),
        final(buf)@ == produced(
            old(buf)@,
            decoded@,
            target,
            old(buf).mode(),
            old(buf).depth(),
        ),
{
    let ghost all = decoded@;
    let mut rest = decoded;
    while rest.len() > 0
        invariant
            buf.wf(),
            buf.mode() == old(buf).mode(),
            buf.depth() == old(buf).depth(),
            produced(buf@, rest@, target, buf.mode(), buf.depth()) == produced(
                old(buf)@,
                all,
                target,
                old(buf).mode(),
                old(buf).depth(),
            ),
        decreases rest@.len(),
    {
        let ghost r0 = rest@;
        let f = rest.remove(0);
        proof {
            assert(rest@ =~= r0.drop_first());
        }
        deliver_frame(buf, target, f);
    }
}

/// Every frame of `s` is at or after timestamp `t`.
pub open spec fn all_pts_at_least(s: Seq<Frame>, t: Timestamp) -> bool {
    forall|i: int| 0 <= i < s.len() ==> #[trigger] s[i].pts >= t
}

/// Delivering one frame through the seek filter for target `t` never
/// lets a frame earlier than `t` into the buffer.
pub proof fn lemma_delivered_pts_at_least(
    s: Seq<Frame>,
    f: Frame,
    t: Timestamp,
    mode: BufferMode,
    max: int,
)
    requires
        all_pts_at_least(s, t),
        max >= 1,
    ensures
        all_pts_at_least(delivered(s, f, Some(t), mode, max), t),
{
    if passes_seek_spec(Some(t), f.pts) {
        let ii = insert_index(s, f.pts);
        lemma_insert_index_props(s, f.pts);
        s.insert_ensures(ii, f);
        let sp = published(s, f);
        assert forall|i: int| 0 <= i < sp.len() implies #[trigger] sp[i].pts >= t by {
            if i < ii {
                assert(sp[i] == s[i]);
            } else if i > ii {
                assert(sp[i] == s[i - 1]);
            }
        }
        if mode == BufferMode::DropOldest && sp.len() > max {
            let off = sp.len() - max;
            assert forall|i: int| 0 <= i < evicted(sp, max).len() implies #[trigger] evicted(
                sp,
                max,
            )[i].pts >= t by {
                assert(evicted(sp, max)[i] == sp[i + off]);
            }
        }
    }
}

/// Law (seek discard): after a seek to target `t`, no frame with a
/// timestamp earlier than `t` is ever published. Starting from a
/// buffer holding only frames at or after `t`, however many decoded
/// frames the producer handles, the buffer never holds an earlier
/// frame.
pub proof fn lemma_seek_discard(
    s: Seq<Frame>,
    fs: Seq<Frame>,
    t: Timestamp,
    mode: BufferMode,
    max: int,
)
    requires
        all_pts_at_least(s, t),
        max >= 1,
    ensures
        all_pts_at_least(produced(s, fs, Some(t), mode, max), t),
    decreases fs.len(),
{
    if fs.len() > 0 {
        lemma_delivered_pts_at_least(s, fs[0], t, mode, max);
        lemma_seek_discard(delivered(s, fs[0], Some(t), mode, max), fs.drop_first(), t, mode, max);
    }
}

/// What the producer observes at the top of one loop iteration.
#[derive(Clone, Copy, PartialEq, Eq, Structural, Debug)]
pub enum ProducerEvent {
    /// The cancellation token was observed set.
    Cancelled,
    /// The source yielded no more packets.
    EndOfSource,
    /// A packet arrived; whether it belongs to the selected video stream.
    Packet { video_stream: bool },
    /// Decoding the current packet failed (recoverable, per packet).
    DecodeFailed,
}

/// What the producer does next.
#[derive(Clone, Copy, PartialEq, Eq, Structural, Debug)]
pub enum ProducerAction {
    /// Submit the packet, drain every ready frame, publish each
    /// through the seek filter, pacing between frames.
    DecodePacket,
    /// Skip this packet and continue with the next.
    SkipPacket,
    /// Leave the loop: source exhausted or cancellation observed.
    Stop,
}

/// The producer's decision table. Cancellation is honored at every
/// iteration, not once per run; a failed decode skips only that
/// packet; packets of other streams are ignored.
pub open spec fn producer_decision(ev: ProducerEvent) -> ProducerAction {
    match ev {
        ProducerEvent::Cancelled => ProducerAction::Stop,
        ProducerEvent::EndOfSource => ProducerAction::Stop,
        ProducerEvent::Packet { video_stream } => if video_stream {
            ProducerAction::DecodePacket
        } else {
            ProducerAction::SkipPacket
        },
        ProducerEvent::DecodeFailed => ProducerAction::SkipPacket,
    }
}

pub fn producer_step(ev: ProducerEvent) -> (a: ProducerAction)
    ensures
        a == producer_decision(ev),
{
    match ev {
        ProducerEvent::Cancelled => ProducerAction::Stop,
        ProducerEvent::EndOfSource => ProducerAction::Stop,
        ProducerEvent::Packet { video_stream } => if video_stream {
            ProducerAction::DecodePacket
        } else {
            ProducerAction::SkipPacket
        },
        ProducerEvent::DecodeFailed => ProducerAction::SkipPacket,
    }
}

} // verus!
