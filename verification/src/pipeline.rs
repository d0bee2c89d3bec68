use vstd::prelude::*;
use vstd::multiset::Multiset;
use crate::buffer::{
    lemma_insert_index_props, published, sorted_by_pts, BufferMode, FrameBuffer,
};
use crate::frame::Frame;
use crate::metadata::Timestamp;
use crate::producer::{
    all_pts_at_least, lemma_seek_discard, produced, run_producer,
};

verus! {

/// Withdraw every queued frame, in presentation order: the shape of
/// the consumer's repeated `take_earliest` loop. The result is the
/// buffer's entire contents, earliest timestamp first, and the buffer
/// is empty afterwards: each queued frame is presented exactly once.
pub fn drain_all(buf: &mut FrameBuffer) -> (r: Vec<Frame>)
    requires
        old(buf).wf(),
    ensures
        final(buf).wf(),
        final(buf).mode() == old(buf).mode(),
        final(buf).depth() == old(buf).depth(),
        final(buf)@.len() == 0,
        r@ == old(buf)@,
        sorted_by_pts(r@),
{
    let mut out: Vec<Frame> = Vec::new();
    proof {
        assert(out@ + buf@ =~= old(buf)@);
    }
    while buf.len() > 0
        invariant
            buf.wf(),
            buf.mode() == old(buf).mode(),
            buf.depth() == old(buf).depth(),
            out@ + buf@ == old(buf)@,
        decreases buf@.len(),
    {
        let ghost b0 = buf@;
        let ghost o0 = out@;
        if let Some(f) = buf.take_earliest() {
            out.push(f);
            proof {
                assert(out@ + buf@ =~= o0 + b0);
            }
        }
    }
    proof {
        assert(out@ =~= old(buf)@);
    }
    out
}

/// Publishing a run of frames into an empty keep-all buffer loses
/// nothing and invents nothing: the buffer ends holding exactly the
/// frames of the run, one each.
pub proof fn lemma_produced_keepall_multiset(s: Seq<Frame>, fs: Seq<Frame>, max: int)
    ensures
        produced(s, fs, None, BufferMode::KeepAll, max).len() == s.len() + fs.len(),
        produced(s, fs, None, BufferMode::KeepAll, max).to_multiset() == s.to_multiset().add(
            fs.to_multiset(),
        ),
    decreases fs.len(),
{
    broadcast use vstd::seq_lib::group_to_multiset_ensures;
    broadcast use vstd::seq_lib::to_multiset_insert;
    broadcast use vstd::multiset::group_multiset_axioms;

    if fs.len() == 0 {
        assert(fs.to_multiset() =~= Multiset::<Frame>::empty());
        assert(s.to_multiset().add(fs.to_multiset()) =~= s.to_multiset());
    } else {
        let f0 = fs[0];
        let rest = fs.drop_first();
        lemma_insert_index_props(s, f0.pts);
        lemma_produced_keepall_multiset(published(s, f0), rest, max);
        assert(fs.remove(0) =~= rest);
        assert(rest.to_multiset() == fs.to_multiset().remove(f0));
        assert(fs.to_multiset().count(f0) > 0) by {
            assert(fs.contains(f0));
        }
        assert(s.to_multiset().insert(f0).add(fs.to_multiset().remove(f0)) =~= s.to_multiset().add(
            fs.to_multiset(),
        ));
    }
}

/// The whole pipeline run against a synthetic, already-decoded
/// source: the producer publishes every frame through the seek
/// filter into a fresh buffer, then the consumer withdraws everything
/// in presentation order. What comes out is sorted by timestamp; with
/// a seek target no earlier frame ever appears; and with no seek and
/// no drops configured, the presented frames are exactly the decoded
/// ones, reordered into non-decreasing timestamp order.
pub fn play_synthetic(
    decoded: Vec<Frame>,
    target: Option<Timestamp>,
    mode: BufferMode,
    max_depth: usize,
) -> (r: Vec<Frame>)
    requires
        max_depth >= 1,
    ensures
        r@ == produced(Seq::<Frame>::empty(), decoded@, target, mode, max_depth as int),
        sorted_by_pts(r@),
        target matches Some(t) ==> all_pts_at_least(r@, t),
        mode == BufferMode::KeepAll && target is None ==> r@.len() == decoded@.len()
            && r@.to_multiset() == decoded@.to_multiset(),
{
    let ghost ds = decoded@;
    let mut buf = FrameBuffer::new(mode, max_depth);
    run_producer(&mut buf, decoded, target);
    proof {
        broadcast use vstd::seq_lib::group_to_multiset_ensures;
        broadcast use vstd::multiset::group_multiset_axioms;

        if target is Some {
            lemma_seek_discard(
                Seq::<Frame>::empty(),
                ds,
                target->Some_0,
                mode,
                max_depth as int,
            );
        }
        if mode == BufferMode::KeepAll && target is None {
            lemma_produced_keepall_multiset(Seq::<Frame>::empty(), ds, max_depth as int);
            assert(Seq::<Frame>::empty().to_multiset() =~= Multiset::<Frame>::empty());
            assert(Multiset::<Frame>::empty().add(ds.to_multiset()) =~= ds.to_multiset());
        }
    }
    drain_all(&mut buf)
}

} // verus!
