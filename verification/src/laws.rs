use vstd::prelude::*;

use crate::frame::FrameView;
use crate::medium::{lemma_publish_all_appends, MediumModel, PollModel};
use crate::session::Session;

verus! {

/// A subscriber whose cursor stands at the head before a burst of at most
/// `capacity` frames is published observes, over its next polls, exactly
/// those frames in publish order — each poll delivers the next one and
/// advances the cursor by one — and after them finds the medium pending.
pub proof fn lemma_window_delivered_in_order(m0: MediumModel, frames: Seq<FrameView>, pos: int)
    requires
        m0.wf(),
        pos == m0.published.len(),
        frames.len() <= m0.capacity,
    ensures
        forall|i: int|
            0 <= i < frames.len() ==> #[trigger] m0.publish_all(frames).poll_outcome(pos + i)
                == (PollModel::Ready { frame: frames[i] }),
        forall|i: int|
            0 <= i < frames.len() ==> #[trigger] m0.publish_all(frames).poll_pos(pos + i) == pos + i
                + 1,
        m0.publish_all(frames).poll_outcome(pos + frames.len()) is Pending,
{
    lemma_publish_all_appends(m0, frames);
    let m1 = m0.publish_all(frames);
    assert(m1.published.len() == pos + frames.len());
    assert(m1.oldest() <= pos);
    assert forall|i: int|
        0 <= i < frames.len() implies #[trigger] m1.poll_outcome(pos + i) == (PollModel::Ready {
        frame: frames[i],
    }) by {
        assert(m1.published[pos + i] == frames[i]);
    }
}

/// A poll can only ever deliver the frame standing at the cursor's own
/// position, and never moves the cursor backwards. So a cursor that starts
/// at the join point can never be handed a frame published before the join.
pub proof fn lemma_no_delivery_before_join(mm: MediumModel, join: int, pos: int)
    requires
        join <= pos,
    ensures
        mm.poll_outcome(pos) matches PollModel::Ready { frame } ==> frame == mm.published[pos],
        mm.poll_pos(pos) >= pos,
{
}

/// Everything a session has delivered is the contiguous run of published
/// frames that starts at its join point: in publish order, without gaps, and
/// containing nothing published before the session joined. In particular a
/// session can never silently resume past a gap.
pub proof fn lemma_delivered_contiguous_from_join(s: Session, mm: MediumModel)
    requires
        s.wf(mm),
    ensures
        0 <= s.join@,
        s.join@ + s.delivered@.len() <= mm.published.len(),
        forall|i: int|
            0 <= i < s.delivered@.len() ==> s.delivered@[i] == mm.published[s.join@ + i],
{
    assert forall|i: int|
        0 <= i < s.delivered@.len() implies s.delivered@[i] == mm.published[s.join@ + i] by {
        assert(s.delivered@[i] == s.seen()[i]);
        assert(s.seen()[i] == mm.published.subrange(s.join@, s.join@ + s.seen().len() as int)[i]);
    }
}

/// Publish order is total and global: any two sessions on the same medium
/// agree on every frame position they both received — all subscribers
/// observe the published frames in the same relative order.
pub proof fn lemma_subscribers_agree_on_order(a: Session, b: Session, mm: MediumModel)
    requires
        a.wf(mm),
        b.wf(mm),
    ensures
        forall|i: int, j: int|
            0 <= i < a.delivered@.len() && 0 <= j < b.delivered@.len() && a.join@ + i == b.join@
                + j ==> a.delivered@[i] == b.delivered@[j],
{
    lemma_delivered_contiguous_from_join(a, mm);
    lemma_delivered_contiguous_from_join(b, mm);
}

/// A cursor that fell more than `capacity` behind the head fails with
/// `Lagged`, carrying exactly the number of frames that were evicted before
/// it could read them — and that number is positive: the lag is reported,
/// never papered over.
pub proof fn lemma_lag_detected(mm: MediumModel, pos: int)
    requires
        mm.wf(),
        0 <= pos,
        mm.published.len() - pos > mm.capacity,
    ensures
        mm.poll_outcome(pos) == (PollModel::Lagged {
            skipped: mm.published.len() - mm.capacity - pos,
        }),
        mm.published.len() - mm.capacity - pos > 0,
{
    assert(mm.oldest() == mm.published.len() - mm.capacity);
}

} // verus!
