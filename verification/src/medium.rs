use vstd::prelude::*;

use crate::frame::{Frame, FrameView};

verus! {

/// Outcome of asking the medium for the frame after a given position.
pub ghost enum PollModel {
    /// No frame newer than the position has been published yet.
    Pending,
    /// The position fell behind the oldest retained frame; `skipped` frames
    /// were evicted before they could be read from this position.
    Lagged { skipped: int },
    /// The next frame in publish order.
    Ready { frame: FrameView },
}

/// Mathematical model of the broadcast medium: its fixed capacity and the
/// full sequence of frames ever published, oldest first. Only the last
/// `capacity` entries are retained by the implementation; the rest exist
/// only in this model.
pub ghost struct MediumModel {
    pub capacity: nat,
    pub published: Seq<FrameView>,
}

impl MediumModel {
    pub open spec fn wf(self) -> bool {
        self.capacity > 0
    }

    /// How many of the published frames are still retained.
    pub open spec fn retained(self) -> nat {
        if self.published.len() <= self.capacity {
            self.published.len()
        } else {
            self.capacity
        }
    }

    /// Index in `published` of the oldest frame still retained.
    pub open spec fn oldest(self) -> int {
        self.published.len() - self.retained()
    }

    /// Effect of one publish: the frame is appended to the history (and, in
    /// the implementation, the oldest retained frame is evicted if the ring
    /// is full).
    pub open spec fn publish(self, f: FrameView) -> MediumModel {
        MediumModel { capacity: self.capacity, published: self.published.push(f) }
    }

    /// Effect of publishing a whole sequence of frames, in order.
    pub open spec fn publish_all(self, fs: Seq<FrameView>) -> MediumModel
        decreases fs.len(),
    {
        if fs.len() == 0 {
            self
        } else {
            self.publish(fs[0]).publish_all(fs.drop_first())
        }
    }

    /// What polling at position `pos` yields.
    pub open spec fn poll_outcome(self, pos: int) -> PollModel {
        if pos >= self.published.len() {
            PollModel::Pending
        } else if pos < self.oldest() {
            PollModel::Lagged { skipped: self.oldest() - pos }
        } else {
            PollModel::Ready { frame: self.published[pos] }
        }
    }

    /// Where a cursor at position `pos` stands after one poll: unchanged
    /// while pending, advanced by one on a delivery, and snapped forward to
    /// the oldest retained frame on a lag.
    pub open spec fn poll_pos(self, pos: int) -> int {
        if pos >= self.published.len() {
            pos
        } else if pos < self.oldest() {
            self.oldest()
        } else {
            pos + 1
        }
    }
}

/// Publishing a sequence of frames appends it to the history, whole, and
/// never changes the capacity.
pub proof fn lemma_publish_all_appends(m: MediumModel, fs: Seq<FrameView>)
    ensures
        m.publish_all(fs).capacity == m.capacity,
        m.publish_all(fs).published == m.published + fs,
    decreases fs.len(),
{
    if fs.len() == 0 {
        assert(m.published + fs =~= m.published);
    } else {
        lemma_publish_all_appends(m.publish(fs[0]), fs.drop_first());
        assert(m.publish(fs[0]).published + fs.drop_first() =~= m.published + fs);
    }
}

/// Publishing a sequence and then one more frame is publishing the extended
/// sequence.
pub proof fn lemma_publish_all_snoc(m: MediumModel, fs: Seq<FrameView>, f: FrameView)
    ensures
        m.publish_all(fs.push(f)) == m.publish_all(fs).publish(f),
    decreases fs.len(),
{
    if fs.len() == 0 {
        assert(fs.push(f)[0] == f);
        assert(fs.push(f).drop_first() =~= Seq::<FrameView>::empty());
        assert(m.publish_all(fs.push(f)) == m.publish(f).publish_all(
            Seq::<FrameView>::empty(),
        ));
        assert(m.publish(f).publish_all(Seq::<FrameView>::empty()) == m.publish(f));
        assert(m.publish_all(fs) == m);
    } else {
        assert(fs.push(f)[0] == fs[0]);
        assert(fs.push(f).drop_first() =~= fs.drop_first().push(f));
        lemma_publish_all_snoc(m.publish(fs[0]), fs.drop_first(), f);
        assert(m.publish_all(fs.push(f)) == m.publish(fs[0]).publish_all(
            fs.drop_first().push(f),
        ));
        assert(m.publish_all(fs) == m.publish(fs[0]).publish_all(fs.drop_first()));
    }
}

/// A subscriber's position: the sequence number of the next frame it has not
/// yet consumed.
pub struct Cursor {
    pub pos: u64,
}

impl View for Cursor {
    type V = int;

    open spec fn view(&self) -> int {
        self.pos as int
    }
}

/// Exec-level outcome of one poll; its view is the model outcome.
pub enum Poll {
    Pending,
    Lagged(u64),
    Ready(Frame),
}

impl View for Poll {
    type V = PollModel;

    open spec fn view(&self) -> PollModel {
        match self {
            Poll::Pending => PollModel::Pending,
            Poll::Lagged(n) => PollModel::Lagged { skipped: *n as int },
            Poll::Ready(f) => PollModel::Ready { frame: f@ },
        }
    }
}

/// The bounded broadcast medium: a ring of the `capacity` most recently
/// published frames plus a monotonically increasing publish sequence number.
/// Publishing never blocks and never fails, whatever the number or speed of
/// subscribers; a subscriber that falls more than `capacity` behind has
/// unrecoverably lost the evicted frames.
pub struct Medium {
    pub capacity: usize,
    pub buffer: Vec<Frame>,
    pub next_seq: u64,
    pub published: Ghost<Seq<FrameView>>,
}

impl View for Medium {
    type V = MediumModel;

    open spec fn view(&self) -> MediumModel {
        MediumModel { capacity: self.capacity as nat, published: self.published@ }
    }
}

impl Medium {
    /// The ring really holds the last `retained()` published frames, oldest
    /// first, and the sequence number counts every publish ever made.
    pub open spec fn wf(self) -> bool {
        &&& self.capacity > 0
        &&& self.next_seq == self@.published.len()
        &&& self.buffer@.len() == self@.retained()
        &&& forall|i: int|
            0 <= i < self.buffer@.len() ==> self.buffer@[i]@ == self@.published[self@.oldest() + i]
    }

    pub fn new(capacity: usize) -> (m: Medium)
        requires
            capacity > 0,
        ensures
            m.wf(),
            m@.capacity == capacity as nat,
            m@.published == Seq::<FrameView>::empty(),
    {
        Medium { capacity, buffer: Vec::new(), next_seq: 0, published: Ghost(Seq::empty()) }
    }

    /// Appends the frame, evicting the oldest retained one if the ring is
    /// full, and advances the sequence number. Succeeds unconditionally: it
    /// has no precondition about subscribers (there may be none) and never
    /// waits for any of them; the only bound is the machine limit on the
    /// sequence counter.
    pub fn publish(&mut self, frame: Frame)
        requires
            old(self).wf(),
            old(self)@.published.len() < u64::MAX,
        ensures
            final(self).wf(),
            final(self)@ == old(self)@.publish(frame@),
    {
        if self.buffer.len() == self.capacity {
            self.buffer.remove(0);
        }
        self.buffer.push(frame);
        self.next_seq = self.next_seq + 1;
        proof {
            self.published@ = self.published@.push(frame@);
        }
    }

    /// A fresh cursor positioned at the current sequence number: a new
    /// subscriber sees only frames published after it joined, no history.
    pub fn subscribe(&self) -> (c: Cursor)
        requires
            self.wf(),
        ensures
            c@ == self@.published.len(),
    {
        Cursor { pos: self.next_seq }
    }

    /// One non-blocking delivery attempt for `cursor`: the next frame in
    /// publish order if one is retained, `Pending` if the cursor is at the
    /// head, and `Lagged` with the exact number of evicted-unread frames if
    /// the cursor fell behind the ring (the cursor then snaps to the oldest
    /// retained frame).
    pub fn poll(&self, cursor: &mut Cursor) -> (r: Poll)
        requires
            self.wf(),
        ensures
            r@ == self@.poll_outcome(old(cursor)@),
            final(cursor)@ == self@.poll_pos(old(cursor)@),
    {
        let oldest: u64 = self.next_seq - self.buffer.len() as u64;
        if cursor.pos >= self.next_seq {
            Poll::Pending
        } else if cursor.pos < oldest {
            let skipped = oldest - cursor.pos;
            cursor.pos = oldest;
            Poll::Lagged(skipped)
        } else {
            let idx = (cursor.pos - oldest) as usize;
            let f = self.buffer[idx].clone();
            cursor.pos = cursor.pos + 1;
            Poll::Ready(f)
        }
    }
}

} // verus!
