use vstd::prelude::*;

use crate::frame::{Frame, FrameView};
use crate::medium::Medium;

verus! {

/// How often a progress line may be emitted, in frames.
pub const PROGRESS_INTERVAL: u64 = 100;

/// Terminal summary of one producer stream: how many inbound messages were
/// successfully turned into frames, and a closing status text.
pub struct Summary {
    pub total_count: u64,
    pub status: String,
}

impl Summary {
    pub open spec fn wf(self) -> bool {
        self.status@ == closing_status()
    }
}

/// The status text a gracefully ended stream reports.
pub open spec fn closing_status() -> Seq<char> {
    "Stream Ended"@
}

/// Bookkeeping for the single accepted producer stream: every inbound
/// message that deserialized into a frame is published and counted, whether
/// or not any subscriber is there to receive it.
pub struct Ingest {
    pub count: u64,
    pub frames: Ghost<Seq<FrameView>>,
}

impl Ingest {
    /// The frames received so far, in arrival order.
    pub open spec fn received(self) -> Seq<FrameView> {
        self.frames@
    }

    /// The running counter is exactly the number of frames received.
    pub open spec fn wf(self) -> bool {
        self.count == self.received().len()
    }

    pub fn new() -> (ing: Ingest)
        ensures
            ing.wf(),
            ing.received() == Seq::<FrameView>::empty(),
    {
        Ingest { count: 0, frames: Ghost(Seq::empty()) }
    }

    pub fn count(&self) -> (n: u64)
        ensures
            n == self.count,
    {
        self.count
    }

    /// One inbound message, already deserialized into a frame: publish it to
    /// the medium and count it. Counting does not depend on any subscriber
    /// state — the medium records the publish whether or not anyone reads it.
    pub fn on_frame(&mut self, medium: &mut Medium, frame: Frame)
        requires
            old(self).wf(),
            old(medium).wf(),
            old(self).count < u64::MAX,
            old(medium)@.published.len() < u64::MAX,
        ensures
            final(self).wf(),
            final(medium).wf(),
            final(self).received() == old(self).received().push(frame@),
            final(self).count == old(self).count + 1,
            final(medium)@ == old(medium)@.publish(frame@),
    {
        let ghost fv = frame@;
        medium.publish(frame);
        self.count = self.count + 1;
        proof {
            self.frames@ = self.frames@.push(fv);
        }
    }

    /// Whether a periodic progress line is due at the current count. Purely
    /// an observability aid; it has no effect on counting or publishing.
    pub fn progress_due(&self) -> (due: bool)
        ensures
            due == (self.count % PROGRESS_INTERVAL == 0),
    {
        self.count % PROGRESS_INTERVAL == 0
    }

    /// Graceful end of the inbound stream: the terminal summary. Its count
    /// is exactly the number of inbound messages successfully deserialized,
    /// regardless of how many observers (zero or more) were connected.
    pub fn finish(self) -> (s: Summary)
        requires
            self.wf(),
        ensures
            s.wf(),
            s.total_count == self.received().len(),
            s.status@ == closing_status(),
    {
        Summary { total_count: self.count, status: closing_status_text() }
    }
}

/// A whole producer stream whose messages all arrived and deserialized:
/// publish every frame in arrival order and return the terminal summary.
/// The summary counts exactly the inbound frames, however many subscribers
/// (zero included) were attached to the medium meanwhile.
pub fn run_stream(medium: &mut Medium, inbound: Vec<Frame>) -> (s: Summary)
    requires
        old(medium).wf(),
        old(medium)@.published.len() + inbound@.len() < u64::MAX,
    ensures
        final(medium).wf(),
        final(medium)@ == old(medium)@.publish_all(inbound@.map_values(|f: Frame| f@)),
        s.wf(),
        s.total_count == inbound@.len(),
{
    let ghost views = inbound@.map_values(|f: Frame| f@);
    proof {
        assert(Seq::<FrameView>::empty() =~= views.subrange(0, 0));
    }
    let mut ing = Ingest::new();
    let mut i: usize = 0;
    while i < inbound.len()
        invariant
            ing.wf(),
            medium.wf(),
            i <= inbound@.len(),
            views == inbound@.map_values(|f: Frame| f@),
            old(medium)@.published.len() + inbound@.len() < u64::MAX,
            ing.count == i,
            ing.received() == views.subrange(0, i as int),
            medium@ == old(medium)@.publish_all(views.subrange(0, i as int)),
            medium@.published.len() == old(medium)@.published.len() + i,
        decreases inbound@.len() - i,
    {
        let frame = inbound[i].clone();
        proof {
            assert(frame@ == views[i as int]);
        }
        ing.on_frame(medium, frame);
        i = i + 1;
        proof {
            crate::medium::lemma_publish_all_snoc(
                old(medium)@,
                views.subrange(0, i - 1),
                views[i - 1],
            );
            assert(views.subrange(0, i - 1).push(views[i - 1]) =~= views.subrange(0, i as int));
        }
    }
    proof {
        assert(views.subrange(0, i as int) =~= views);
    }
    ing.finish()
}

/// The closing status as an exec value.
fn closing_status_text() -> (s: String)
    ensures
        s@ == closing_status(),
{
    String::from_str("Stream Ended")
}

} // verus!
