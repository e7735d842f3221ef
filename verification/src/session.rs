use vstd::prelude::*;

use crate::frame::{Frame, FrameView};
use crate::medium::{lemma_publish_all_appends, Medium, MediumModel, PollModel};
use crate::medium::{Cursor, Poll};

verus! {

/// The lifecycle of one observer's connection.
#[derive(Clone, Copy, PartialEq, Eq, Debug)]
pub enum SessionState {
    /// Cursor obtained; delivery has not begun.
    Subscribed,
    /// In the delivery loop.
    Delivering,
    /// Terminal: a write to the observer's sink failed — the observer is
    /// gone. The cursor is released and the sink closed.
    Disconnected,
    /// Terminal: the cursor fell more than the medium's capacity behind and
    /// frames were lost; the session ends rather than resuming at a gap.
    LaggedTerminated,
}

/// What the loop around a session must do after one step.
pub enum SessionCmd {
    /// Serialize this frame, write it to the observer's sink, and report the
    /// outcome with `on_write_result`.
    Send(Frame),
    /// Nothing new yet: wait for publish activity, then step again.
    Wait,
    /// The session ended: release the cursor and close the sink.
    Stop,
}

/// One observer's independent delivery session: its cursor into the
/// broadcast medium, its lifecycle state, and (in the model) where it
/// joined, which frame is in flight to the sink, and what was delivered.
pub struct Session {
    pub state: SessionState,
    pub cursor: Cursor,
    pub join: Ghost<int>,
    pub inflight: Ghost<Option<FrameView>>,
    pub delivered: Ghost<Seq<FrameView>>,
}

impl Session {
    /// The frames handed to (or in flight to) the observer, in order.
    pub open spec fn seen(self) -> Seq<FrameView> {
        self.delivered@ + (match self.inflight@ {
            Some(f) => seq![f],
            None => Seq::<FrameView>::empty(),
        })
    }

    pub open spec fn live(self) -> bool {
        self.state == SessionState::Subscribed || self.state == SessionState::Delivering
    }

    /// What every session satisfies against the medium it subscribed to:
    /// everything it was handed is exactly the contiguous run of published
    /// frames that starts where it joined — in publish order, without gaps,
    /// and with nothing from before it joined. While the session is live its
    /// cursor stands right after that run.
    pub open spec fn wf(self, mm: MediumModel) -> bool {
        &&& 0 <= self.join@
        &&& self.join@ + self.seen().len() <= mm.published.len()
        &&& self.seen() == mm.published.subrange(
            self.join@,
            self.join@ + self.seen().len() as int,
        )
        &&& self.live() ==> self.cursor@ == self.join@ + self.seen().len()
        &&& self.state == SessionState::Subscribed ==> self.seen().len() == 0
        &&& self.inflight@ is Some ==> self.state == SessionState::Delivering
    }

    /// Created when an observer's connection is accepted: subscribes to the
    /// medium. The cursor starts at the current head, so nothing published
    /// before the join can ever be delivered to this session.
    pub fn accept(medium: &Medium) -> (s: Session)
        requires
            medium.wf(),
        ensures
            s.wf(medium@),
            s.state == SessionState::Subscribed,
            s.join@ == medium@.published.len(),
            s.delivered@ == Seq::<FrameView>::empty(),
            s.inflight@ is None,
    {
        let cursor = medium.subscribe();
        let s = Session {
            state: SessionState::Subscribed,
            cursor,
            join: Ghost(medium@.published.len() as int),
            inflight: Ghost(None),
            delivered: Ghost(Seq::empty()),
        };
        proof {
            assert(s.seen() =~= Seq::<FrameView>::empty());
            assert(s.seen() =~= medium@.published.subrange(s.join@, s.join@));
        }
        s
    }

    /// Enters the delivery loop.
    pub fn begin_delivery(&mut self)
        requires
            old(self).state == SessionState::Subscribed,
        ensures
            final(self).state == SessionState::Delivering,
            final(self).cursor == old(self).cursor,
            final(self).join == old(self).join,
            final(self).inflight == old(self).inflight,
            final(self).delivered == old(self).delivered,
            forall|mm: MediumModel| old(self).wf(mm) ==> final(self).wf(mm),
    {
        self.state = SessionState::Delivering;
    }

    /// One delivery attempt: poll the medium at the session's cursor.
    /// A ready frame becomes a `Send` command and is recorded as in flight;
    /// no news is a `Wait`; a lag ends the session — the conservative policy
    /// is to terminate rather than silently resume past the gap.
    pub fn poll_step(&mut self, medium: &Medium) -> (cmd: SessionCmd)
        requires
            medium.wf(),
            old(self).wf(medium@),
            old(self).state == SessionState::Delivering,
            old(self).inflight@ is None,
        ensures
            final(self).wf(medium@),
            final(self).join == old(self).join,
            final(self).delivered == old(self).delivered,
            (medium@.poll_outcome(old(self).cursor@) is Pending) ==> (cmd is Wait
                && *final(self) == *old(self)),
            medium@.poll_outcome(old(self).cursor@) matches PollModel::Ready { frame } ==> (cmd
                matches SessionCmd::Send(f)
                && f@ == frame
                && final(self).state == SessionState::Delivering
                && final(self).inflight@ == Some(frame)
                && final(self).cursor@ == old(self).cursor@ + 1),
            (medium@.poll_outcome(old(self).cursor@) is Lagged) ==> (cmd is Stop
                && final(self).state == SessionState::LaggedTerminated
                && final(self).inflight@ is None),
    {
        let ghost pre = *self;
        match medium.poll(&mut self.cursor) {
            Poll::Pending => SessionCmd::Wait,
            Poll::Lagged(_) => {
                self.state = SessionState::LaggedTerminated;
                proof {
                    assert(self.seen() == pre.seen());
                }
                SessionCmd::Stop
            },
            Poll::Ready(f) => {
                proof {
                    self.inflight@ = Some(f@);
                    assert(self.seen() =~= pre.seen().push(f@));
                    assert(medium@.published.subrange(
                        pre.join@,
                        pre.join@ + pre.seen().len() + 1,
                    ) =~= medium@.published.subrange(pre.join@, pre.join@ + pre.seen().len()).push(
                        medium@.published[pre.join@ + pre.seen().len()],
                    ));
                }
                SessionCmd::Send(f)
            },
        }
    }

    /// Outcome of writing the in-flight frame to the observer's sink. On
    /// success the frame counts as delivered; on failure the observer is
    /// gone and the session ends with the frame undelivered.
    pub fn on_write_result(&mut self, ok: bool)
        requires
            old(self).state == SessionState::Delivering,
            old(self).inflight@ is Some,
        ensures
            final(self).join == old(self).join,
            final(self).cursor == old(self).cursor,
            final(self).inflight@ is None,
            ok ==> (final(self).state == SessionState::Delivering
                && final(self).delivered@ == old(self).delivered@.push(old(self).inflight@->Some_0)),
            !ok ==> (final(self).state == SessionState::Disconnected
                && final(self).delivered@ == old(self).delivered@),
            forall|mm: MediumModel| old(self).wf(mm) ==> final(self).wf(mm),
    {
        let ghost pre = *self;
        if ok {
            proof {
                self.delivered@ = self.delivered@.push(self.inflight@->Some_0);
                self.inflight@ = None;
                assert(self.seen() =~= pre.seen());
            }
        } else {
            self.state = SessionState::Disconnected;
            proof {
                self.inflight@ = None;
                assert forall|mm: MediumModel| pre.wf(mm) implies self.wf(mm) by {
                    assert(self.seen() =~= pre.seen().subrange(0, pre.seen().len() - 1));
                    assert(self.seen() =~= mm.published.subrange(
                        self.join@,
                        self.join@ + self.seen().len(),
                    ));
                }
            }
        }
    }
}

/// Publishing more frames never invalidates a session: its record of what
/// was handed out, and its cursor while live, stand as they did against the
/// grown history.
pub proof fn lemma_session_survives_publishing(s: Session, mm: MediumModel, extra: Seq<FrameView>)
    requires
        s.wf(mm),
    ensures
        s.wf(mm.publish_all(extra)),
{
    lemma_publish_all_appends(mm, extra);
    assert(mm.publish_all(extra).published.subrange(s.join@, s.join@ + s.seen().len()) =~= mm
        .published.subrange(s.join@, s.join@ + s.seen().len()));
}

} // verus!
