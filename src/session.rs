//! Decisions of the session handler for one connection. The handler's
//! driver performs each action on the connection and reports back what
//! happened; the session answers with the next action.
use vstd::prelude::*;

verus! {

/// Where a session stands.
#[derive(Clone, Copy, Debug, PartialEq, Eq, Structural)]
pub enum Phase {
    /// Waiting for the next line from the peer.
    Reading,
    /// A reply is ready and must be written.
    Writing,
    /// A reply was written and must be flushed.
    Flushing,
    /// The connection must be shut down in both directions.
    Closing,
    /// The session is over.
    Closed,
}

/// What happened when the last action was carried out.
#[derive(Clone, Copy, Debug, PartialEq, Eq, Structural)]
pub enum SessionEvent {
    /// A complete line was read, decoded and parsed; its reply is ready.
    LineParsed,
    /// A complete line was read but could not be decoded or parsed.
    LineRejected,
    /// The peer closed its side: a read returned no byte.
    EndOfInput,
    /// A read failed.
    ReadFailed,
    /// The reply was written.
    WriteDone,
    /// Writing the reply failed.
    WriteFailed,
    /// The reply was flushed.
    FlushDone,
    /// Flushing the reply failed.
    FlushFailed,
    /// A shutdown of the connection was attempted, whatever its outcome.
    ShutdownAttempted,
}

/// What the session asks to be done next.
#[derive(Clone, Copy, Debug, PartialEq, Eq, Structural)]
pub enum SessionAction {
    /// Read the next line.
    ReadLine,
    /// Write the reply to the line just parsed.
    WriteReply,
    /// Flush the reply just written.
    FlushReply,
    /// Shut the connection down in both directions.
    ShutdownStream,
    /// Nothing is left to do.
    Finish,
}

/// The phase that follows `p` when `e` happens. An event that does not
/// answer the action of `p` leaves the phase as it is.
pub open spec fn next_phase(p: Phase, e: SessionEvent) -> Phase {
    match (p, e) {
        (Phase::Reading, SessionEvent::LineParsed) => Phase::Writing,
        (Phase::Reading, SessionEvent::LineRejected) => Phase::Reading,
        (Phase::Reading, SessionEvent::EndOfInput) => Phase::Closing,
        (Phase::Reading, SessionEvent::ReadFailed) => Phase::Closing,
        (Phase::Writing, SessionEvent::WriteDone) => Phase::Flushing,
        (Phase::Writing, SessionEvent::WriteFailed) => Phase::Closing,
        (Phase::Flushing, SessionEvent::FlushDone) => Phase::Reading,
        (Phase::Flushing, SessionEvent::FlushFailed) => Phase::Closing,
        (Phase::Closing, SessionEvent::ShutdownAttempted) => Phase::Closed,
        _ => p,
    }
}

/// The action asked for in phase `p`.
pub open spec fn action_of(p: Phase) -> SessionAction {
    match p {
        Phase::Reading => SessionAction::ReadLine,
        Phase::Writing => SessionAction::WriteReply,
        Phase::Flushing => SessionAction::FlushReply,
        Phase::Closing => SessionAction::ShutdownStream,
        Phase::Closed => SessionAction::Finish,
    }
}

/// The phase reached from `p` after the events `evs`, in order.
pub open spec fn run(p: Phase, evs: Seq<SessionEvent>) -> Phase
    decreases evs.len(),
{
    if evs.len() == 0 {
        p
    } else {
        next_phase(run(p, evs.drop_last()), evs.last())
    }
}

/// A line was accepted: it parsed, and a reply to it is owed.
pub open spec fn accepts_line(p: Phase, e: SessionEvent) -> bool {
    p == Phase::Reading && e == SessionEvent::LineParsed
}

/// A reply reached the peer: it was written and flushed.
pub open spec fn delivers_reply(p: Phase, e: SessionEvent) -> bool {
    p == Phase::Flushing && e == SessionEvent::FlushDone
}

/// A reply was lost: writing or flushing it failed.
pub open spec fn loses_reply(p: Phase, e: SessionEvent) -> bool {
    (p == Phase::Writing && e == SessionEvent::WriteFailed) || (p == Phase::Flushing && e
        == SessionEvent::FlushFailed)
}

/// How many of the events `evs`, taken from phase `p`, satisfy `f` in the
/// phase in which each one happens.
pub open spec fn count_steps(
    p: Phase,
    evs: Seq<SessionEvent>,
    f: spec_fn(Phase, SessionEvent) -> bool,
) -> nat
    decreases evs.len(),
{
    if evs.len() == 0 {
        0
    } else {
        count_steps(p, evs.drop_last(), f) + if f(run(p, evs.drop_last()), evs.last()) {
            1nat
        } else {
            0nat
        }
    }
}

/// Lines accepted over a session that went through `evs`.
pub open spec fn lines_accepted(evs: Seq<SessionEvent>) -> nat {
    count_steps(Phase::Reading, evs, |p: Phase, e: SessionEvent| accepts_line(p, e))
}

/// Replies delivered over a session that went through `evs`.
pub open spec fn replies_delivered(evs: Seq<SessionEvent>) -> nat {
    count_steps(Phase::Reading, evs, |p: Phase, e: SessionEvent| delivers_reply(p, e))
}

/// Replies lost over a session that went through `evs`.
pub open spec fn replies_lost(evs: Seq<SessionEvent>) -> nat {
    count_steps(Phase::Reading, evs, |p: Phase, e: SessionEvent| loses_reply(p, e))
}

/// One reply is under way: accepted, not yet flushed.
pub open spec fn reply_pending(p: Phase) -> bool {
    p == Phase::Writing || p == Phase::Flushing
}

/// The state of one session handler.
pub struct Session {
    pub phase: Phase,
}

impl Session {
    /// A session on a freshly accepted connection: it starts by reading.
    pub fn new() -> (r: Session)
        ensures
            r.phase == Phase::Reading,
    {
        Session { phase: Phase::Reading }
    }

    /// The action that the current phase asks for.
    pub fn action(&self) -> (r: SessionAction)
        ensures
            r == action_of(self.phase),
    {
        match self.phase {
            Phase::Reading => SessionAction::ReadLine,
            Phase::Writing => SessionAction::WriteReply,
            Phase::Flushing => SessionAction::FlushReply,
            Phase::Closing => SessionAction::ShutdownStream,
            Phase::Closed => SessionAction::Finish,
        }
    }

    /// Whether the session is over.
    pub fn is_finished(&self) -> (r: bool)
        ensures
            r == (self.phase == Phase::Closed),
    {
        matches!(self.phase, Phase::Closed)
    }

    /// Records what happened and returns the next action.
    pub fn step(&mut self, e: SessionEvent) -> (r: SessionAction)
        ensures
            final(self).phase == next_phase(old(self).phase, e),
            r == action_of(final(self).phase),
    {
        let next = match (self.phase, e) {
            (Phase::Reading, SessionEvent::LineParsed) => Phase::Writing,
            (Phase::Reading, SessionEvent::LineRejected) => Phase::Reading,
            (Phase::Reading, SessionEvent::EndOfInput) => Phase::Closing,
            (Phase::Reading, SessionEvent::ReadFailed) => Phase::Closing,
            (Phase::Writing, SessionEvent::WriteDone) => Phase::Flushing,
            (Phase::Writing, SessionEvent::WriteFailed) => Phase::Closing,
            (Phase::Flushing, SessionEvent::FlushDone) => Phase::Reading,
            (Phase::Flushing, SessionEvent::FlushFailed) => Phase::Closing,
            (Phase::Closing, SessionEvent::ShutdownAttempted) => Phase::Closed,
            (p, _) => p,
        };
        self.phase = next;
        self.action()
    }
}

/// Every line that a session accepts gets exactly one reply: the replies
/// delivered, those lost to a failed write or flush, and the one under way
/// add up to the lines accepted. At most one reply is ever lost, and only
/// as the session closes; so a session that closes without a failed write
/// or flush has delivered one reply per accepted line, and a rejected line
/// gets none.
pub proof fn lemma_one_reply_per_line(evs: Seq<SessionEvent>)
    ensures
        lines_accepted(evs) == replies_delivered(evs) + replies_lost(evs) + if reply_pending(
            run(Phase::Reading, evs),
        ) {
            1nat
        } else {
            0nat
        },
        replies_lost(evs) <= 1,
        replies_lost(evs) == 1 ==> (run(Phase::Reading, evs) == Phase::Closing || run(
            Phase::Reading,
            evs,
        ) == Phase::Closed),
        run(Phase::Reading, evs) == Phase::Closed && replies_lost(evs) == 0 ==> replies_delivered(
            evs,
        ) == lines_accepted(evs),
    decreases evs.len(),
{
    if evs.len() > 0 {
        lemma_one_reply_per_line(evs.drop_last());
    }
}

/// Once a session is closing, no further event makes it read, write or
/// deliver anything: it can only finish.
pub proof fn lemma_closing_is_final(evs: Seq<SessionEvent>)
    ensures
        run(Phase::Closing, evs) == Phase::Closing || run(Phase::Closing, evs) == Phase::Closed,
        run(Phase::Closed, evs) == Phase::Closed,
    decreases evs.len(),
{
    if evs.len() > 0 {
        lemma_closing_is_final(evs.drop_last());
    }
}

} // verus!
