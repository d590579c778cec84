//! Decisions of the accept loop. The loop's driver reads the running flag,
//! attempts accepts on a non-blocking socket, starts a session for each
//! connection and pauses when none is pending; the listener decides which
//! of these comes next, and when to stop.
use vstd::prelude::*;

verus! {

/// Where the accept loop stands.
#[derive(Clone, Copy, Debug, PartialEq, Eq, Structural)]
pub enum ListenerPhase {
    /// About to read the running flag.
    Checking,
    /// The flag read true: about to attempt one accept.
    Accepting,
    /// The flag was found cleared: the loop is over.
    Stopped,
    /// An accept failed while the flag was still set: the loop is over.
    Failed,
}

/// What happened when the last action was carried out.
#[derive(Clone, Copy, Debug, PartialEq, Eq, Structural)]
pub enum ListenerEvent {
    /// The running flag was read.
    FlagRead { running: bool },
    /// An accept returned a connection.
    Accepted,
    /// An accept found no connection pending.
    NothingPending,
    /// An accept failed otherwise; `running` is the flag read just after.
    AcceptFailed { running: bool },
}

/// What the listener asks to be done next.
#[derive(Clone, Copy, Debug, PartialEq, Eq, Structural)]
pub enum ListenerAction {
    /// Read the running flag.
    CheckFlag,
    /// Attempt one accept.
    Accept,
    /// Start a session for the connection just accepted, without waiting
    /// for it, then read the flag.
    Dispatch,
    /// Pause one polling interval, then read the flag.
    Pause,
    /// Stop accepting: shutdown was requested.
    Stop,
    /// Stop accepting: an accept failed while running.
    Abort,
}

/// The phase and action that follow phase `p` when `e` happens. An event
/// that does not answer the action of `p` leaves the phase as it is and
/// asks for that action again.
pub open spec fn listener_next(p: ListenerPhase, e: ListenerEvent) -> (ListenerPhase, ListenerAction) {
    match (p, e) {
        (ListenerPhase::Checking, ListenerEvent::FlagRead { running }) => if running {
            (ListenerPhase::Accepting, ListenerAction::Accept)
        } else {
            (ListenerPhase::Stopped, ListenerAction::Stop)
        },
        (ListenerPhase::Accepting, ListenerEvent::Accepted) => (
            ListenerPhase::Checking,
            ListenerAction::Dispatch,
        ),
        (ListenerPhase::Accepting, ListenerEvent::NothingPending) => (
            ListenerPhase::Checking,
            ListenerAction::Pause,
        ),
        (ListenerPhase::Accepting, ListenerEvent::AcceptFailed { running }) => if running {
            (ListenerPhase::Failed, ListenerAction::Abort)
        } else {
            (ListenerPhase::Stopped, ListenerAction::Stop)
        },
        _ => (p, resting_action(p)),
    }
}

/// The action that phase `p` asks for when nothing new has happened.
pub open spec fn resting_action(p: ListenerPhase) -> ListenerAction {
    match p {
        ListenerPhase::Checking => ListenerAction::CheckFlag,
        ListenerPhase::Accepting => ListenerAction::Accept,
        ListenerPhase::Stopped => ListenerAction::Stop,
        ListenerPhase::Failed => ListenerAction::Abort,
    }
}

/// The phase reached from `p` after the events `evs`, in order.
pub open spec fn listener_run(p: ListenerPhase, evs: Seq<ListenerEvent>) -> ListenerPhase
    decreases evs.len(),
{
    if evs.len() == 0 {
        p
    } else {
        listener_next(listener_run(p, evs.drop_last()), evs.last()).0
    }
}

/// How many connections are dispatched from `p` over the events `evs`.
pub open spec fn dispatches(p: ListenerPhase, evs: Seq<ListenerEvent>) -> nat
    decreases evs.len(),
{
    if evs.len() == 0 {
        0
    } else {
        dispatches(p, evs.drop_last()) + if listener_next(
            listener_run(p, evs.drop_last()),
            evs.last(),
        ).1 == ListenerAction::Dispatch {
            1nat
        } else {
            0nat
        }
    }
}

/// Every read of the running flag in `evs` found it cleared.
pub open spec fn flag_cleared_throughout(evs: Seq<ListenerEvent>) -> bool {
    forall|i: int|
        0 <= i < evs.len() ==> match #[trigger] evs[i] {
            ListenerEvent::FlagRead { running } => !running,
            ListenerEvent::AcceptFailed { running } => !running,
            _ => true,
        }
}

/// The state of the accept loop.
pub struct Listener {
    pub phase: ListenerPhase,
}

impl Listener {
    /// A loop on a freshly bound socket: it starts by reading the flag.
    pub fn new() -> (r: Listener)
        ensures
            r.phase == ListenerPhase::Checking,
    {
        Listener { phase: ListenerPhase::Checking }
    }

    /// The action that the current phase asks for.
    pub fn action(&self) -> (r: ListenerAction)
        ensures
            r == resting_action(self.phase),
    {
        match self.phase {
            ListenerPhase::Checking => ListenerAction::CheckFlag,
            ListenerPhase::Accepting => ListenerAction::Accept,
            ListenerPhase::Stopped => ListenerAction::Stop,
            ListenerPhase::Failed => ListenerAction::Abort,
        }
    }

    /// Whether the loop is over.
    pub fn is_done(&self) -> (r: bool)
        ensures
            r == (self.phase == ListenerPhase::Stopped || self.phase == ListenerPhase::Failed),
    {
        matches!(self.phase, ListenerPhase::Stopped | ListenerPhase::Failed)
    }

    /// Records what happened and returns the next action.
    pub fn step(&mut self, e: ListenerEvent) -> (r: ListenerAction)
        ensures
            (final(self).phase, r) == listener_next(old(self).phase, e),
    {
        match (self.phase, e) {
            (ListenerPhase::Checking, ListenerEvent::FlagRead { running }) => {
                if running {
                    self.phase = ListenerPhase::Accepting;
                    ListenerAction::Accept
                } else {
                    self.phase = ListenerPhase::Stopped;
                    ListenerAction::Stop
                }
            },
            (ListenerPhase::Accepting, ListenerEvent::Accepted) => {
                self.phase = ListenerPhase::Checking;
                ListenerAction::Dispatch
            },
            (ListenerPhase::Accepting, ListenerEvent::NothingPending) => {
                self.phase = ListenerPhase::Checking;
                ListenerAction::Pause
            },
            (ListenerPhase::Accepting, ListenerEvent::AcceptFailed { running }) => {
                if running {
                    self.phase = ListenerPhase::Failed;
                    ListenerAction::Abort
                } else {
                    self.phase = ListenerPhase::Stopped;
                    ListenerAction::Stop
                }
            },
            _ => self.action(),
        }
    }
}

/// Once the running flag is cleared, the loop dispatches no new
/// connection, but for the one whose accept was already under way when the
/// flag was read last; and a loop that has stopped stays stopped.
pub proof fn lemma_no_dispatch_after_clear(p: ListenerPhase, evs: Seq<ListenerEvent>)
    requires
        flag_cleared_throughout(evs),
    ensures
        dispatches(p, evs) + (if listener_run(p, evs) == ListenerPhase::Accepting {
            1nat
        } else {
            0nat
        }) <= (if p == ListenerPhase::Accepting {
            1nat
        } else {
            0nat
        }),
        p != ListenerPhase::Accepting ==> dispatches(p, evs) == 0,
        (p == ListenerPhase::Stopped || p == ListenerPhase::Failed) ==> listener_run(p, evs)
            == p,
    decreases evs.len(),
{
    if evs.len() > 0 {
        let front = evs.drop_last();
        assert forall|i: int| 0 <= i < front.len() implies match #[trigger] front[i] {
            ListenerEvent::FlagRead { running } => !running,
            ListenerEvent::AcceptFailed { running } => !running,
            _ => true,
        } by {
            assert(front[i] == evs[i]);
        }
        lemma_no_dispatch_after_clear(p, front);
        assert(match evs[evs.len() - 1] {
            ListenerEvent::FlagRead { running } => !running,
            ListenerEvent::AcceptFailed { running } => !running,
            _ => true,
        });
    }
}

} // verus!
