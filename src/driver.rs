//! Decisions of the driver of one connection: it sends a value, waits for
//! the reply, and sends the reply back as the next value, for a fixed
//! number of exchanges or until the connection fails.
use vstd::prelude::*;

verus! {

/// Where a driven connection stands.
#[derive(Clone, Copy, Debug, PartialEq, Eq, Structural)]
pub enum DriverPhase {
    /// About to send the current value.
    Sending,
    /// The value was sent and must be flushed.
    Flushing,
    /// Waiting for the reply.
    Awaiting,
    /// The connection must be shut down.
    Closing,
    /// The exchange is over.
    Closed,
}

/// What happened when the last action was carried out.
#[derive(Clone, Copy, Debug, PartialEq, Eq, Structural)]
pub enum DriverEvent {
    /// The value was written.
    Sent,
    /// Writing the value failed.
    SendFailed,
    /// The value was flushed.
    Flushed,
    /// Flushing the value failed.
    FlushFailed,
    /// A reply line arrived (whether or not it could be decoded).
    Received,
    /// The server closed the connection before replying.
    NoReply,
    /// Reading the reply failed.
    ReadFailed,
    /// A shutdown of the connection was attempted, whatever its outcome.
    ShutdownAttempted,
}

/// What the driver asks to be done next.
#[derive(Clone, Copy, Debug, PartialEq, Eq, Structural)]
pub enum DriverAction {
    /// Write the current value as a line.
    SendValue,
    /// Flush the value just written.
    FlushValue,
    /// Read the reply line; it becomes the current value.
    ReadReply,
    /// Shut the connection down in both directions.
    ShutdownStream,
    /// Nothing is left to do.
    Finish,
}

/// The state of a driven connection, as plain values.
#[derive(Clone, Copy, Debug, PartialEq, Eq, Structural)]
pub struct DriverState {
    /// Where the exchange stands.
    pub phase: DriverPhase,
    /// Exchanges completed so far.
    pub round: u64,
    /// Exchanges to make in all.
    pub limit: u64,
}

/// A driver state is consistent: no more exchanges than the limit, and a
/// connection that still exchanges has exchanges left to make.
pub open spec fn driver_wf(s: DriverState) -> bool {
    &&& s.round <= s.limit
    &&& (s.phase == DriverPhase::Sending || s.phase == DriverPhase::Flushing || s.phase
        == DriverPhase::Awaiting) ==> s.round < s.limit
}

/// The phase that comes after `round` completed exchanges out of `limit`.
pub open spec fn after_round(round: u64, limit: u64) -> DriverPhase {
    if round < limit {
        DriverPhase::Sending
    } else {
        DriverPhase::Closing
    }
}

/// The state that follows `s` when `e` happens. An event that does not
/// answer the action of `s` leaves it as it is.
pub open spec fn driver_next(s: DriverState, e: DriverEvent) -> DriverState {
    match (s.phase, e) {
        (DriverPhase::Sending, DriverEvent::Sent) => DriverState { phase: DriverPhase::Flushing, ..s },
        (DriverPhase::Sending, DriverEvent::SendFailed) => DriverState {
            phase: DriverPhase::Closing,
            ..s
        },
        (DriverPhase::Flushing, DriverEvent::Flushed) => DriverState {
            phase: DriverPhase::Awaiting,
            ..s
        },
        (DriverPhase::Flushing, DriverEvent::FlushFailed) => DriverState {
            phase: DriverPhase::Closing,
            ..s
        },
        (DriverPhase::Awaiting, DriverEvent::Received) => if s.round < s.limit {
            DriverState {
                phase: after_round((s.round + 1) as u64, s.limit),
                round: (s.round + 1) as u64,
                limit: s.limit,
            }
        } else {
            DriverState { phase: DriverPhase::Closing, ..s }
        },
        (DriverPhase::Awaiting, DriverEvent::NoReply) => DriverState {
            phase: DriverPhase::Closing,
            ..s
        },
        (DriverPhase::Awaiting, DriverEvent::ReadFailed) => DriverState {
            phase: DriverPhase::Closing,
            ..s
        },
        (DriverPhase::Closing, DriverEvent::ShutdownAttempted) => DriverState {
            phase: DriverPhase::Closed,
            ..s
        },
        _ => s,
    }
}

/// The action asked for in phase `p`.
pub open spec fn driver_action_of(p: DriverPhase) -> DriverAction {
    match p {
        DriverPhase::Sending => DriverAction::SendValue,
        DriverPhase::Flushing => DriverAction::FlushValue,
        DriverPhase::Awaiting => DriverAction::ReadReply,
        DriverPhase::Closing => DriverAction::ShutdownStream,
        DriverPhase::Closed => DriverAction::Finish,
    }
}

/// The event by which the action of phase `p` succeeds.
pub open spec fn success_event(p: DriverPhase) -> DriverEvent {
    match p {
        DriverPhase::Sending => DriverEvent::Sent,
        DriverPhase::Flushing => DriverEvent::Flushed,
        DriverPhase::Awaiting => DriverEvent::Received,
        _ => DriverEvent::ShutdownAttempted,
    }
}

/// The state reached from `s` when `n` actions in a row succeed.
pub open spec fn run_smoothly(s: DriverState, n: nat) -> DriverState
    decreases n,
{
    if n == 0 {
        s
    } else {
        run_smoothly(driver_next(s, success_event(s.phase)), (n - 1) as nat)
    }
}

/// The initial state of a connection driven through `limit` exchanges.
pub open spec fn driver_start(limit: u64) -> DriverState {
    DriverState { phase: after_round(0, limit), round: 0, limit }
}

impl DriverState {
    /// A connection to drive through `limit` exchanges.
    pub fn new(limit: u64) -> (r: DriverState)
        ensures
            r == driver_start(limit),
            driver_wf(r),
    {
        let phase = if 0 < limit {
            DriverPhase::Sending
        } else {
            DriverPhase::Closing
        };
        DriverState { phase, round: 0, limit }
    }

    /// The action that the current phase asks for.
    pub fn action(&self) -> (r: DriverAction)
        ensures
            r == driver_action_of(self.phase),
    {
        match self.phase {
            DriverPhase::Sending => DriverAction::SendValue,
            DriverPhase::Flushing => DriverAction::FlushValue,
            DriverPhase::Awaiting => DriverAction::ReadReply,
            DriverPhase::Closing => DriverAction::ShutdownStream,
            DriverPhase::Closed => DriverAction::Finish,
        }
    }

    /// Records what happened and returns the next action.
    pub fn step(&mut self, e: DriverEvent) -> (r: DriverAction)
        ensures
            *final(self) == driver_next(*old(self), e),
            driver_wf(*old(self)) ==> driver_wf(*final(self)),
            r == driver_action_of(final(self).phase),
    {
        match (self.phase, e) {
            (DriverPhase::Sending, DriverEvent::Sent) => {
                self.phase = DriverPhase::Flushing;
            },
            (DriverPhase::Sending, DriverEvent::SendFailed) => {
                self.phase = DriverPhase::Closing;
            },
            (DriverPhase::Flushing, DriverEvent::Flushed) => {
                self.phase = DriverPhase::Awaiting;
            },
            (DriverPhase::Flushing, DriverEvent::FlushFailed) => {
                self.phase = DriverPhase::Closing;
            },
            (DriverPhase::Awaiting, DriverEvent::Received) => {
                if self.round < self.limit {
                    self.round = self.round + 1;
                    self.phase = if self.round < self.limit {
                        DriverPhase::Sending
                    } else {
                        DriverPhase::Closing
                    };
                } else {
                    self.phase = DriverPhase::Closing;
                }
            },
            (DriverPhase::Awaiting, DriverEvent::NoReply) => {
                self.phase = DriverPhase::Closing;
            },
            (DriverPhase::Awaiting, DriverEvent::ReadFailed) => {
                self.phase = DriverPhase::Closing;
            },
            (DriverPhase::Closing, DriverEvent::ShutdownAttempted) => {
                self.phase = DriverPhase::Closed;
            },
            _ => {},
        }
        self.action()
    }
}

/// Three successful actions (send, flush, read) complete one exchange.
proof fn lemma_one_exchange(s: DriverState)
    requires
        driver_wf(s),
        s.phase == DriverPhase::Sending,
    ensures
        run_smoothly(s, 3) == (DriverState {
            phase: after_round((s.round + 1) as u64, s.limit),
            round: (s.round + 1) as u64,
            limit: s.limit,
        }),
{
    let s1 = driver_next(s, success_event(s.phase));
    let s2 = driver_next(s1, success_event(s1.phase));
    let s3 = driver_next(s2, success_event(s2.phase));
    assert(run_smoothly(s3, 0) == s3);
    assert(run_smoothly(s2, 1) == s3);
    assert(run_smoothly(s1, 2) == s3);
}

/// From a consistent state with `k` exchanges left, `3 * k` successful
/// actions complete them all.
proof fn lemma_rounds_left(s: DriverState, k: nat)
    requires
        driver_wf(s),
        s.phase == after_round(s.round, s.limit),
        k == s.limit - s.round,
    ensures
        run_smoothly(s, 3 * k) == (DriverState {
            phase: DriverPhase::Closing,
            round: s.limit,
            limit: s.limit,
        }),
    decreases k,
{
    if k > 0 {
        lemma_one_exchange(s);
        let t = run_smoothly(s, 3);
        lemma_rounds_left(t, (k - 1) as nat);
        lemma_run_smoothly_split(s, 3, (3 * (k - 1)) as nat);
        assert(3 + 3 * (k - 1) == 3 * k);
    }
}

/// Running `a` steps and then `b` steps is running `a + b` steps.
proof fn lemma_run_smoothly_split(s: DriverState, a: nat, b: nat)
    ensures
        run_smoothly(run_smoothly(s, a), b) == run_smoothly(s, a + b),
    decreases a,
{
    if a > 0 {
        lemma_run_smoothly_split(driver_next(s, success_event(s.phase)), (a - 1) as nat, b);
    }
}

/// A connection driven through `limit` exchanges on which every send,
/// flush and read succeeds gets exactly `limit` replies, one per value it
/// sent, and then shuts down and finishes.
pub proof fn lemma_smooth_run_gets_every_reply(limit: u64)
    ensures
        run_smoothly(driver_start(limit), 3 * limit as nat) == (DriverState {
            phase: DriverPhase::Closing,
            round: limit,
            limit,
        }),
        run_smoothly(driver_start(limit), 3 * limit as nat + 1) == (DriverState {
            phase: DriverPhase::Closed,
            round: limit,
            limit,
        }),
{
    lemma_rounds_left(driver_start(limit), limit as nat);
    lemma_run_smoothly_split(driver_start(limit), 3 * limit as nat, 1);
    let c = DriverState { phase: DriverPhase::Closing, round: limit, limit };
    assert(run_smoothly(driver_next(c, success_event(c.phase)), 0) == driver_next(
        c,
        success_event(c.phase),
    ));
}

} // verus!
