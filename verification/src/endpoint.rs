//! The serving endpoint: the Unix socket on which the service answers, and
//! the task that serves it.
//!
//! Starting an endpoint is a short fixed procedure: remove a stale socket
//! file if one is in the way, bind a listener at the path, and spawn the
//! task that serves it. `Start` walks the driver through it. Waiting for
//! the socket to accept connections is a polling loop whose decisions
//! `poll_step` makes.

use vstd::prelude::*;

verus! {

/// What the driver of a start is asked to do next.
#[derive(Clone, Copy, Debug, PartialEq, Eq, Structural)]
pub enum StartAction {
    /// Test whether a file exists at the socket path.
    ProbePath,
    /// Remove the file at the socket path.
    RemoveStale,
    /// Bind a listening socket at the path.
    Bind,
    /// Spawn the task that serves the service on the listener.
    Serve,
    /// Hand the serving task's handle to the caller. Nothing follows.
    Ready,
    /// Fail the start with the error of the step that failed. Nothing
    /// follows.
    Failed(StartFailure),
}

/// The step at which a start failed.
#[derive(Clone, Copy, Debug, PartialEq, Eq, Structural)]
pub enum StartFailure {
    /// The stale socket file could not be removed.
    RemoveStale,
    /// The listener could not be bound.
    Bind,
}

/// What the driver reports after performing an action.
#[derive(Clone, Copy, Debug, PartialEq, Eq, Structural)]
pub enum StartReport {
    /// Answer to `ProbePath`: whether a file is there.
    Exists(bool),
    /// Answer to `RemoveStale`: whether the file was removed.
    Removed(bool),
    /// Answer to `Bind`: whether the listener was bound.
    Bound(bool),
    /// Answer to `Serve`: the task was spawned.
    Spawned,
}

/// Whether `report` is an answer that the driver may give to `action`.
pub open spec fn start_answers(action: StartAction, report: StartReport) -> bool {
    match action {
        StartAction::ProbePath => report is Exists,
        StartAction::RemoveStale => report is Removed,
        StartAction::Bind => report is Bound,
        StartAction::Serve => report is Spawned,
        StartAction::Ready => false,
        StartAction::Failed(_) => false,
    }
}

/// The state of one start: the action it waits for.
#[derive(Clone, Copy, Debug, PartialEq, Eq, Structural)]
pub struct Start {
    pub pending: StartAction,
}

impl Start {
    /// The state after `report` was given for the pending action. A report
    /// that does not answer the pending action changes nothing.
    pub open spec fn step(self, report: StartReport) -> Start {
        match (self.pending, report) {
            (StartAction::ProbePath, StartReport::Exists(stale)) => Start {
                pending: if stale { StartAction::RemoveStale } else { StartAction::Bind },
            },
            (StartAction::RemoveStale, StartReport::Removed(ok)) => Start {
                pending: if ok {
                    StartAction::Bind
                } else {
                    StartAction::Failed(StartFailure::RemoveStale)
                },
            },
            (StartAction::Bind, StartReport::Bound(ok)) => Start {
                pending: if ok { StartAction::Serve } else { StartAction::Failed(StartFailure::Bind) },
            },
            (StartAction::Serve, StartReport::Spawned) => Start { pending: StartAction::Ready },
            _ => self,
        }
    }

    /// The state after the reports `reports`, taken in order.
    pub open spec fn run(self, reports: Seq<StartReport>) -> Start
        decreases reports.len(),
    {
        if reports.len() == 0 {
            self
        } else {
            self.step(reports[0]).run(reports.drop_first())
        }
    }

    /// A start that has not done anything yet.
    pub fn new() -> (s: Start)
        ensures
            s.pending == StartAction::ProbePath,
    {
        Start { pending: StartAction::ProbePath }
    }

    /// The action that the driver has to perform now.
    pub fn pending(&self) -> (a: StartAction)
        ensures
            a == self.pending,
    {
        self.pending
    }

    /// Takes the driver's report for the pending action and moves to the
    /// next action. Returns whether the report answered the pending action;
    /// one that does not is ignored.
    pub fn advance(&mut self, report: StartReport) -> (accepted: bool)
        ensures
            accepted == start_answers(old(self).pending, report),
            *final(self) == old(self).step(report),
    {
        let next = match (self.pending, report) {
            (StartAction::ProbePath, StartReport::Exists(stale)) => {
                if stale { StartAction::RemoveStale } else { StartAction::Bind }
            },
            (StartAction::RemoveStale, StartReport::Removed(ok)) => {
                if ok { StartAction::Bind } else { StartAction::Failed(StartFailure::RemoveStale) }
            },
            (StartAction::Bind, StartReport::Bound(ok)) => {
                if ok { StartAction::Serve } else { StartAction::Failed(StartFailure::Bind) }
            },
            (StartAction::Serve, StartReport::Spawned) => StartAction::Ready,
            _ => {
                return false;
            },
        };
        self.pending = next;
        true
    }
}

/// Starting is idempotent in the stale file: once a stale file has been
/// removed, the start goes on exactly as one that found no file, whatever
/// is reported from there on.
pub proof fn lemma_stale_file_makes_no_difference(later: Seq<StartReport>)
    ensures
        (Start { pending: StartAction::ProbePath }).step(StartReport::Exists(true)).step(
            StartReport::Removed(true),
        ).run(later) == (Start { pending: StartAction::ProbePath }).step(
            StartReport::Exists(false),
        ).run(later),
{
}

/// A start with no file in the way, a listener that binds and a task that
/// spawns comes out ready; and a start fails only at a step that failed.
pub proof fn lemma_start_outcomes(stale: bool, removed: bool, bound: bool)
    ensures
        ({
            let s = (Start { pending: StartAction::ProbePath }).step(StartReport::Exists(stale));
            let s = if stale { s.step(StartReport::Removed(removed)) } else { s };
            let s = s.step(StartReport::Bound(bound)).step(StartReport::Spawned);
            s.pending == if stale && !removed {
                StartAction::Failed(StartFailure::RemoveStale)
            } else if !bound {
                StartAction::Failed(StartFailure::Bind)
            } else {
                StartAction::Ready
            }
        }),
{
}

/// How long to sleep between two attempts to connect, in milliseconds.
pub const CONNECT_RETRY_MS: u64 = 200;

/// How long the owner waits for the socket to accept connections, in
/// milliseconds.
pub const SOCKET_TIMEOUT_MS: u64 = 5000;

/// What to do after an attempt to connect to the socket.
#[derive(Clone, Copy, Debug, PartialEq, Eq, Structural)]
pub enum PollStep {
    /// The socket accepts connections.
    Ready,
    /// The time is up: waiting has failed.
    TimedOut,
    /// Sleep for `delay_ms` milliseconds, then try again.
    Retry { delay_ms: u64 },
}

/// The decision after an attempt to connect: done if it connected, failed
/// if it did not and the timeout has been reached, otherwise another
/// attempt after `CONNECT_RETRY_MS`.
pub open spec fn poll_decision(connected: bool, elapsed_ms: u64, timeout_ms: u64) -> PollStep {
    if connected {
        PollStep::Ready
    } else if elapsed_ms >= timeout_ms {
        PollStep::TimedOut
    } else {
        PollStep::Retry { delay_ms: CONNECT_RETRY_MS }
    }
}

/// Decides what follows an attempt to connect that was made `elapsed_ms`
/// milliseconds after waiting began, with `timeout_ms` allowed in all.
pub fn poll_step(connected: bool, elapsed_ms: u64, timeout_ms: u64) -> (step: PollStep)
    ensures
        step == poll_decision(connected, elapsed_ms, timeout_ms),
{
    if connected {
        PollStep::Ready
    } else if elapsed_ms >= timeout_ms {
        PollStep::TimedOut
    } else {
        PollStep::Retry { delay_ms: CONNECT_RETRY_MS }
    }
}

/// Waiting is bounded: a driver that sleeps as told has, at its attempt
/// number `attempt` (counted from zero), spent at least `attempt` times the
/// retry delay, so no attempt from number `timeout_ms / CONNECT_RETRY_MS`
/// rounded up is followed by another.
pub proof fn lemma_wait_is_bounded(attempt: nat, elapsed_ms: u64, timeout_ms: u64)
    requires
        elapsed_ms >= attempt * CONNECT_RETRY_MS,
        attempt * CONNECT_RETRY_MS >= timeout_ms,
    ensures
        !(poll_decision(false, elapsed_ms, timeout_ms) is Retry),
{
}

} // verus!
