//! The owner of the process: startup in a fixed order, then waiting for the
//! request to terminate, then shutdown.
//!
//! Startup builds the inventory, starts the serving endpoint, waits until
//! its socket accepts connections, registers once, and launches the
//! coordinator. A step that fails ends the process with an error before it
//! reports ready. Shutdown raises the shutdown signal, stops the serving
//! endpoint, and cancels the coordinator.

use vstd::prelude::*;
use crate::coordinator::{Action, Coordinator, Outcome, lemma_no_iteration_after_shutdown};
use crate::watch::{Watch, WatchAction, WatchReport, lemma_released_on_shutdown, shows_shutdown,
    watch_answers};

verus! {

/// Why the process ended with an error.
#[derive(Clone, Copy, Debug, PartialEq, Eq, Structural)]
pub enum Fatal {
    /// The configuration was refused.
    Config,
    /// The enumeration pattern is malformed.
    Discovery,
    /// The serving endpoint could not be bound.
    EndpointStart,
    /// The socket did not accept connections in time.
    SocketTimeout,
    /// The first registration failed.
    Registration,
    /// Waiting for the request to terminate failed.
    Signal,
}

/// What the owner is asked to do next.
#[derive(Clone, Copy, Debug, PartialEq, Eq, Structural)]
pub enum Task {
    /// Check the configuration.
    Validate,
    /// Enumerate the host's devices and build the service.
    Discover,
    /// Start the serving endpoint.
    StartServer,
    /// Poll the socket until it accepts connections or the time is up.
    AwaitSocket,
    /// Register with the kubelet, once.
    Register,
    /// Launch the coordinator loop in the background.
    LaunchCoordinator,
    /// Report ready and block until the process is asked to terminate.
    AwaitTermination,
    /// Raise the shutdown signal.
    RaiseShutdown,
    /// Abort the serving task whose handle sits in the shared slot.
    StopServer,
    /// Abort the coordinator's task.
    CancelCoordinator,
    /// End the process with success. Nothing follows.
    Exit,
    /// End the process with an error. Nothing follows.
    Abort(Fatal),
}

/// The owner's state: the task it is at.
#[derive(Clone, Copy, Debug, PartialEq, Eq, Structural)]
pub struct Supervisor {
    pub pending: Task,
}

impl Supervisor {
    /// The state after the pending task was performed and either succeeded
    /// or failed. Launching the coordinator and the three steps of shutdown
    /// cannot fail: what is reported of them does not matter.
    pub open spec fn step(self, succeeded: bool) -> Supervisor {
        Supervisor {
            pending: match self.pending {
                Task::Validate => if succeeded {
                    Task::Discover
                } else {
                    Task::Abort(Fatal::Config)
                },
                Task::Discover => if succeeded {
                    Task::StartServer
                } else {
                    Task::Abort(Fatal::Discovery)
                },
                Task::StartServer => if succeeded {
                    Task::AwaitSocket
                } else {
                    Task::Abort(Fatal::EndpointStart)
                },
                Task::AwaitSocket => if succeeded {
                    Task::Register
                } else {
                    Task::Abort(Fatal::SocketTimeout)
                },
                Task::Register => if succeeded {
                    Task::LaunchCoordinator
                } else {
                    Task::Abort(Fatal::Registration)
                },
                Task::LaunchCoordinator => Task::AwaitTermination,
                Task::AwaitTermination => if succeeded {
                    Task::RaiseShutdown
                } else {
                    Task::Abort(Fatal::Signal)
                },
                Task::RaiseShutdown => Task::StopServer,
                Task::StopServer => Task::CancelCoordinator,
                Task::CancelCoordinator => Task::Exit,
                Task::Exit => Task::Exit,
                Task::Abort(fatal) => Task::Abort(fatal),
            },
        }
    }

    /// The state after the reports `reports`, taken in order.
    pub open spec fn run(self, reports: Seq<bool>) -> Supervisor
        decreases reports.len(),
    {
        if reports.len() == 0 {
            self
        } else {
            self.step(reports[0]).run(reports.drop_first())
        }
    }

    /// Whether the process has ended.
    pub open spec fn is_over(self) -> bool {
        self.pending is Exit || self.pending is Abort
    }

    /// Whether the plugin has reported ready: every step of startup
    /// succeeded.
    pub open spec fn is_ready(self) -> bool {
        match self.pending {
            Task::AwaitTermination
            | Task::RaiseShutdown
            | Task::StopServer
            | Task::CancelCoordinator
            | Task::Exit => true,
            _ => false,
        }
    }

    /// Whether a serving task has been started and not stopped.
    pub open spec fn server_running(self) -> bool {
        match self.pending {
            Task::AwaitSocket
            | Task::Register
            | Task::LaunchCoordinator
            | Task::AwaitTermination
            | Task::RaiseShutdown
            | Task::StopServer => true,
            _ => false,
        }
    }

    /// Whether the coordinator's task has been launched and not cancelled.
    pub open spec fn coordinator_running(self) -> bool {
        match self.pending {
            Task::AwaitTermination
            | Task::RaiseShutdown
            | Task::StopServer
            | Task::CancelCoordinator => true,
            _ => false,
        }
    }

    /// Whether the shutdown signal has been raised.
    pub open spec fn shutdown_raised(self) -> bool {
        match self.pending {
            Task::StopServer | Task::CancelCoordinator | Task::Exit => true,
            _ => false,
        }
    }

    /// The owner at the start of the process.
    pub fn new() -> (s: Supervisor)
        ensures
            s.pending == Task::Validate,
    {
        Supervisor { pending: Task::Validate }
    }

    /// The task that the owner has to perform now.
    pub fn pending(&self) -> (t: Task)
        ensures
            t == self.pending,
    {
        self.pending
    }

    /// Takes the result of the pending task and moves to the next one.
    pub fn advance(&mut self, succeeded: bool)
        ensures
            *final(self) == old(self).step(succeeded),
    {
        self.pending = match self.pending {
            Task::Validate => if succeeded {
                Task::Discover
            } else {
                Task::Abort(Fatal::Config)
            },
            Task::Discover => if succeeded {
                Task::StartServer
            } else {
                Task::Abort(Fatal::Discovery)
            },
            Task::StartServer => if succeeded {
                Task::AwaitSocket
            } else {
                Task::Abort(Fatal::EndpointStart)
            },
            Task::AwaitSocket => if succeeded {
                Task::Register
            } else {
                Task::Abort(Fatal::SocketTimeout)
            },
            Task::Register => if succeeded {
                Task::LaunchCoordinator
            } else {
                Task::Abort(Fatal::Registration)
            },
            Task::LaunchCoordinator => Task::AwaitTermination,
            Task::AwaitTermination => if succeeded {
                Task::RaiseShutdown
            } else {
                Task::Abort(Fatal::Signal)
            },
            Task::RaiseShutdown => Task::StopServer,
            Task::StopServer => Task::CancelCoordinator,
            Task::CancelCoordinator => Task::Exit,
            Task::Exit => Task::Exit,
            Task::Abort(fatal) => Task::Abort(fatal),
        };
    }
}

/// The first step of startup that failed, if any: the five results are
/// those of validation, discovery, the start of the endpoint, the wait for
/// the socket, and the first registration.
pub open spec fn first_failure(
    valid: bool,
    discovered: bool,
    started: bool,
    connected: bool,
    registered: bool,
) -> Option<Fatal> {
    if !valid {
        Some(Fatal::Config)
    } else if !discovered {
        Some(Fatal::Discovery)
    } else if !started {
        Some(Fatal::EndpointStart)
    } else if !connected {
        Some(Fatal::SocketTimeout)
    } else if !registered {
        Some(Fatal::Registration)
    } else {
        None
    }
}

/// Startup is all or nothing. The plugin reports ready, with the
/// coordinator launched, if and only if every step of startup succeeded;
/// otherwise the process ends with the error of the first step that failed,
/// and no step after that one is attempted.
pub proof fn lemma_startup_is_fatal_or_ready(
    valid: bool,
    discovered: bool,
    started: bool,
    connected: bool,
    registered: bool,
    launched: bool,
)
    ensures
        ({
            let reports = seq![valid, discovered, started, connected, registered, launched];
            let end = (Supervisor { pending: Task::Validate }).run(reports);
            match first_failure(valid, discovered, started, connected, registered) {
                Some(fatal) => end.pending == Task::Abort(fatal) && !end.is_ready(),
                None => end.pending == Task::AwaitTermination && end.is_ready()
                    && end.server_running() && end.coordinator_running(),
            }
        }),
{
    let reports = seq![valid, discovered, started, connected, registered, launched];
    let s0 = Supervisor { pending: Task::Validate };
    let r1 = reports.drop_first();
    let r2 = r1.drop_first();
    let r3 = r2.drop_first();
    let r4 = r3.drop_first();
    let r5 = r4.drop_first();
    let r6 = r5.drop_first();
    let s1 = s0.step(reports[0]);
    let s2 = s1.step(r1[0]);
    let s3 = s2.step(r2[0]);
    let s4 = s3.step(r3[0]);
    let s5 = s4.step(r4[0]);
    let s6 = s5.step(r5[0]);
    assert(r6.len() == 0);
    assert(s6.run(r6) == s6);
    assert(s5.run(r5) == s6);
    assert(s4.run(r4) == s6);
    assert(s3.run(r3) == s6);
    assert(s2.run(r2) == s6);
    assert(s1.run(r1) == s6);
}

/// A process that has ended stays ended.
pub proof fn lemma_end_is_final(s: Supervisor, reports: Seq<bool>)
    requires
        s.is_over(),
    ensures
        s.run(reports) == s,
    decreases reports.len(),
{
    if reports.len() > 0 {
        assert(s.step(reports[0]) == s);
        lemma_end_is_final(s, reports.drop_first());
    }
}

/// The shutdown signal is a latch: once raised it stays raised, whatever
/// follows.
pub proof fn lemma_signal_stays_raised(s: Supervisor, reports: Seq<bool>)
    requires
        s.shutdown_raised(),
    ensures
        s.run(reports).shutdown_raised(),
    decreases reports.len(),
{
    if reports.len() > 0 {
        lemma_signal_stays_raised(s.step(reports[0]), reports.drop_first());
    }
}

/// Shutdown in order. Once the process is asked to terminate, the owner
/// raises the shutdown signal, then stops the serving endpoint, then cancels
/// the coordinator, and exits; at the exit the signal is raised and neither
/// the serving task nor the coordinator is running. What the three steps
/// report does not matter.
pub proof fn lemma_shutdown_in_order(s: Supervisor, a: bool, b: bool, c: bool)
    requires
        s.pending == Task::AwaitTermination,
    ensures
        s.step(true).pending == Task::RaiseShutdown,
        s.step(true).step(a).pending == Task::StopServer,
        s.step(true).step(a).shutdown_raised(),
        s.step(true).step(a).step(b).pending == Task::CancelCoordinator,
        !s.step(true).step(a).step(b).server_running(),
        s.step(true).step(a).step(b).step(c).pending == Task::Exit,
        !s.step(true).step(a).step(b).step(c).server_running(),
        !s.step(true).step(a).step(b).step(c).coordinator_running(),
        s.step(true).step(a).step(b).step(c).shutdown_raised(),
{
}

/// The shutdown law, for the whole plugin. After the shutdown signal is
/// raised:
/// - the owner's next steps stop the serving endpoint and cancel the
///   coordinator, and it exits with neither running;
/// - a coordinator that sees the signal begins no further iteration,
///   whatever is reported to it later;
/// - every open device-list stream whose keep-alive sees the signal is
///   released, and stays released.
pub proof fn lemma_shutdown_stops_everything(
    owner: Supervisor,
    coordinator: Coordinator,
    seen: Outcome,
    later: Seq<Outcome>,
    stream: Watch,
    observed: WatchReport,
    afterwards: Seq<WatchReport>,
)
    requires
        owner.pending == Task::RaiseShutdown,
        coordinator.sees_shutdown(seen),
        stream.is_open(),
        watch_answers(stream.pending, observed),
        shows_shutdown(observed),
    ensures
        owner.run(seq![true, true, true]).pending == Task::Exit,
        !owner.run(seq![true, true, true]).server_running(),
        !owner.run(seq![true, true, true]).coordinator_running(),
        coordinator.step(seen).run(later).pending == Action::Stop,
        forall|i: int|
            0 <= i < later.len() ==> coordinator.step(seen).asked(later)[i] == Action::Stop,
        stream.step(observed).run(afterwards).pending == WatchAction::Release,
{
    lemma_no_iteration_after_shutdown(coordinator, seen, later);
    lemma_released_on_shutdown(stream, observed, afterwards);
    let reports = seq![true, true, true];
    let r1 = reports.drop_first();
    let r2 = r1.drop_first();
    let r3 = r2.drop_first();
    let s1 = owner.step(reports[0]);
    let s2 = s1.step(r1[0]);
    let s3 = s2.step(r2[0]);
    assert(r3.len() == 0);
    assert(s3.run(r3) == s3);
    assert(s2.run(r2) == s3);
    assert(s1.run(r1) == s3);
}

} // verus!
