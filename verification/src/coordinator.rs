//! The lifecycle coordinator: the loop that re-announces the plugin, rebuilds
//! a vanished serving endpoint and leaves when shutdown is signalled.
//!
//! The coordinator never touches a socket or a timer itself. It names the
//! next `Action`; the driver performs it and reports the `Outcome`, and
//! `Coordinator::advance` moves on. One iteration of the loop reads the
//! shutdown signal, probes the endpoint path, repairs the endpoint if the
//! path is gone, registers, and waits.

use vstd::prelude::*;

verus! {

/// How long the coordinator waits between two registrations, in seconds.
pub const REGISTRATION_INTERVAL_SECS: u64 = 10;

/// What the driver is asked to do next.
#[derive(Clone, Copy, Debug, PartialEq, Eq, Structural)]
pub enum Action {
    /// Read the current value of the shutdown signal.
    ObserveShutdown,
    /// Test whether the endpoint's socket file is still on disk.
    ProbeEndpoint,
    /// Abort the serving task whose handle sits in the shared slot.
    AbortServer,
    /// Start a fresh serving endpoint at the same path.
    StartServer,
    /// Put the handle of the freshly started endpoint into the shared slot.
    InstallServer,
    /// Make one registration call.
    Register,
    /// Sleep for `REGISTRATION_INTERVAL_SECS` or until the shutdown signal
    /// changes, whichever comes first.
    Wait,
    /// Leave the loop. Nothing follows.
    Stop,
}

/// What the driver reports after performing an action.
#[derive(Clone, Copy, Debug, PartialEq, Eq, Structural)]
pub enum Outcome {
    /// Answer to `ObserveShutdown`: the signal's value.
    Shutdown(bool),
    /// Answer to `ProbeEndpoint`: whether the socket file exists.
    Endpoint(bool),
    /// Answer to `AbortServer` and to `InstallServer`.
    Done,
    /// Answer to `StartServer`: whether the endpoint was bound and is served.
    Started(bool),
    /// Answer to `Register`: whether the call succeeded.
    Registered(bool),
    /// Answer to `Wait`: the interval elapsed.
    Elapsed,
    /// Answer to `Wait`: the signal changed (or its sender went away) before
    /// the interval elapsed. `raised` is the signal's value after the change.
    SignalChanged { sender_gone: bool, raised: bool },
}

/// The three states of the lifecycle.
#[derive(Clone, Copy, Debug, PartialEq, Eq, Structural)]
pub enum Mode {
    /// The endpoint is believed present; the loop registers and waits.
    Running,
    /// The endpoint's path went missing and the endpoint is being rebuilt.
    Repairing,
    /// Shutdown was seen; the loop has ended.
    ShuttingDown,
}

/// Whether `outcome` is a report that the driver may give for `action`.
pub open spec fn answers(action: Action, outcome: Outcome) -> bool {
    match action {
        Action::ObserveShutdown => outcome is Shutdown,
        Action::ProbeEndpoint => outcome is Endpoint,
        Action::AbortServer => outcome is Done,
        Action::StartServer => outcome is Started,
        Action::InstallServer => outcome is Done,
        Action::Register => outcome is Registered,
        Action::Wait => outcome is Elapsed || outcome is SignalChanged,
        Action::Stop => false,
    }
}

/// The coordinator's state: the action it waits for, and whether the handle
/// in the shared slot belongs to a serving task that has not been aborted.
#[derive(Clone, Copy, Debug, PartialEq, Eq, Structural)]
pub struct Coordinator {
    pub pending: Action,
    pub slot_live: bool,
}

impl Coordinator {
    /// The state after `outcome` was reported for the pending action. A
    /// report that does not answer the pending action changes nothing.
    pub open spec fn step(self, outcome: Outcome) -> Coordinator {
        match (self.pending, outcome) {
            (Action::ObserveShutdown, Outcome::Shutdown(raised)) => Coordinator {
                pending: if raised { Action::Stop } else { Action::ProbeEndpoint },
                ..self
            },
            (Action::ProbeEndpoint, Outcome::Endpoint(present)) => Coordinator {
                pending: if present { Action::Register } else { Action::AbortServer },
                ..self
            },
            (Action::AbortServer, Outcome::Done) => Coordinator {
                pending: Action::StartServer,
                slot_live: false,
            },
            (Action::StartServer, Outcome::Started(ok)) => Coordinator {
                pending: if ok { Action::InstallServer } else { Action::Register },
                ..self
            },
            (Action::InstallServer, Outcome::Done) => Coordinator {
                pending: Action::Register,
                slot_live: true,
            },
            (Action::Register, Outcome::Registered(_)) => Coordinator {
                pending: Action::Wait,
                ..self
            },
            (Action::Wait, Outcome::Elapsed) => Coordinator {
                pending: Action::ObserveShutdown,
                ..self
            },
            (Action::Wait, Outcome::SignalChanged { sender_gone, raised }) => Coordinator {
                pending: if sender_gone || raised { Action::Stop } else { Action::ObserveShutdown },
                ..self
            },
            _ => self,
        }
    }

    /// The lifecycle state that the pending action belongs to.
    pub open spec fn mode_of(self) -> Mode {
        match self.pending {
            Action::AbortServer | Action::StartServer | Action::InstallServer => Mode::Repairing,
            Action::Stop => Mode::ShuttingDown,
            _ => Mode::Running,
        }
    }

    /// While a fresh endpoint is being started or installed, the old one has
    /// been aborted.
    pub open spec fn wf(self) -> bool {
        (self.pending == Action::StartServer || self.pending == Action::InstallServer)
            ==> !self.slot_live
    }

    /// The number of serving endpoints that have been started and not
    /// aborted: the one in the slot, and the one waiting to be installed.
    pub open spec fn live_servers(self) -> nat {
        (if self.slot_live { 1nat } else { 0nat })
            + (if self.pending == Action::InstallServer { 1nat } else { 0nat })
    }

    /// The state after the reports `outcomes`, taken in order.
    pub open spec fn run(self, outcomes: Seq<Outcome>) -> Coordinator
        decreases outcomes.len(),
    {
        if outcomes.len() == 0 {
            self
        } else {
            self.step(outcomes[0]).run(outcomes.drop_first())
        }
    }

    /// The actions that the driver is asked for while it gives the reports
    /// `outcomes`: entry `i` is the action pending after report `i`.
    pub open spec fn asked(self, outcomes: Seq<Outcome>) -> Seq<Action>
        decreases outcomes.len(),
    {
        if outcomes.len() == 0 {
            Seq::empty()
        } else {
            seq![self.step(outcomes[0]).pending] + self.step(outcomes[0]).asked(
                outcomes.drop_first(),
            )
        }
    }

    /// Whether the report `outcome`, given in this state, tells the
    /// coordinator that shutdown was signalled.
    pub open spec fn sees_shutdown(self, outcome: Outcome) -> bool {
        match (self.pending, outcome) {
            (Action::ObserveShutdown, Outcome::Shutdown(raised)) => raised,
            (Action::Wait, Outcome::SignalChanged { sender_gone, raised }) => sender_gone || raised,
            _ => false,
        }
    }

    /// A coordinator at the top of its first iteration. The owner has started
    /// the serving endpoint before the loop begins.
    pub fn new() -> (c: Coordinator)
        ensures
            c == (Coordinator { pending: Action::ObserveShutdown, slot_live: true }),
            c.wf(),
    {
        Coordinator { pending: Action::ObserveShutdown, slot_live: true }
    }

    /// The action that the driver has to perform now.
    pub fn pending(&self) -> (a: Action)
        ensures
            a == self.pending,
    {
        self.pending
    }

    /// The lifecycle state.
    pub fn mode(&self) -> (m: Mode)
        ensures
            m == self.mode_of(),
    {
        match self.pending {
            Action::AbortServer | Action::StartServer | Action::InstallServer => Mode::Repairing,
            Action::Stop => Mode::ShuttingDown,
            _ => Mode::Running,
        }
    }

    /// Takes the driver's report for the pending action and moves to the next
    /// action. Returns whether the report answered the pending action; one
    /// that does not is ignored.
    pub fn advance(&mut self, outcome: Outcome) -> (accepted: bool)
        ensures
            accepted == answers(old(self).pending, outcome),
            *final(self) == old(self).step(outcome),
            old(self).wf() ==> final(self).wf(),
    {
        let next = match (self.pending, outcome) {
            (Action::ObserveShutdown, Outcome::Shutdown(raised)) => {
                if raised { Action::Stop } else { Action::ProbeEndpoint }
            },
            (Action::ProbeEndpoint, Outcome::Endpoint(present)) => {
                if present { Action::Register } else { Action::AbortServer }
            },
            (Action::AbortServer, Outcome::Done) => {
                self.slot_live = false;
                Action::StartServer
            },
            (Action::StartServer, Outcome::Started(ok)) => {
                if ok { Action::InstallServer } else { Action::Register }
            },
            (Action::InstallServer, Outcome::Done) => {
                self.slot_live = true;
                Action::Register
            },
            (Action::Register, Outcome::Registered(_)) => Action::Wait,
            (Action::Wait, Outcome::Elapsed) => Action::ObserveShutdown,
            (Action::Wait, Outcome::SignalChanged { sender_gone, raised }) => {
                if sender_gone || raised { Action::Stop } else { Action::ObserveShutdown }
            },
            _ => {
                return false;
            },
        };
        self.pending = next;
        true
    }
}

/// A state that obeys `wf` holds at most one serving endpoint that was
/// started and not aborted.
pub proof fn lemma_at_most_one_server(c: Coordinator)
    requires
        c.wf(),
    ensures
        c.live_servers() <= 1,
{
}

/// Every report keeps `wf`: a fresh endpoint is started and installed only
/// after the old one was aborted, whatever the driver reports.
pub proof fn lemma_run_keeps_wf(c: Coordinator, outcomes: Seq<Outcome>)
    requires
        c.wf(),
    ensures
        c.run(outcomes).wf(),
        c.run(outcomes).live_servers() <= 1,
    decreases outcomes.len(),
{
    if outcomes.len() > 0 {
        lemma_run_keeps_wf(c.step(outcomes[0]), outcomes.drop_first());
    }
}

/// The restart law. An iteration that finds the endpoint's path missing asks
/// for exactly this: abort the old endpoint, start a new one, install its
/// handle (once), register, wait. The abort comes before the install and the
/// registration after it, and the slot holds a live endpoint again.
pub proof fn lemma_repair_then_register(c: Coordinator, registered: bool)
    requires
        c.pending == Action::ObserveShutdown,
    ensures
        ({
            let reports = seq![
                Outcome::Shutdown(false),
                Outcome::Endpoint(false),
                Outcome::Done,
                Outcome::Started(true),
                Outcome::Done,
                Outcome::Registered(registered),
            ];
            &&& c.asked(reports) == seq![
                Action::ProbeEndpoint,
                Action::AbortServer,
                Action::StartServer,
                Action::InstallServer,
                Action::Register,
                Action::Wait,
            ]
            &&& c.run(reports) == (Coordinator { pending: Action::Wait, slot_live: true })
        }),
{
    let reports = seq![
        Outcome::Shutdown(false),
        Outcome::Endpoint(false),
        Outcome::Done,
        Outcome::Started(true),
        Outcome::Done,
        Outcome::Registered(registered),
    ];
    let r1 = reports.drop_first();
    let r2 = r1.drop_first();
    let r3 = r2.drop_first();
    let r4 = r3.drop_first();
    let r5 = r4.drop_first();
    let r6 = r5.drop_first();
    let c1 = c.step(reports[0]);
    let c2 = c1.step(r1[0]);
    let c3 = c2.step(r2[0]);
    let c4 = c3.step(r3[0]);
    let c5 = c4.step(r4[0]);
    let c6 = c5.step(r5[0]);
    assert(r6.len() == 0);
    assert(c6.asked(r6) == Seq::<Action>::empty());
    assert(c5.asked(r5) == seq![Action::Wait]);
    assert(c4.asked(r4) == seq![Action::Register, Action::Wait]);
    assert(c3.asked(r3) == seq![Action::InstallServer, Action::Register, Action::Wait]);
    assert(c2.asked(r2) == seq![
        Action::StartServer,
        Action::InstallServer,
        Action::Register,
        Action::Wait,
    ]);
    assert(c1.asked(r1) == seq![
        Action::AbortServer,
        Action::StartServer,
        Action::InstallServer,
        Action::Register,
        Action::Wait,
    ]);
    assert(c6.run(r6) == c6);
    assert(c5.run(r5) == c6);
    assert(c4.run(r4) == c6);
    assert(c3.run(r3) == c6);
    assert(c2.run(r2) == c6);
    assert(c1.run(r1) == c6);
}

/// The order of a repair, in every run. Whatever the state and the report:
/// an abort is asked for only when the probe found the path missing; a start
/// only after an abort, with the slot empty; an install only after a start
/// that succeeded; and a registration only after a probe that found the path,
/// after a start that failed, or after an install. The slot changes only by
/// an abort or an install.
pub proof fn lemma_repair_steps_in_order(c: Coordinator, outcome: Outcome)
    requires
        answers(c.pending, outcome),
    ensures
        c.step(outcome).pending == Action::AbortServer ==> c.pending == Action::ProbeEndpoint
            && outcome == Outcome::Endpoint(false),
        c.step(outcome).pending == Action::StartServer ==> c.pending == Action::AbortServer
            && !c.step(outcome).slot_live,
        c.step(outcome).pending == Action::InstallServer ==> c.pending == Action::StartServer
            && outcome == Outcome::Started(true),
        c.step(outcome).pending == Action::Register ==> (c.pending == Action::ProbeEndpoint
            && outcome == Outcome::Endpoint(true)) || (c.pending == Action::StartServer && outcome
            == Outcome::Started(false)) || c.pending == Action::InstallServer,
        c.step(outcome).slot_live != c.slot_live ==> c.pending == Action::AbortServer || c.pending
            == Action::InstallServer,
{
}

/// A restart that fails is not fatal: the iteration goes on to register and
/// wait, nothing is installed, and the slot stays empty, so that the next
/// iteration which finds the path missing tries again.
pub proof fn lemma_failed_restart_goes_on(c: Coordinator, registered: bool)
    requires
        c.pending == Action::StartServer,
        c.wf(),
    ensures
        c.step(Outcome::Started(false)).pending == Action::Register,
        c.step(Outcome::Started(false)).step(Outcome::Registered(registered)).pending
            == Action::Wait,
        !c.step(Outcome::Started(false)).step(Outcome::Registered(registered)).slot_live,
{
}

/// A registration that fails is not fatal either: the loop waits and comes
/// round again exactly as after one that succeeded.
pub proof fn lemma_registration_result_is_ignored(c: Coordinator)
    requires
        c.pending == Action::Register,
    ensures
        c.step(Outcome::Registered(false)) == c.step(Outcome::Registered(true)),
        c.step(Outcome::Registered(false)).pending == Action::Wait,
{
}

/// Once the loop has stopped it stays stopped: no report starts another
/// iteration or changes the state.
pub proof fn lemma_stop_is_final(c: Coordinator, outcomes: Seq<Outcome>)
    requires
        c.pending == Action::Stop,
    ensures
        c.run(outcomes) == c,
        c.asked(outcomes).len() == outcomes.len(),
        forall|i: int| 0 <= i < outcomes.len() ==> c.asked(outcomes)[i] == Action::Stop,
    decreases outcomes.len(),
{
    if outcomes.len() > 0 {
        assert(c.step(outcomes[0]) == c);
        lemma_stop_is_final(c, outcomes.drop_first());
    }
}

/// The shutdown law. After a report that shows the signal raised, whether at
/// the top of an iteration or during the wait, the loop is over: whatever is
/// reported later, every action asked for is `Stop`, and the serving slot is
/// left as it was for the owner to stop.
pub proof fn lemma_no_iteration_after_shutdown(
    c: Coordinator,
    outcome: Outcome,
    later: Seq<Outcome>,
)
    requires
        c.sees_shutdown(outcome),
    ensures
        c.step(outcome).mode_of() == Mode::ShuttingDown,
        c.step(outcome).run(later).pending == Action::Stop,
        c.step(outcome).run(later).slot_live == c.slot_live,
        forall|i: int|
            0 <= i < later.len() ==> c.step(outcome).asked(later)[i] == Action::Stop,
{
    lemma_stop_is_final(c.step(outcome), later);
}

} // verus!
