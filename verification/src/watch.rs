//! The life of one `ListAndWatch` stream.
//!
//! The device set never changes after startup, so a stream carries exactly
//! one update, the whole inventory, and is then only held open. What holds
//! it open is a keep-alive task that watches the shutdown signal and lets go
//! of the stream's sending side when the signal is raised; the stream then
//! ends for the subscriber. Every subscriber has a stream, and a `Watch`,
//! of its own.
//!
//! As with the coordinator, the driver performs the pending `WatchAction`
//! and reports what happened.

use vstd::prelude::*;

verus! {

/// What the driver of a stream is asked to do next.
#[derive(Clone, Copy, Debug, PartialEq, Eq, Structural)]
pub enum WatchAction {
    /// Put the device list on the stream.
    SendList,
    /// Read the current value of the shutdown signal.
    ObserveSignal,
    /// Sleep until the shutdown signal changes.
    AwaitChange,
    /// Let go of the sending side: the stream ends. Nothing follows.
    Release,
    /// Fail the call with `Status::send_failure()`. Nothing follows.
    Fail,
}

/// What the driver reports after performing an action.
#[derive(Clone, Copy, Debug, PartialEq, Eq, Structural)]
pub enum WatchReport {
    /// Answer to `SendList`: whether the stream took the list.
    Sent(bool),
    /// Answer to `ObserveSignal`: the signal's value.
    Signal(bool),
    /// Answer to `AwaitChange`: the signal changed, or, with `sender_gone`,
    /// nobody is left who could raise it.
    Changed { sender_gone: bool },
}

/// Whether `report` is an answer that the driver may give to `action`.
pub open spec fn watch_answers(action: WatchAction, report: WatchReport) -> bool {
    match action {
        WatchAction::SendList => report is Sent,
        WatchAction::ObserveSignal => report is Signal,
        WatchAction::AwaitChange => report is Changed,
        WatchAction::Release => false,
        WatchAction::Fail => false,
    }
}

/// Whether `report` shows that the stream has to end: the signal is raised,
/// or can never be.
pub open spec fn shows_shutdown(report: WatchReport) -> bool {
    match report {
        WatchReport::Signal(raised) => raised,
        WatchReport::Changed { sender_gone } => sender_gone,
        WatchReport::Sent(_) => false,
    }
}

/// The state of one stream: the action it waits for.
#[derive(Clone, Copy, Debug, PartialEq, Eq, Structural)]
pub struct Watch {
    pub pending: WatchAction,
}

impl Watch {
    /// The state after `report` was given for the pending action. A report
    /// that does not answer the pending action changes nothing.
    pub open spec fn step(self, report: WatchReport) -> Watch {
        match (self.pending, report) {
            (WatchAction::SendList, WatchReport::Sent(ok)) => Watch {
                pending: if ok { WatchAction::ObserveSignal } else { WatchAction::Fail },
            },
            (WatchAction::ObserveSignal, WatchReport::Signal(raised)) => Watch {
                pending: if raised { WatchAction::Release } else { WatchAction::AwaitChange },
            },
            (WatchAction::AwaitChange, WatchReport::Changed { sender_gone }) => Watch {
                pending: if sender_gone { WatchAction::Release } else { WatchAction::ObserveSignal },
            },
            _ => self,
        }
    }

    /// The state after the reports `reports`, taken in order.
    pub open spec fn run(self, reports: Seq<WatchReport>) -> Watch
        decreases reports.len(),
    {
        if reports.len() == 0 {
            self
        } else {
            self.step(reports[0]).run(reports.drop_first())
        }
    }

    /// The number of device lists that the subscriber has been sent.
    pub open spec fn updates_sent(self) -> nat {
        match self.pending {
            WatchAction::SendList | WatchAction::Fail => 0,
            _ => 1,
        }
    }

    /// Whether the stream is open: the list was sent and the sending side
    /// is still held.
    pub open spec fn is_open(self) -> bool {
        self.pending == WatchAction::ObserveSignal || self.pending == WatchAction::AwaitChange
    }

    /// Whether the stream has ended, in either way.
    pub open spec fn is_over(self) -> bool {
        self.pending == WatchAction::Release || self.pending == WatchAction::Fail
    }

    /// A stream that a subscriber has just asked for.
    pub fn start() -> (w: Watch)
        ensures
            w.pending == WatchAction::SendList,
    {
        Watch { pending: WatchAction::SendList }
    }

    /// The action that the driver has to perform now.
    pub fn pending(&self) -> (a: WatchAction)
        ensures
            a == self.pending,
    {
        self.pending
    }

    /// Takes the driver's report for the pending action and moves to the
    /// next action. Returns whether the report answered the pending action;
    /// one that does not is ignored.
    pub fn advance(&mut self, report: WatchReport) -> (accepted: bool)
        ensures
            accepted == watch_answers(old(self).pending, report),
            *final(self) == old(self).step(report),
    {
        let next = match (self.pending, report) {
            (WatchAction::SendList, WatchReport::Sent(ok)) => {
                if ok { WatchAction::ObserveSignal } else { WatchAction::Fail }
            },
            (WatchAction::ObserveSignal, WatchReport::Signal(raised)) => {
                if raised { WatchAction::Release } else { WatchAction::AwaitChange }
            },
            (WatchAction::AwaitChange, WatchReport::Changed { sender_gone }) => {
                if sender_gone { WatchAction::Release } else { WatchAction::ObserveSignal }
            },
            _ => {
                return false;
            },
        };
        self.pending = next;
        true
    }
}

/// A stream carries its one update first and never a second: once the list
/// was sent, no report brings `SendList` back, and the count of updates
/// stays at one.
pub proof fn lemma_exactly_one_update(w: Watch, reports: Seq<WatchReport>)
    requires
        w.pending != WatchAction::SendList,
    ensures
        w.run(reports).pending != WatchAction::SendList,
        w.run(reports).updates_sent() == w.updates_sent(),
    decreases reports.len(),
{
    if reports.len() > 0 {
        lemma_exactly_one_update(w.step(reports[0]), reports.drop_first());
    }
}

/// An open stream stays open, with nothing more sent, for as long as no
/// report shows the shutdown signal raised.
pub proof fn lemma_open_until_shutdown(w: Watch, reports: Seq<WatchReport>)
    requires
        w.is_open(),
        forall|i: int| 0 <= i < reports.len() ==> !shows_shutdown(#[trigger] reports[i]),
    ensures
        w.run(reports).is_open(),
        w.run(reports).updates_sent() == 1,
    decreases reports.len(),
{
    if reports.len() > 0 {
        let rest = reports.drop_first();
        assert(!shows_shutdown(reports[0]));
        assert forall|i: int| 0 <= i < rest.len() implies !shows_shutdown(#[trigger] rest[i]) by {
            assert(rest[i] == reports[i + 1]);
        }
        lemma_open_until_shutdown(w.step(reports[0]), rest);
    }
}

/// An open stream is released by the first answer that shows the shutdown
/// signal raised, and stays released whatever is reported afterwards.
pub proof fn lemma_released_on_shutdown(w: Watch, report: WatchReport, later: Seq<WatchReport>)
    requires
        w.is_open(),
        watch_answers(w.pending, report),
        shows_shutdown(report),
    ensures
        w.step(report).pending == WatchAction::Release,
        w.step(report).run(later).pending == WatchAction::Release,
{
    lemma_over_is_final(w.step(report), later);
}

/// A stream that has ended does nothing more.
pub proof fn lemma_over_is_final(w: Watch, reports: Seq<WatchReport>)
    requires
        w.is_over(),
    ensures
        w.run(reports) == w,
    decreases reports.len(),
{
    if reports.len() > 0 {
        assert(w.step(reports[0]) == w);
        lemma_over_is_final(w, reports.drop_first());
    }
}

/// After a change of the signal the stream reads the signal again, so a
/// raised signal releases the stream with the next answer.
pub proof fn lemma_change_leads_to_release(w: Watch)
    requires
        w.pending == WatchAction::AwaitChange,
    ensures
        w.step(WatchReport::Changed { sender_gone: false }).step(
            WatchReport::Signal(true),
        ).pending == WatchAction::Release,
{
}

} // verus!
