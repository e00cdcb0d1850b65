use cdi_device_plugin::coordinator::{
    Action, Coordinator, Mode, Outcome, REGISTRATION_INTERVAL_SECS,
};

fn drive(coordinator: &mut Coordinator, outcomes: &[Outcome]) -> Vec<Action> {
    outcomes
        .iter()
        .map(|outcome| {
            assert!(coordinator.advance(*outcome));
            coordinator.pending()
        })
        .collect()
}

#[test]
fn registration_interval_is_ten_seconds() {
    assert_eq!(REGISTRATION_INTERVAL_SECS, 10);
}

#[test]
fn new_coordinator_reads_the_signal_first() {
    let coordinator = Coordinator::new();
    assert_eq!(coordinator.pending(), Action::ObserveShutdown);
    assert_eq!(coordinator.mode(), Mode::Running);
    assert!(coordinator.slot_live);
}

#[test]
fn quiet_iteration_probes_registers_and_waits() {
    let mut coordinator = Coordinator::new();
    let asked = drive(
        &mut coordinator,
        &[
            Outcome::Shutdown(false),
            Outcome::Endpoint(true),
            Outcome::Registered(true),
            Outcome::Elapsed,
        ],
    );
    assert_eq!(
        asked,
        vec![Action::ProbeEndpoint, Action::Register, Action::Wait, Action::ObserveShutdown]
    );
    assert_eq!(coordinator, Coordinator::new());
}

#[test]
fn missing_endpoint_is_aborted_restarted_installed_then_registered() {
    let mut coordinator = Coordinator::new();
    let asked = drive(
        &mut coordinator,
        &[
            Outcome::Shutdown(false),
            Outcome::Endpoint(false),
            Outcome::Done,
            Outcome::Started(true),
            Outcome::Done,
            Outcome::Registered(true),
        ],
    );
    assert_eq!(
        asked,
        vec![
            Action::ProbeEndpoint,
            Action::AbortServer,
            Action::StartServer,
            Action::InstallServer,
            Action::Register,
            Action::Wait,
        ]
    );
    assert_eq!(asked.iter().filter(|a| **a == Action::InstallServer).count(), 1);
    assert!(coordinator.slot_live);
    assert_eq!(coordinator.mode(), Mode::Running);
}

#[test]
fn repair_goes_through_the_repairing_mode() {
    let mut coordinator = Coordinator::new();
    coordinator.advance(Outcome::Shutdown(false));
    coordinator.advance(Outcome::Endpoint(false));
    assert_eq!(coordinator.mode(), Mode::Repairing);
    assert!(coordinator.slot_live);
    coordinator.advance(Outcome::Done);
    assert_eq!(coordinator.pending(), Action::StartServer);
    assert_eq!(coordinator.mode(), Mode::Repairing);
    assert!(!coordinator.slot_live);
    coordinator.advance(Outcome::Started(true));
    assert_eq!(coordinator.mode(), Mode::Repairing);
    assert!(!coordinator.slot_live);
    coordinator.advance(Outcome::Done);
    assert_eq!(coordinator.mode(), Mode::Running);
    assert!(coordinator.slot_live);
}

#[test]
fn failed_restart_is_retried_in_the_next_iteration() {
    let mut coordinator = Coordinator::new();
    let asked = drive(
        &mut coordinator,
        &[
            Outcome::Shutdown(false),
            Outcome::Endpoint(false),
            Outcome::Done,
            Outcome::Started(false),
            Outcome::Registered(false),
            Outcome::Elapsed,
            Outcome::Shutdown(false),
            Outcome::Endpoint(false),
            Outcome::Done,
            Outcome::Started(true),
            Outcome::Done,
            Outcome::Registered(true),
        ],
    );
    assert_eq!(
        asked,
        vec![
            Action::ProbeEndpoint,
            Action::AbortServer,
            Action::StartServer,
            Action::Register,
            Action::Wait,
            Action::ObserveShutdown,
            Action::ProbeEndpoint,
            Action::AbortServer,
            Action::StartServer,
            Action::InstallServer,
            Action::Register,
            Action::Wait,
        ]
    );
    assert!(coordinator.slot_live);
}

#[test]
fn failed_registration_is_not_fatal() {
    let mut coordinator = Coordinator::new();
    let asked = drive(
        &mut coordinator,
        &[
            Outcome::Shutdown(false),
            Outcome::Endpoint(true),
            Outcome::Registered(false),
            Outcome::Elapsed,
            Outcome::Shutdown(false),
            Outcome::Endpoint(true),
            Outcome::Registered(true),
        ],
    );
    assert_eq!(asked[2], Action::Wait);
    assert_eq!(asked[3], Action::ObserveShutdown);
    assert_eq!(asked[6], Action::Wait);
}

#[test]
fn shutdown_at_the_top_of_an_iteration_stops_the_loop() {
    let mut coordinator = Coordinator::new();
    assert!(coordinator.advance(Outcome::Shutdown(true)));
    assert_eq!(coordinator.pending(), Action::Stop);
    assert_eq!(coordinator.mode(), Mode::ShuttingDown);
}

#[test]
fn shutdown_during_the_wait_stops_the_loop() {
    let mut coordinator = Coordinator { pending: Action::Wait, slot_live: true };
    assert!(coordinator.advance(Outcome::SignalChanged { sender_gone: false, raised: true }));
    assert_eq!(coordinator.pending(), Action::Stop);
    let mut coordinator = Coordinator { pending: Action::Wait, slot_live: true };
    assert!(coordinator.advance(Outcome::SignalChanged { sender_gone: true, raised: false }));
    assert_eq!(coordinator.pending(), Action::Stop);
}

#[test]
fn a_change_that_leaves_the_signal_low_starts_the_next_iteration() {
    let mut coordinator = Coordinator { pending: Action::Wait, slot_live: true };
    assert!(coordinator.advance(Outcome::SignalChanged { sender_gone: false, raised: false }));
    assert_eq!(coordinator.pending(), Action::ObserveShutdown);
}

#[test]
fn nothing_follows_stop() {
    let mut coordinator = Coordinator { pending: Action::Stop, slot_live: true };
    for outcome in [
        Outcome::Shutdown(false),
        Outcome::Endpoint(false),
        Outcome::Done,
        Outcome::Started(true),
        Outcome::Registered(true),
        Outcome::Elapsed,
        Outcome::SignalChanged { sender_gone: false, raised: false },
    ] {
        assert!(!coordinator.advance(outcome));
        assert_eq!(coordinator, Coordinator { pending: Action::Stop, slot_live: true });
    }
}

#[test]
fn a_report_that_does_not_answer_is_ignored() {
    let mut coordinator = Coordinator::new();
    assert!(!coordinator.advance(Outcome::Endpoint(false)));
    assert!(!coordinator.advance(Outcome::Done));
    assert!(!coordinator.advance(Outcome::Elapsed));
    assert_eq!(coordinator, Coordinator::new());
    coordinator.advance(Outcome::Shutdown(false));
    assert!(!coordinator.advance(Outcome::Shutdown(true)));
    assert!(!coordinator.advance(Outcome::Started(true)));
    assert_eq!(coordinator.pending(), Action::ProbeEndpoint);
}
