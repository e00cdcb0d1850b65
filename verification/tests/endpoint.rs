use cdi_device_plugin::endpoint::{
    poll_step, PollStep, Start, StartAction, StartFailure, StartReport, CONNECT_RETRY_MS,
    SOCKET_TIMEOUT_MS,
};

fn drive(reports: &[StartReport]) -> Vec<StartAction> {
    let mut start = Start::new();
    assert_eq!(start.pending(), StartAction::ProbePath);
    reports
        .iter()
        .map(|report| {
            assert!(start.advance(*report));
            start.pending()
        })
        .collect()
}

#[test]
fn start_without_a_stale_file_binds_and_serves() {
    assert_eq!(
        drive(&[StartReport::Exists(false), StartReport::Bound(true), StartReport::Spawned]),
        vec![StartAction::Bind, StartAction::Serve, StartAction::Ready]
    );
}

#[test]
fn start_removes_a_stale_file_first() {
    assert_eq!(
        drive(&[
            StartReport::Exists(true),
            StartReport::Removed(true),
            StartReport::Bound(true),
            StartReport::Spawned
        ]),
        vec![StartAction::RemoveStale, StartAction::Bind, StartAction::Serve, StartAction::Ready]
    );
}

#[test]
fn start_is_the_same_after_the_stale_file_is_gone() {
    let mut with_stale = Start::new();
    with_stale.advance(StartReport::Exists(true));
    with_stale.advance(StartReport::Removed(true));
    let mut without = Start::new();
    without.advance(StartReport::Exists(false));
    assert_eq!(with_stale, without);
    for report in [StartReport::Bound(true), StartReport::Spawned] {
        assert_eq!(with_stale.advance(report), without.advance(report));
        assert_eq!(with_stale, without);
    }
    assert_eq!(with_stale.pending(), StartAction::Ready);
}

#[test]
fn start_fails_where_a_step_fails() {
    assert_eq!(
        drive(&[StartReport::Exists(true), StartReport::Removed(false)]),
        vec![StartAction::RemoveStale, StartAction::Failed(StartFailure::RemoveStale)]
    );
    assert_eq!(
        drive(&[StartReport::Exists(false), StartReport::Bound(false)]),
        vec![StartAction::Bind, StartAction::Failed(StartFailure::Bind)]
    );
}

#[test]
fn a_finished_start_takes_no_more_reports() {
    for pending in [
        StartAction::Ready,
        StartAction::Failed(StartFailure::Bind),
        StartAction::Failed(StartFailure::RemoveStale),
    ] {
        let mut start = Start { pending };
        for report in [
            StartReport::Exists(true),
            StartReport::Removed(true),
            StartReport::Bound(true),
            StartReport::Spawned,
        ] {
            assert!(!start.advance(report));
            assert_eq!(start.pending(), pending);
        }
    }
}

#[test]
fn start_ignores_a_report_for_another_step() {
    let mut start = Start::new();
    assert!(!start.advance(StartReport::Bound(true)));
    assert!(!start.advance(StartReport::Spawned));
    assert_eq!(start.pending(), StartAction::ProbePath);
}

#[test]
fn polling_constants() {
    assert_eq!(CONNECT_RETRY_MS, 200);
    assert_eq!(SOCKET_TIMEOUT_MS, 5000);
}

#[test]
fn poll_is_done_once_connected() {
    assert_eq!(poll_step(true, 0, 5000), PollStep::Ready);
    assert_eq!(poll_step(true, 5000, 5000), PollStep::Ready);
    assert_eq!(poll_step(true, u64::MAX, 0), PollStep::Ready);
}

#[test]
fn poll_retries_before_the_deadline() {
    assert_eq!(poll_step(false, 0, 5000), PollStep::Retry { delay_ms: 200 });
    assert_eq!(poll_step(false, 4999, 5000), PollStep::Retry { delay_ms: 200 });
}

#[test]
fn poll_gives_up_at_the_deadline() {
    assert_eq!(poll_step(false, 5000, 5000), PollStep::TimedOut);
    assert_eq!(poll_step(false, 5001, 5000), PollStep::TimedOut);
    assert_eq!(poll_step(false, 0, 0), PollStep::TimedOut);
}

#[test]
fn polling_ends_within_the_timeout() {
    let mut elapsed = 0;
    let mut attempts = 0;
    loop {
        attempts += 1;
        match poll_step(false, elapsed, SOCKET_TIMEOUT_MS) {
            PollStep::Retry { delay_ms } => elapsed += delay_ms,
            PollStep::TimedOut => break,
            PollStep::Ready => unreachable!(),
        }
    }
    assert_eq!(attempts, 26);
    assert_eq!(elapsed, 5000);
}
