use cdi_device_plugin::watch::{Watch, WatchAction, WatchReport};

#[test]
fn stream_sends_once_then_holds_until_the_signal_is_raised() {
    let mut watch = Watch::start();
    assert_eq!(watch.pending(), WatchAction::SendList);
    assert!(watch.advance(WatchReport::Sent(true)));
    assert_eq!(watch.pending(), WatchAction::ObserveSignal);
    for _ in 0..5 {
        assert!(watch.advance(WatchReport::Signal(false)));
        assert_eq!(watch.pending(), WatchAction::AwaitChange);
        assert!(watch.advance(WatchReport::Changed { sender_gone: false }));
        assert_eq!(watch.pending(), WatchAction::ObserveSignal);
    }
    assert!(watch.advance(WatchReport::Signal(true)));
    assert_eq!(watch.pending(), WatchAction::Release);
}

#[test]
fn stream_is_released_at_once_if_the_signal_is_already_raised() {
    let mut watch = Watch::start();
    watch.advance(WatchReport::Sent(true));
    assert!(watch.advance(WatchReport::Signal(true)));
    assert_eq!(watch.pending(), WatchAction::Release);
}

#[test]
fn stream_is_released_when_the_signal_can_no_longer_be_raised() {
    let mut watch = Watch::start();
    watch.advance(WatchReport::Sent(true));
    watch.advance(WatchReport::Signal(false));
    assert!(watch.advance(WatchReport::Changed { sender_gone: true }));
    assert_eq!(watch.pending(), WatchAction::Release);
}

#[test]
fn stream_fails_if_the_list_cannot_be_sent() {
    let mut watch = Watch::start();
    assert!(watch.advance(WatchReport::Sent(false)));
    assert_eq!(watch.pending(), WatchAction::Fail);
    assert!(!watch.advance(WatchReport::Signal(true)));
    assert!(!watch.advance(WatchReport::Sent(true)));
    assert_eq!(watch.pending(), WatchAction::Fail);
}

#[test]
fn a_released_stream_does_nothing_more() {
    let mut watch = Watch { pending: WatchAction::Release };
    for report in [
        WatchReport::Sent(true),
        WatchReport::Signal(false),
        WatchReport::Signal(true),
        WatchReport::Changed { sender_gone: false },
        WatchReport::Changed { sender_gone: true },
    ] {
        assert!(!watch.advance(report));
        assert_eq!(watch.pending(), WatchAction::Release);
    }
}

#[test]
fn a_report_for_another_action_is_ignored() {
    let mut watch = Watch::start();
    assert!(!watch.advance(WatchReport::Signal(true)));
    assert!(!watch.advance(WatchReport::Changed { sender_gone: true }));
    assert_eq!(watch.pending(), WatchAction::SendList);
    watch.advance(WatchReport::Sent(true));
    assert!(!watch.advance(WatchReport::Sent(true)));
    assert!(!watch.advance(WatchReport::Changed { sender_gone: true }));
    assert_eq!(watch.pending(), WatchAction::ObserveSignal);
    watch.advance(WatchReport::Signal(false));
    assert!(!watch.advance(WatchReport::Signal(true)));
    assert_eq!(watch.pending(), WatchAction::AwaitChange);
}

#[test]
fn many_subscribers_are_released_by_the_same_signal() {
    let mut streams: Vec<Watch> = (0..16).map(|_| Watch::start()).collect();
    for stream in streams.iter_mut() {
        stream.advance(WatchReport::Sent(true));
        stream.advance(WatchReport::Signal(false));
        assert_eq!(stream.pending(), WatchAction::AwaitChange);
    }
    for stream in streams.iter_mut() {
        stream.advance(WatchReport::Changed { sender_gone: false });
        stream.advance(WatchReport::Signal(true));
    }
    assert!(streams.iter().all(|s| s.pending() == WatchAction::Release));
}
