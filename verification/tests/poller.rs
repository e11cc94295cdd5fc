use pos_printing::poller::{
    DownloadProgress, PollerAction, PollerEvent, PollerPhase, UpdatePoller, POLL_INTERVAL_SECS,
    UPDATE_READY_EVENT,
};

fn found(version: &str) -> PollerEvent {
    PollerEvent::UpdateAvailable { version: version.to_string() }
}

fn chunk(length: u64, total: Option<u64>) -> DownloadProgress {
    DownloadProgress::Chunk { length, total }
}

fn wait() -> PollerAction {
    PollerAction::Sleep { seconds: 600 }
}

/// A poller that has found `version` and is downloading it.
fn downloading(version: &str) -> UpdatePoller {
    let mut poller = UpdatePoller::new();
    assert_eq!(poller.step(PollerEvent::Woke), PollerAction::Check);
    assert_eq!(poller.step(found(version)), PollerAction::DownloadAndInstall);
    poller
}

#[test]
fn interval_and_notification_name_are_fixed() {
    assert_eq!(POLL_INTERVAL_SECS, 600);
    assert_eq!(UPDATE_READY_EVENT, "update-ready");
}

#[test]
fn new_poller_waits_with_nothing_in_flight() {
    let poller = UpdatePoller::new();
    assert_eq!(poller.phase(), PollerPhase::Idle);
    assert_eq!(poller.version(), "");
    assert_eq!(poller.downloaded(), 0);
    assert_eq!(poller.total(), None);
}

#[test]
fn no_update_means_check_and_wait_for_ever() {
    let mut poller = UpdatePoller::new();
    for _ in 0..1000 {
        assert_eq!(poller.step(PollerEvent::Woke), PollerAction::Check);
        assert_eq!(poller.phase(), PollerPhase::Checking);
        assert_eq!(poller.step(PollerEvent::NoUpdate), wait());
        assert_eq!(poller.phase(), PollerPhase::Idle);
    }
    assert_eq!(poller.downloaded(), 0);
    assert_eq!(poller.version(), "");
}

#[test]
fn update_is_downloaded_installed_and_announced() {
    let mut poller = downloading("1.4.2");
    assert_eq!(poller.phase(), PollerPhase::Downloading);
    assert_eq!(poller.version(), "1.4.2");
    poller.progress(chunk(1000, Some(2500)));
    assert_eq!(poller.downloaded(), 1000);
    assert_eq!(poller.total(), Some(2500));
    poller.progress(chunk(1500, Some(2500)));
    assert_eq!(poller.downloaded(), 2500);
    assert_eq!(poller.phase(), PollerPhase::Downloading);
    poller.progress(DownloadProgress::Finished);
    assert_eq!(poller.phase(), PollerPhase::Installing);
    assert_eq!(
        poller.step(PollerEvent::Installed),
        PollerAction::Notify { version: "1.4.2".to_string() }
    );
    assert_eq!(poller.phase(), PollerPhase::Ready);
    assert_eq!(poller.step(PollerEvent::Notified), wait());
    assert_eq!(poller.phase(), PollerPhase::Idle);
}

#[test]
fn update_is_announced_without_word_of_its_progress() {
    let mut poller = downloading("1.4.3");
    assert_eq!(
        poller.step(PollerEvent::Installed),
        PollerAction::Notify { version: "1.4.3".to_string() }
    );
}

#[test]
fn update_once_then_failing_checks_announce_once_and_go_on() {
    let mut poller = downloading("2.0.0");
    let mut announced = Vec::new();
    poller.progress(chunk(10, None));
    poller.progress(DownloadProgress::Finished);
    let mut events = vec![PollerEvent::Installed, PollerEvent::Notified];
    for _ in 0..200 {
        events.push(PollerEvent::Woke);
        events.push(PollerEvent::Failed);
    }
    for event in events {
        let action = poller.step(event);
        assert_ne!(action, PollerAction::Stop);
        if let PollerAction::Notify { version } = action {
            announced.push(version);
        }
    }
    assert_eq!(announced, vec!["2.0.0".to_string()]);
    assert_eq!(poller.phase(), PollerPhase::Idle);
    assert_eq!(poller.step(PollerEvent::Woke), PollerAction::Check);
}

#[test]
fn failure_in_any_phase_ends_the_cycle_and_not_the_poller() {
    let mut poller = UpdatePoller::new();
    poller.step(PollerEvent::Woke);
    assert_eq!(poller.step(PollerEvent::Failed), wait());

    let mut poller = downloading("3.0.0");
    poller.progress(chunk(5, Some(9)));
    assert_eq!(poller.step(PollerEvent::Failed), wait());
    assert_eq!(poller.phase(), PollerPhase::Idle);

    let mut poller = downloading("3.0.0");
    poller.progress(DownloadProgress::Finished);
    assert_eq!(poller.step(PollerEvent::Failed), wait());
    assert_eq!(poller.phase(), PollerPhase::Idle);

    let mut poller = downloading("3.0.0");
    poller.step(PollerEvent::Installed);
    assert_eq!(poller.step(PollerEvent::Failed), wait());
    assert_eq!(poller.step(PollerEvent::Woke), PollerAction::Check);
}

#[test]
fn counter_starts_again_with_every_download() {
    let mut poller = downloading("1.0.1");
    poller.progress(chunk(700, Some(700)));
    poller.step(PollerEvent::Failed);
    assert_eq!(poller.downloaded(), 700);
    poller.step(PollerEvent::Woke);
    poller.step(found("1.0.2"));
    assert_eq!(poller.downloaded(), 0);
    assert_eq!(poller.total(), None);
    assert_eq!(poller.version(), "1.0.2");
}

#[test]
fn counter_stops_at_the_largest_count() {
    let mut poller = downloading("1.0.1");
    poller.progress(chunk(u64::MAX - 1, None));
    assert_eq!(poller.downloaded(), u64::MAX - 1);
    poller.progress(chunk(1, None));
    assert_eq!(poller.downloaded(), u64::MAX);
    poller.progress(chunk(5, None));
    assert_eq!(poller.downloaded(), u64::MAX);
}

#[test]
fn progress_counts_only_while_a_download_runs() {
    let mut poller = UpdatePoller::new();
    poller.progress(chunk(9, Some(9)));
    poller.progress(DownloadProgress::Finished);
    assert_eq!(poller.phase(), PollerPhase::Idle);
    assert_eq!(poller.downloaded(), 0);
    assert_eq!(poller.total(), None);

    let mut poller = downloading("5.0.0");
    poller.progress(chunk(4, Some(8)));
    poller.progress(DownloadProgress::Finished);
    poller.progress(chunk(4, Some(8)));
    assert_eq!(poller.downloaded(), 4);
    assert_eq!(poller.phase(), PollerPhase::Installing);
}

#[test]
fn event_that_was_not_waited_for_ends_the_cycle() {
    let mut poller = UpdatePoller::new();
    for event in [
        PollerEvent::NoUpdate,
        found("9"),
        PollerEvent::Installed,
        PollerEvent::Failed,
        PollerEvent::Notified,
    ] {
        assert_eq!(poller.step(event), wait());
        assert_eq!(poller.phase(), PollerPhase::Idle);
        assert_eq!(poller.version(), "");
    }
    poller.step(PollerEvent::Woke);
    assert_eq!(poller.step(PollerEvent::Woke), wait());
    assert_eq!(poller.phase(), PollerPhase::Idle);
    poller.step(PollerEvent::Woke);
    assert_eq!(poller.step(PollerEvent::Installed), wait());
    let mut poller = downloading("7.0.0");
    assert_eq!(poller.step(found("7.0.1")), wait());
    assert_eq!(poller.version(), "7.0.0");
}

#[test]
fn poller_stops_when_asked_in_any_phase() {
    let mut poller = UpdatePoller::new();
    assert_eq!(poller.step(PollerEvent::CancelRequested), PollerAction::Stop);
    assert_eq!(poller.phase(), PollerPhase::Stopped);

    let mut poller = UpdatePoller::new();
    poller.step(PollerEvent::Woke);
    assert_eq!(poller.step(PollerEvent::CancelRequested), PollerAction::Stop);

    let mut poller = downloading("4.1.0");
    assert_eq!(poller.step(PollerEvent::CancelRequested), PollerAction::Stop);
    assert_eq!(poller.phase(), PollerPhase::Stopped);
}

#[test]
fn stopped_poller_stays_stopped() {
    let mut poller = UpdatePoller::new();
    poller.step(PollerEvent::CancelRequested);
    for event in [
        PollerEvent::Woke,
        PollerEvent::NoUpdate,
        found("1"),
        PollerEvent::Installed,
        PollerEvent::Failed,
        PollerEvent::Notified,
        PollerEvent::CancelRequested,
    ] {
        assert_eq!(poller.step(event), PollerAction::Stop);
        assert_eq!(poller.phase(), PollerPhase::Stopped);
    }
    poller.progress(chunk(1, None));
    assert_eq!(poller.downloaded(), 0);
}
