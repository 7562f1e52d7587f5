use network_launcher::discovery::{judge, DiscoveryError, Notification, Outcome, PortDiscovery};

fn contents(text: &str) -> Notification {
    Notification::Contents(text.to_string())
}

#[test]
fn nothing_is_delivered_before_the_line_is_finished() {
    let mut session = PortDiscovery::new();
    assert_eq!(session.notify(&Notification::FileMissing), None);
    assert_eq!(session.notify(&contents("")), None);
    assert_eq!(session.notify(&contents("80")), None);
    assert_eq!(session.notify(&contents("8080")), None);
    assert!(!session.is_settled());
    assert_eq!(session.outcome(), None);
    assert_eq!(session.notify(&contents("8080\n")), Some(Outcome::Port(8080)));
    assert!(session.is_settled());
    assert_eq!(session.outcome(), Some(Outcome::Port(8080)));
}

#[test]
fn malformed_contents_fail_and_deliver_no_port() {
    for text in ["abc\n", "65536\n", "\n", "-1\n", "80 80\n"] {
        let mut session = PortDiscovery::new();
        assert_eq!(
            session.notify(&contents(text)),
            Some(Outcome::Failed(DiscoveryError::MalformedPort))
        );
        assert_eq!(session.notify(&contents("8080\n")), None);
        assert_eq!(session.outcome(), Some(Outcome::Failed(DiscoveryError::MalformedPort)));
    }
}

#[test]
fn at_most_one_outcome_is_delivered() {
    let mut session = PortDiscovery::new();
    let events = [
        Notification::FileMissing,
        contents("12"),
        contents("1234\n"),
        contents("1234\n"),
        contents("5678\n"),
        Notification::WatchFailed,
        Notification::ReadFailed,
        contents("junk\n"),
    ];
    let mut delivered = 0;
    for event in &events {
        if session.notify(event).is_some() {
            delivered += 1;
        }
    }
    assert_eq!(delivered, 1);
    assert_eq!(session.outcome(), Some(Outcome::Port(1234)));
}

#[test]
fn watcher_error_is_a_failure() {
    let mut session = PortDiscovery::new();
    assert_eq!(
        session.notify(&Notification::WatchFailed),
        Some(Outcome::Failed(DiscoveryError::WatchFailed))
    );
    assert_eq!(session.notify(&contents("80\n")), None);
}

#[test]
fn read_error_is_a_failure() {
    let mut session = PortDiscovery::new();
    assert_eq!(session.notify(&Notification::FileMissing), None);
    assert_eq!(
        session.notify(&Notification::ReadFailed),
        Some(Outcome::Failed(DiscoveryError::ReadFailed))
    );
    assert_eq!(session.outcome(), Some(Outcome::Failed(DiscoveryError::ReadFailed)));
}

#[test]
fn judging_does_not_depend_on_a_session() {
    assert_eq!(judge(&Notification::FileMissing), None);
    assert_eq!(judge(&contents("17")), None);
    assert_eq!(judge(&contents("17\n")), Some(Outcome::Port(17)));
    assert_eq!(judge(&contents("x\n")), Some(Outcome::Failed(DiscoveryError::MalformedPort)));
    assert_eq!(judge(&Notification::WatchFailed), Some(Outcome::Failed(DiscoveryError::WatchFailed)));
    assert_eq!(judge(&Notification::ReadFailed), Some(Outcome::Failed(DiscoveryError::ReadFailed)));
}
