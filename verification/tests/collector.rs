use rustic_exporter::collector::{
    Action, Event, LogEvent, OpenOutcome, Phase, ReconcileOutcome, RusticCollector, Step,
};
use rustic_exporter::config::{Backup, ConfigurationError, Credential};
use rustic_exporter::metrics::Metric;
use rustic_exporter::model::{RepositoryInfo, Snapshot};
use rustic_exporter::time::Timestamp;

fn backup(name: &str, password: Option<&str>, password_file: Option<&str>) -> Backup {
    Backup {
        name: name.to_string(),
        repository: format!("/srv/{name}"),
        password: password.map(|p| p.to_string()),
        password_file: password_file.map(|f| f.to_string()),
        options: vec![("retry".to_string(), "off".to_string())],
    }
}

fn snapshot(id: &str) -> Snapshot {
    Snapshot {
        id: id.to_string(),
        time: Timestamp::new(1_700_000_000, 0).unwrap(),
        paths: vec!["/data".to_string()],
        tags: vec!["daily".to_string()],
        hostname: "atlas".to_string(),
        username: "backup".to_string(),
        program_version: "rustic 0.9.1".to_string(),
        summary: None,
    }
}

fn info() -> RepositoryInfo {
    RepositoryInfo { id: "0f3a9c".to_string(), version: 2 }
}

fn opened(name: &str) -> RusticCollector {
    let mut collector = RusticCollector::new(backup(name, Some("hunter2"), None), 300);
    collector.start();
    collector.set_repository(OpenOutcome::Opened(info()));
    collector
}

fn ids(snapshots: &[Snapshot]) -> Vec<String> {
    snapshots.iter().map(|s| s.id.clone()).collect()
}

fn is_sleep(step: &Step, seconds: u64) -> bool {
    matches!(step.action, Action::Sleep(s) if s == seconds)
}

#[test]
fn new_collector_is_created_and_unready() {
    let collector = RusticCollector::new(backup("B", Some("hunter2"), None), 300);
    assert_eq!(collector.phase(), Phase::Created);
    assert_eq!(collector.interval(), 300);
    assert_eq!(collector.backup().name, "B");
    let state = collector.snapshot();
    assert!(!state.is_ready());
    assert!(state.repository().is_none());
    assert!(state.snapshots().is_empty());
}

#[test]
fn start_asks_for_a_connection_with_the_password() {
    let mut collector = RusticCollector::new(backup("B", Some("hunter2"), None), 300);
    let step = collector.start();
    assert_eq!(collector.phase(), Phase::Opening);
    assert!(step.log.is_none());
    match step.action {
        Action::Connect(connection) => {
            assert_eq!(connection.repository, "/srv/B");
            assert!(matches!(&connection.credential, Credential::Password(p) if p == "hunter2"));
            assert_eq!(connection.options, vec![("retry".to_string(), "off".to_string())]);
        }
        other => panic!("expected a connection attempt, got {other:?}"),
    }
}

#[test]
fn start_asks_for_a_connection_with_the_password_file() {
    let mut collector = RusticCollector::new(backup("B", None, Some("/run/secret")), 300);
    let step = collector.start();
    assert_eq!(collector.phase(), Phase::Opening);
    match step.action {
        Action::Connect(connection) => {
            assert!(
                matches!(&connection.credential, Credential::PasswordFile(f) if f == "/run/secret")
            );
        }
        other => panic!("expected a connection attempt, got {other:?}"),
    }
}

#[test]
fn start_without_credentials_reports_the_configuration_once() {
    let mut collector = RusticCollector::new(backup("A", None, None), 300);
    let step = collector.start();
    assert_eq!(collector.phase(), Phase::Misconfigured);
    assert!(is_sleep(&step, 300));
    assert!(matches!(
        step.log,
        Some(LogEvent::ConfigurationError(ConfigurationError::MissingCredential))
    ));
    let again = collector.start();
    assert!(is_sleep(&again, 300));
    assert!(again.log.is_none());
    let woken = collector.wake();
    assert!(is_sleep(&woken, 300));
    assert!(woken.log.is_none());
}

#[test]
fn start_with_two_credentials_reports_the_configuration() {
    let mut collector = RusticCollector::new(backup("A", Some("p"), Some("/f")), 60);
    let step = collector.start();
    assert_eq!(collector.phase(), Phase::Misconfigured);
    assert!(is_sleep(&step, 60));
    assert!(matches!(
        step.log,
        Some(LogEvent::ConfigurationError(ConfigurationError::AmbiguousCredential))
    ));
}

#[test]
fn target_without_credentials_never_gets_ready_while_another_does() {
    let mut a = RusticCollector::new(backup("A", None, None), 300);
    let mut b = RusticCollector::new(backup("B", Some("hunter2"), None), 300);
    a.start();
    b.start();
    let events = || {
        vec![
            Event::Connected(OpenOutcome::Opened(info())),
            Event::Woken,
            Event::Refreshed(ReconcileOutcome::Reconciled(vec![snapshot("S1")])),
            Event::Started,
            Event::Woken,
            Event::Connected(OpenOutcome::OpenFailed("no".to_string())),
            Event::Refreshed(ReconcileOutcome::Failed("no".to_string())),
        ]
    };
    for event in events() {
        let step = a.step(event);
        assert!(is_sleep(&step, 300));
        assert!(step.log.is_none());
        assert_eq!(a.phase(), Phase::Misconfigured);
        assert!(!a.snapshot().is_ready());
        assert!(a.encode().families.is_empty());
    }
    for event in events() {
        b.step(event);
    }
    assert_eq!(b.phase(), Phase::Ready);
    assert_eq!(ids(b.snapshot().snapshots()), vec!["S1".to_string()]);
    let exposed = b.encode();
    assert_eq!(exposed.families[0].metric, Metric::RepositoryInfo);
    assert_eq!(exposed.families[0].samples[0].labels[0].value, "B");
}

#[test]
fn opened_repository_is_published_ready_and_empty() {
    let mut collector = RusticCollector::new(backup("B", Some("hunter2"), None), 300);
    collector.start();
    let step = collector.set_repository(OpenOutcome::Opened(info()));
    assert!(is_sleep(&step, 300));
    assert!(matches!(step.log, Some(LogEvent::OpenSucceeded)));
    assert_eq!(collector.phase(), Phase::Ready);
    let state = collector.snapshot();
    assert!(state.is_ready());
    assert_eq!(state.repository().unwrap().id, "0f3a9c");
    assert_eq!(state.repository().unwrap().version, 2);
    assert!(state.snapshots().is_empty());
}

#[test]
fn failed_open_is_logged_and_tried_again_after_the_sleep() {
    let mut collector = RusticCollector::new(backup("B", Some("hunter2"), None), 45);
    collector.start();
    let step = collector.set_repository(OpenOutcome::OpenFailed("wrong password".to_string()));
    assert!(is_sleep(&step, 45));
    assert!(matches!(&step.log, Some(LogEvent::OpenFailed(reason)) if reason == "wrong password"));
    assert_eq!(collector.phase(), Phase::Opening);
    assert!(!collector.snapshot().is_ready());
    let retry = collector.wake();
    assert!(retry.log.is_none());
    assert!(matches!(&retry.action, Action::Connect(c) if c.repository == "/srv/B"));
    assert_eq!(collector.phase(), Phase::Opening);
}

#[test]
fn unavailable_backend_is_logged_and_tried_again_after_the_sleep() {
    let mut collector = RusticCollector::new(backup("B", Some("hunter2"), None), 45);
    collector.start();
    let step =
        collector.set_repository(OpenOutcome::BackendUnavailable("unknown scheme".to_string()));
    assert!(is_sleep(&step, 45));
    assert!(matches!(
        &step.log,
        Some(LogEvent::BackendResolutionFailed(reason)) if reason == "unknown scheme"
    ));
    assert_eq!(collector.phase(), Phase::Opening);
    assert!(!collector.snapshot().is_ready());
    assert!(matches!(collector.wake().action, Action::Connect(_)));
}

#[test]
fn open_succeeds_after_failures() {
    let mut collector = RusticCollector::new(backup("B", Some("hunter2"), None), 45);
    collector.start();
    collector.set_repository(OpenOutcome::OpenFailed("busy".to_string()));
    collector.wake();
    collector.set_repository(OpenOutcome::BackendUnavailable("dns".to_string()));
    collector.wake();
    let step = collector.set_repository(OpenOutcome::Opened(info()));
    assert!(matches!(step.log, Some(LogEvent::OpenSucceeded)));
    assert_eq!(collector.phase(), Phase::Ready);
}

#[test]
fn wake_when_ready_asks_for_a_refresh_with_the_known_snapshots() {
    let mut collector = opened("B");
    let first = collector.wake();
    assert!(first.log.is_none());
    assert!(matches!(&first.action, Action::Reconcile(known) if known.is_empty()));
    collector.update_data(ReconcileOutcome::Reconciled(vec![snapshot("S1"), snapshot("S2")]));
    let second = collector.wake();
    match second.action {
        Action::Reconcile(known) => {
            assert_eq!(ids(&known), vec!["S1".to_string(), "S2".to_string()])
        }
        other => panic!("expected a refresh, got {other:?}"),
    }
    assert_eq!(collector.phase(), Phase::Ready);
}

#[test]
fn refreshed_snapshots_are_published() {
    let mut collector = opened("B");
    collector.wake();
    let step = collector.update_data(ReconcileOutcome::Reconciled(vec![snapshot("S1")]));
    assert!(is_sleep(&step, 300));
    assert!(matches!(step.log, Some(LogEvent::ReconcileSucceeded)));
    assert_eq!(ids(collector.snapshot().snapshots()), vec!["S1".to_string()]);
    collector.wake();
    collector.update_data(ReconcileOutcome::Reconciled(vec![snapshot("S1"), snapshot("S2")]));
    let state = collector.snapshot();
    assert!(state.is_ready());
    assert_eq!(state.repository().unwrap().id, "0f3a9c");
    assert_eq!(ids(state.snapshots()), vec!["S1".to_string(), "S2".to_string()]);
}

#[test]
fn refresh_may_replace_the_whole_list() {
    let mut collector = opened("B");
    collector.update_data(ReconcileOutcome::Reconciled(vec![snapshot("S1"), snapshot("S2")]));
    collector.update_data(ReconcileOutcome::Reconciled(vec![snapshot("S3")]));
    assert_eq!(ids(collector.snapshot().snapshots()), vec!["S3".to_string()]);
}

#[test]
fn failed_refresh_leaves_the_published_state_unchanged() {
    let mut collector = opened("B");
    collector.update_data(ReconcileOutcome::Reconciled(vec![snapshot("S1"), snapshot("S2")]));
    let before = format!("{:?}", collector.snapshot());
    collector.wake();
    let step = collector.update_data(ReconcileOutcome::Failed("timeout".to_string()));
    assert!(is_sleep(&step, 300));
    assert!(matches!(&step.log, Some(LogEvent::ReconcileFailed(reason)) if reason == "timeout"));
    assert_eq!(format!("{:?}", collector.snapshot()), before);
    assert_eq!(collector.phase(), Phase::Ready);
    assert!(matches!(collector.wake().action, Action::Reconcile(known) if known.len() == 2));
}

#[test]
fn failed_first_refresh_leaves_the_empty_ready_state() {
    let mut collector = opened("B");
    collector.wake();
    collector.update_data(ReconcileOutcome::Failed("timeout".to_string()));
    let state = collector.snapshot();
    assert!(state.is_ready());
    assert!(state.snapshots().is_empty());
}

#[test]
fn events_that_do_not_fit_the_phase_change_nothing() {
    let mut created = RusticCollector::new(backup("B", Some("hunter2"), None), 10);
    for event in [
        Event::Woken,
        Event::Connected(OpenOutcome::Opened(info())),
        Event::Refreshed(ReconcileOutcome::Reconciled(vec![snapshot("S1")])),
    ] {
        let step = created.step(event);
        assert!(is_sleep(&step, 10));
        assert!(step.log.is_none());
        assert_eq!(created.phase(), Phase::Created);
        assert!(!created.snapshot().is_ready());
    }

    let mut opening = RusticCollector::new(backup("B", Some("hunter2"), None), 10);
    opening.start();
    for event in [
        Event::Started,
        Event::Refreshed(ReconcileOutcome::Reconciled(vec![snapshot("S1")])),
        Event::Refreshed(ReconcileOutcome::Failed("x".to_string())),
    ] {
        let step = opening.step(event);
        assert!(is_sleep(&step, 10));
        assert!(step.log.is_none());
        assert_eq!(opening.phase(), Phase::Opening);
        assert!(!opening.snapshot().is_ready());
    }

    let mut ready = opened("B");
    ready.update_data(ReconcileOutcome::Reconciled(vec![snapshot("S1")]));
    let before = format!("{:?}", ready.snapshot());
    for event in [
        Event::Started,
        Event::Connected(OpenOutcome::Opened(RepositoryInfo {
            id: "other".to_string(),
            version: 1,
        })),
        Event::Connected(OpenOutcome::OpenFailed("x".to_string())),
    ] {
        let step = ready.step(event);
        assert!(is_sleep(&step, 300));
        assert!(step.log.is_none());
        assert_eq!(ready.phase(), Phase::Ready);
        assert_eq!(format!("{:?}", ready.snapshot()), before);
    }
}

#[test]
fn step_answers_as_the_named_methods_do() {
    let script = || {
        vec![
            Event::Started,
            Event::Connected(OpenOutcome::OpenFailed("busy".to_string())),
            Event::Woken,
            Event::Connected(OpenOutcome::Opened(info())),
            Event::Woken,
            Event::Refreshed(ReconcileOutcome::Reconciled(vec![snapshot("S1")])),
            Event::Woken,
            Event::Refreshed(ReconcileOutcome::Failed("timeout".to_string())),
        ]
    };
    let mut by_step = RusticCollector::new(backup("B", Some("hunter2"), None), 300);
    let mut by_name = RusticCollector::new(backup("B", Some("hunter2"), None), 300);
    for (event, same) in script().into_iter().zip(script()) {
        let named = match same {
            Event::Started => by_name.start(),
            Event::Connected(outcome) => by_name.set_repository(outcome),
            Event::Woken => by_name.wake(),
            Event::Refreshed(outcome) => by_name.update_data(outcome),
        };
        let stepped = by_step.step(event);
        assert_eq!(format!("{:?}", stepped), format!("{:?}", named));
        assert_eq!(format!("{:?}", by_step), format!("{:?}", by_name));
    }
    assert_eq!(by_step.phase(), Phase::Ready);
    assert_eq!(ids(by_step.snapshot().snapshots()), vec!["S1".to_string()]);
}

#[test]
fn scripted_backend_drives_the_collector_through_its_life() {
    // A backend that fails to open once, then opens, then yields one more
    // snapshot on every second refresh and fails on the others.
    let mut collector = RusticCollector::new(backup("B", None, Some("/run/secret")), 30);
    let mut opens = 0;
    let mut refreshes = 0;
    let mut slept = 0;
    let mut logged = Vec::new();
    let mut step = collector.step(Event::Started);
    for _ in 0..20 {
        if let Some(log) = &step.log {
            logged.push(format!("{log:?}"));
        }
        let event = match step.action {
            Action::Connect(_) => {
                opens += 1;
                if opens == 1 {
                    Event::Connected(OpenOutcome::OpenFailed("locked".to_string()))
                } else {
                    Event::Connected(OpenOutcome::Opened(info()))
                }
            }
            Action::Sleep(seconds) => {
                assert_eq!(seconds, 30);
                slept += 1;
                Event::Woken
            }
            Action::Reconcile(mut known) => {
                refreshes += 1;
                if refreshes % 2 == 0 {
                    known.push(snapshot(&format!("S{}", known.len() + 1)));
                    Event::Refreshed(ReconcileOutcome::Reconciled(known))
                } else {
                    Event::Refreshed(ReconcileOutcome::Failed("timeout".to_string()))
                }
            }
        };
        step = collector.step(event);
    }
    assert_eq!(opens, 2);
    assert_eq!(refreshes, 8);
    assert_eq!(slept, 10);
    assert_eq!(collector.phase(), Phase::Ready);
    assert_eq!(
        ids(collector.snapshot().snapshots()),
        vec!["S1".to_string(), "S2".to_string(), "S3".to_string(), "S4".to_string()]
    );
    assert_eq!(logged[0], "OpenFailed(\"locked\")");
    assert_eq!(logged[1], "OpenSucceeded");
    assert_eq!(logged[2], "ReconcileFailed(\"timeout\")");
    assert_eq!(logged[3], "ReconcileSucceeded");
}

#[test]
fn reading_names_the_target_and_holds_the_published_state() {
    let mut collector = opened("B");
    collector.update_data(ReconcileOutcome::Reconciled(vec![snapshot("S1")]));
    let reading = collector.reading();
    assert_eq!(reading.target, "B");
    assert_eq!(format!("{:?}", reading.state), format!("{:?}", collector.snapshot()));
}

#[test]
fn encode_exposes_nothing_before_the_target_is_ready() {
    let mut collector = RusticCollector::new(backup("B", Some("hunter2"), None), 300);
    assert!(collector.encode().families.is_empty());
    collector.start();
    assert!(collector.encode().families.is_empty());
    collector.set_repository(OpenOutcome::OpenFailed("busy".to_string()));
    assert!(collector.encode().families.is_empty());
    assert!(collector.encode().warnings.is_empty());
}

#[test]
fn encode_exposes_the_published_state() {
    let mut collector = opened("B");
    let early = collector.encode();
    assert_eq!(early.families.len(), 1);
    assert_eq!(early.families[0].metric, Metric::RepositoryInfo);
    collector.update_data(ReconcileOutcome::Reconciled(vec![snapshot("S1"), snapshot("S2")]));
    let exposed = collector.encode();
    let families: Vec<Metric> = exposed.families.iter().map(|f| f.metric).collect();
    assert_eq!(
        families,
        vec![Metric::RepositoryInfo, Metric::SnapshotInfo, Metric::SnapshotTimestamp]
    );
    assert_eq!(exposed.families[1].samples.len(), 2);
    assert_eq!(exposed.families[2].samples.len(), 2);
    assert_eq!(exposed.warnings.len(), 2);
}

#[test]
fn unusable_configuration_is_reported_exactly_once_over_a_long_run() {
    let mut collector = RusticCollector::new(backup("A", None, None), 5);
    let mut reports = 0;
    let mut event = Event::Started;
    for round in 0..50 {
        let step = collector.step(event);
        if matches!(step.log, Some(LogEvent::ConfigurationError(_))) {
            reports += 1;
        }
        assert!(is_sleep(&step, 5));
        event = match round % 4 {
            0 => Event::Woken,
            1 => Event::Started,
            2 => Event::Connected(OpenOutcome::Opened(info())),
            _ => Event::Refreshed(ReconcileOutcome::Reconciled(vec![snapshot("S1")])),
        };
    }
    assert_eq!(reports, 1);
    assert_eq!(collector.phase(), Phase::Misconfigured);
}

#[test]
fn usable_configuration_is_never_reported() {
    let mut collector = RusticCollector::new(backup("B", Some("hunter2"), None), 5);
    let mut event = Event::Started;
    for round in 0..40 {
        let step = collector.step(event);
        assert!(!matches!(step.log, Some(LogEvent::ConfigurationError(_))));
        event = match round % 5 {
            0 => Event::Connected(OpenOutcome::OpenFailed("busy".to_string())),
            1 => Event::Woken,
            2 => Event::Connected(OpenOutcome::Opened(info())),
            3 => Event::Started,
            _ => Event::Refreshed(ReconcileOutcome::Failed("timeout".to_string())),
        };
    }
    assert_eq!(collector.phase(), Phase::Ready);
}

#[test]
fn published_snapshots_are_those_of_the_latest_refresh_that_succeeded() {
    let mut collector = opened("B");
    collector.step(Event::Refreshed(ReconcileOutcome::Reconciled(vec![
        snapshot("S1"),
        snapshot("S2"),
    ])));
    for event in [
        Event::Refreshed(ReconcileOutcome::Failed("timeout".to_string())),
        Event::Woken,
        Event::Started,
        Event::Connected(OpenOutcome::OpenFailed("late".to_string())),
        Event::Refreshed(ReconcileOutcome::Failed("again".to_string())),
    ] {
        collector.step(event);
        assert_eq!(
            ids(collector.snapshot().snapshots()),
            vec!["S1".to_string(), "S2".to_string()]
        );
        assert_eq!(collector.snapshot().repository().unwrap().id, "0f3a9c");
    }
    collector.step(Event::Refreshed(ReconcileOutcome::Reconciled(vec![snapshot("S3")])));
    collector.step(Event::Refreshed(ReconcileOutcome::Failed("timeout".to_string())));
    assert_eq!(ids(collector.snapshot().snapshots()), vec!["S3".to_string()]);
    collector.step(Event::Refreshed(ReconcileOutcome::Reconciled(Vec::new())));
    assert!(collector.snapshot().snapshots().is_empty());
    assert!(collector.snapshot().is_ready());
}
