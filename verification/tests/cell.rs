use rustic_exporter::cell::StateCell;
use rustic_exporter::model::{RepositoryInfo, Snapshot, TargetState};
use rustic_exporter::time::Timestamp;

fn snapshot(id: &str) -> Snapshot {
    Snapshot {
        id: id.to_string(),
        time: Timestamp::new(1_700_000_000, 0).unwrap(),
        paths: vec!["/data".to_string()],
        tags: Vec::new(),
        hostname: "atlas".to_string(),
        username: "backup".to_string(),
        program_version: "rustic 0.9.1".to_string(),
        summary: None,
    }
}

fn ready(repo: &str, ids: &[&str]) -> TargetState {
    TargetState::ready_with(
        RepositoryInfo { id: repo.to_string(), version: 2 },
        ids.iter().map(|id| snapshot(id)).collect(),
    )
}

#[test]
fn new_cell_holds_the_unready_state() {
    let cell = StateCell::new();
    let state = cell.snapshot();
    assert!(!state.is_ready());
    assert!(state.repository().is_none());
    assert!(state.snapshots().is_empty());
}

#[test]
fn unready_state_is_empty() {
    let state = TargetState::unready();
    assert!(!state.is_ready());
    assert!(state.repository().is_none());
    assert!(state.snapshots().is_empty());
}

#[test]
fn ready_state_holds_what_it_was_given() {
    let state = ready("r1", &["S1", "S2"]);
    assert!(state.is_ready());
    assert_eq!(state.repository().unwrap().id, "r1");
    assert_eq!(state.repository().unwrap().version, 2);
    let ids: Vec<&str> = state.snapshots().iter().map(|s| s.id.as_str()).collect();
    assert_eq!(ids, vec!["S1", "S2"]);
}

#[test]
fn snapshot_after_publish_is_what_was_published() {
    let mut cell = StateCell::new();
    let published = ready("r1", &["S1", "S2"]);
    let expected = format!("{:?}", published);
    cell.publish(published);
    assert_eq!(format!("{:?}", cell.snapshot()), expected);
    assert_eq!(format!("{:?}", cell.current()), expected);
}

#[test]
fn second_publication_leaves_nothing_of_the_first() {
    let mut cell = StateCell::new();
    cell.publish(ready("r1", &["S1", "S2", "S3"]));
    let second = ready("r2", &["T1"]);
    let expected = format!("{:?}", second);
    cell.publish(second);
    let seen = cell.snapshot();
    assert_eq!(format!("{:?}", seen), expected);
    assert_eq!(seen.repository().unwrap().id, "r2");
    assert_eq!(seen.snapshots().len(), 1);
    assert_eq!(seen.snapshots()[0].id, "T1");
}

#[test]
fn publishing_the_unready_state_empties_the_cell() {
    let mut cell = StateCell::new();
    cell.publish(ready("r1", &["S1"]));
    cell.publish(TargetState::unready());
    assert!(!cell.snapshot().is_ready());
    assert!(cell.snapshot().snapshots().is_empty());
}

#[test]
fn snapshots_of_one_publication_are_all_alike() {
    let mut cell = StateCell::new();
    cell.publish(ready("r1", &["S1"]));
    let first = cell.snapshot();
    let second = cell.snapshot();
    assert_eq!(format!("{:?}", first), format!("{:?}", second));
}

#[test]
fn a_snapshot_taken_earlier_is_not_touched_by_a_later_publication() {
    let mut cell = StateCell::new();
    cell.publish(ready("r1", &["S1"]));
    let earlier = cell.snapshot();
    cell.publish(ready("r1", &["S1", "S2"]));
    assert_eq!(earlier.snapshots().len(), 1);
    assert_eq!(cell.snapshot().snapshots().len(), 2);
}

#[test]
fn clone_of_a_state_holds_the_same() {
    let state = ready("r1", &["S1", "S2"]);
    assert_eq!(format!("{:?}", state.clone()), format!("{:?}", state));
}
