use karakup::error::ErrorKind;
use karakup::protocol::{Action, Event};
use karakup::uninstaller::{process, uninstall, UninstallState};

#[derive(Clone, Debug, PartialEq, Eq)]
struct Disk {
    binary: Option<String>,
    record: Option<String>,
}

fn run(disk: &mut Disk, removal_fails: bool) -> (UninstallState, Vec<Action>) {
    let mut state = uninstall();
    let mut asked = Vec::new();
    for _ in 0..8 {
        let action = state.pending();
        let event = match &action {
            Action::Stop => {
                assert!(state.finished());
                return (state, asked);
            }
            Action::ProbeBinary => Event::BinaryPresent(disk.binary.is_some()),
            Action::ReadVersionRecord => Event::VersionRecord(disk.record.clone()),
            Action::RemoveBinary => {
                if removal_fails {
                    Event::Failed("busy".to_string())
                } else {
                    disk.binary = None;
                    Event::Completed
                }
            }
            other => panic!("unexpected step {:?}", other),
        };
        asked.push(action);
        state = state.advance(event);
    }
    panic!("the uninstall did not end");
}

#[test]
fn uninstall_without_a_binary_reports_and_succeeds() {
    for record in [None, Some("1.0.0".to_string())] {
        let before = Disk { binary: None, record };
        let mut disk = before.clone();
        let (state, asked) = run(&mut disk, false);
        assert_eq!(state, UninstallState::NotInstalled);
        assert_eq!(state.exit_code(), 0);
        assert_eq!(asked, vec![Action::ProbeBinary]);
        assert_eq!(disk, before);
    }
}

#[test]
fn uninstall_removes_the_binary_and_keeps_the_record() {
    let mut disk = Disk { binary: Some("bin".to_string()), record: Some("1.5.0".to_string()) };
    let (state, asked) = run(&mut disk, false);
    assert_eq!(state, UninstallState::Removed { version: Some("1.5.0".to_string()) });
    assert_eq!(state.exit_code(), 0);
    assert_eq!(asked, vec![Action::ProbeBinary, Action::ReadVersionRecord, Action::RemoveBinary]);
    assert_eq!(disk, Disk { binary: None, record: Some("1.5.0".to_string()) });
}

#[test]
fn uninstall_of_a_binary_without_record() {
    let mut disk = Disk { binary: Some("bin".to_string()), record: None };
    let (state, _) = run(&mut disk, false);
    assert_eq!(state, UninstallState::Removed { version: None });
    assert_eq!(disk, Disk { binary: None, record: None });
}

#[test]
fn failed_removal_is_an_error() {
    let before = Disk { binary: Some("bin".to_string()), record: Some("1.5.0".to_string()) };
    let mut disk = before.clone();
    let (state, _) = run(&mut disk, true);
    match &state {
        UninstallState::Failed(failure) => {
            assert_eq!(failure.kind, ErrorKind::RemovalFailed);
            assert_eq!(failure.detail, "busy");
        }
        other => panic!("unexpected state {:?}", other),
    }
    assert_eq!(state.exit_code(), 1);
    assert_eq!(disk, before);
}

#[test]
fn uninstall_ignores_events_that_answer_nothing() {
    let state = uninstall();
    assert_eq!(state.clone().advance(Event::Completed), state);
    assert_eq!(state.clone().advance(Event::VersionRecord(None)), state);
    assert!(!state.finished());
    assert_eq!(process(), uninstall());
}
