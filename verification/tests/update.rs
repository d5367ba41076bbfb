use karakup::error::ErrorKind;
use karakup::host::Host;
use karakup::installer::{InstallState, InstallTarget};
use karakup::protocol::{Action, Event};
use karakup::release::{AssetDescriptor, RegistryReply, ReleaseDescriptor, VersionSelector};
use karakup::updater::{
    check_if_installed, get_current_version, process, update_latest, update_specific, Notice,
    UpdateStage, UpdateState, Updater,
};

#[derive(Clone, Debug, PartialEq, Eq)]
struct Disk {
    binary: Option<String>,
    record: Option<String>,
}

fn linux_asset(version: &str) -> AssetDescriptor {
    AssetDescriptor {
        name: "karak-cli-x86_64-unknown-linux-gnu.tar.xz".to_string(),
        download_url: format!("https://example.test/{}/linux.tar.xz", version),
        size_bytes: 1000,
    }
}

fn release(version: &str) -> ReleaseDescriptor {
    ReleaseDescriptor { tag: format!("karak-cli-v{}", version), assets: vec![linux_asset(version)] }
}

fn host() -> Host {
    Host::new("linux", "x86_64", "/home/u", Some("/usr/bin:/bin"))
}

fn installed(version: &str) -> Disk {
    Disk { binary: Some(format!("binary {}", version)), record: Some(version.to_string()) }
}

/// Runs an update against a registry whose releases are `published`, the
/// first being the latest, with a user who answers `answer`.
fn run(
    mut state: UpdateState,
    published: &[&str],
    disk: &mut Disk,
    answer: bool,
) -> (UpdateState, Vec<Action>) {
    let mut asked = Vec::new();
    for _ in 0..32 {
        let action = state.pending();
        let event = match &action {
            Action::Stop => {
                assert!(state.finished());
                return (state, asked);
            }
            Action::FetchLatestRelease => match published.first() {
                Some(version) => Event::Release(RegistryReply::Found(release(version))),
                None => Event::Release(RegistryReply::Unreachable("offline".to_string())),
            },
            Action::FetchReleaseByTag(tag) => {
                match published.iter().find(|v| &format!("karak-cli-v{}", v) == tag) {
                    Some(version) => Event::Release(RegistryReply::Found(release(version))),
                    None => Event::Release(RegistryReply::NotFound),
                }
            }
            Action::ProbeBinary => Event::BinaryPresent(disk.binary.is_some()),
            Action::ReadVersionRecord => Event::VersionRecord(disk.record.clone()),
            Action::Confirm { .. } => Event::Answer(answer),
            Action::EnsureInstallDir => Event::Completed,
            Action::DownloadAndExtract { .. } => Event::Completed,
            Action::RemoveBinary => panic!("an update does not remove the binary"),
            Action::PlaceBinary { .. } => {
                if let UpdateStage::Installing { install: InstallState::Placing(target), .. } =
                    &state.stage
                {
                    disk.binary = Some(format!("binary {}", target.label));
                }
                Event::Completed
            }
            Action::WriteVersionRecord(label) => {
                disk.record = Some(label.clone());
                Event::Completed
            }
        };
        assert!(!state.finished());
        asked.push(action);
        state = state.advance(event);
    }
    panic!("the update did not end");
}

#[test]
fn major_update_to_latest_declined_changes_nothing() {
    let before = installed("1.5.0");
    let mut disk = before.clone();
    let (state, asked) = run(update_latest(&host()), &["2.0.0"], &mut disk, false);
    assert_eq!(state.stage, UpdateStage::Aborted);
    assert_eq!(state.exit_code(), 0);
    assert_eq!(
        asked,
        vec![
            Action::ProbeBinary,
            Action::FetchLatestRelease,
            Action::ReadVersionRecord,
            Action::Confirm { default_answer: false },
        ]
    );
    assert_eq!(disk, before);
}

#[test]
fn major_update_to_latest_accepted_installs_it() {
    let mut disk = installed("1.5.0");
    let (state, asked) = run(update_latest(&host()), &["2.0.0"], &mut disk, true);
    let target = InstallTarget { asset: linux_asset("2.0.0"), label: "2.0.0".to_string() };
    assert_eq!(
        state.stage,
        UpdateStage::Installing { notice: None, install: InstallState::Installed(target) }
    );
    assert_eq!(state.exit_code(), 0);
    assert_eq!(
        asked,
        vec![
            Action::ProbeBinary,
            Action::FetchLatestRelease,
            Action::ReadVersionRecord,
            Action::Confirm { default_answer: false },
            Action::FetchLatestRelease,
            Action::EnsureInstallDir,
            Action::DownloadAndExtract { asset: linux_asset("2.0.0"), strip_components: 1 },
            Action::PlaceBinary { mode: 0o755 },
            Action::WriteVersionRecord("2.0.0".to_string()),
        ]
    );
    assert_eq!(disk, installed("2.0.0"));
}

#[test]
fn confirmation_stage_carries_the_warning() {
    let state = update_latest(&host())
        .advance(Event::BinaryPresent(true))
        .advance(Event::Release(RegistryReply::Found(release("2.0.0"))))
        .advance(Event::VersionRecord(Some("1.5.0".to_string())));
    assert_eq!(state.stage, UpdateStage::ConfirmMajor { target: "2.0.0".to_string() });
    assert_eq!(state.notice(), Some(Notice::MajorChange));
    assert_eq!(state.pending(), Action::Confirm { default_answer: false });
}

#[test]
fn lower_minor_is_a_major_change_too() {
    let state = update_latest(&host())
        .advance(Event::BinaryPresent(true))
        .advance(Event::Release(RegistryReply::Found(release("1.4.0"))))
        .advance(Event::VersionRecord(Some("1.5.0".to_string())));
    assert_eq!(state.stage, UpdateStage::ConfirmMajor { target: "1.4.0".to_string() });
}

#[test]
fn patch_update_to_latest_needs_no_confirmation() {
    let mut disk = installed("2.0.0");
    let (state, asked) = run(update_latest(&host()), &["2.0.3"], &mut disk, false);
    assert!(matches!(
        state.stage,
        UpdateStage::Installing { notice: None, install: InstallState::Installed(_) }
    ));
    assert!(!asked.contains(&Action::Confirm { default_answer: false }));
    assert_eq!(disk, installed("2.0.3"));
}

#[test]
fn latest_already_installed_is_a_no_op() {
    let before = installed("2.0.0");
    let mut disk = before.clone();
    let (state, asked) = run(update_latest(&host()), &["2.0.0"], &mut disk, true);
    assert_eq!(state.stage, UpdateStage::AlreadyInstalled { target: "2.0.0".to_string() });
    assert_eq!(state.exit_code(), 0);
    assert_eq!(
        asked,
        vec![Action::ProbeBinary, Action::FetchLatestRelease, Action::ReadVersionRecord]
    );
    assert_eq!(disk, before);
}

#[test]
fn named_version_already_installed_is_a_no_op() {
    let before = installed("1.5.0");
    let mut disk = before.clone();
    let start = update_specific("1.5".to_string(), &host());
    let (state, asked) = run(start, &["2.0.0", "1.5.0"], &mut disk, true);
    assert_eq!(state.stage, UpdateStage::AlreadyInstalled { target: "1.5".to_string() });
    assert_eq!(asked, vec![Action::ProbeBinary, Action::ReadVersionRecord]);
    assert_eq!(disk, before);
}

#[test]
fn major_update_to_a_named_version_warns_and_goes_on() {
    let mut disk = installed("1.5.0");
    let start = update_specific("2.0.0".to_string(), &host());
    let (state, asked) = run(start, &["2.0.0", "1.5.0"], &mut disk, false);
    let target = InstallTarget { asset: linux_asset("2.0.0"), label: "2.0.0".to_string() };
    assert_eq!(
        state.stage,
        UpdateStage::Installing {
            notice: Some(Notice::MajorChange),
            install: InstallState::Installed(target),
        }
    );
    assert_eq!(state.notice(), Some(Notice::MajorChange));
    assert!(!asked.contains(&Action::Confirm { default_answer: false }));
    assert!(!asked.contains(&Action::FetchLatestRelease));
    assert!(asked.contains(&Action::FetchReleaseByTag("karak-cli-v2.0.0".to_string())));
    assert_eq!(disk, installed("2.0.0"));
}

#[test]
fn update_of_an_out_of_band_install_skips_the_comparison() {
    let mut disk = Disk { binary: Some("foreign".to_string()), record: None };
    let (state, asked) = run(update_latest(&host()), &["2.0.0"], &mut disk, false);
    assert!(matches!(
        state.stage,
        UpdateStage::Installing {
            notice: Some(Notice::InstalledOutOfBand),
            install: InstallState::Installed(_),
        }
    ));
    assert!(!asked.contains(&Action::Confirm { default_answer: false }));
    assert_eq!(disk, installed("2.0.0"));
}

#[test]
fn update_without_a_binary_reports_and_succeeds() {
    for start in [update_latest(&host()), update_specific("2.0.0".to_string(), &host())] {
        let before = Disk { binary: None, record: Some("1.5.0".to_string()) };
        let mut disk = before.clone();
        let (state, asked) = run(start, &["2.0.0"], &mut disk, true);
        match &state.stage {
            UpdateStage::NotInstalled(failure) => {
                assert_eq!(failure.kind, ErrorKind::NotInstalled);
                assert_eq!(failure.detail, "/home/u/.karak/bin/karak");
                assert_eq!(failure.exit_code(), 0);
            }
            other => panic!("unexpected stage {:?}", other),
        }
        assert_eq!(state.exit_code(), 0);
        assert_eq!(asked, vec![Action::ProbeBinary]);
        assert_eq!(disk, before);
    }
}

#[test]
fn update_fails_with_the_registry() {
    let before = installed("1.5.0");
    let mut disk = before.clone();
    let (state, asked) = run(update_latest(&host()), &[], &mut disk, true);
    match &state.stage {
        UpdateStage::Failed(failure) => {
            assert_eq!(failure.kind, ErrorKind::RegistryUnreachable);
            assert_eq!(failure.detail, "offline");
        }
        other => panic!("unexpected stage {:?}", other),
    }
    assert_eq!(state.exit_code(), 1);
    assert_eq!(asked, vec![Action::ProbeBinary, Action::FetchLatestRelease]);
    assert_eq!(disk, before);
}

#[test]
fn update_to_an_unknown_version_fails_in_the_install() {
    let before = installed("1.5.0");
    let mut disk = before.clone();
    let start = update_specific("1.5.7".to_string(), &host());
    let (state, _) = run(start, &["2.0.0"], &mut disk, true);
    match &state.stage {
        UpdateStage::Installing { install: InstallState::Failed(failure), .. } => {
            assert_eq!(failure.kind, ErrorKind::VersionNotFound);
            assert_eq!(failure.detail, "1.5.7");
        }
        other => panic!("unexpected stage {:?}", other),
    }
    assert_eq!(state.exit_code(), 1);
    assert_eq!(disk, before);
}

#[test]
fn update_on_an_unsupported_platform_fails_when_it_installs() {
    let host = Host::new("windows", "x86_64", "/home/u", None);
    let mut disk = installed("1.5.0");
    let (state, asked) = run(update_specific("1.5.1".to_string(), &host), &[], &mut disk, true);
    match &state.stage {
        UpdateStage::Installing { install: InstallState::Failed(failure), .. } => {
            assert_eq!(failure.kind, ErrorKind::UnsupportedPlatform);
        }
        other => panic!("unexpected stage {:?}", other),
    }
    assert_eq!(asked, vec![Action::ProbeBinary, Action::ReadVersionRecord]);
    assert_eq!(disk, installed("1.5.0"));
}

#[test]
fn update_begins_by_looking_for_the_binary() {
    let latest = update_latest(&host());
    assert_eq!(latest.stage, UpdateStage::CheckInstalled);
    assert_eq!(latest.selector, VersionSelector::Latest);
    assert_eq!(latest.host, host());
    assert_eq!(latest.pending(), Action::ProbeBinary);
    assert_eq!(latest.notice(), None);
    assert!(!latest.finished());
    let named = update_specific("1.2.3".to_string(), &host());
    assert_eq!(named.selector, VersionSelector::Explicit("1.2.3".to_string()));
}

#[test]
fn update_arguments_pick_the_flow() {
    assert_eq!(process(Updater { version: None }, &host()), update_latest(&host()));
    assert_eq!(
        process(Updater { version: Some("1.2.3".to_string()) }, &host()),
        update_specific("1.2.3".to_string(), &host())
    );
}

#[test]
fn update_ignores_events_that_answer_nothing() {
    let state = update_latest(&host());
    assert_eq!(state.clone().advance(Event::Answer(true)), state);
    assert_eq!(state.clone().advance(Event::Completed), state);
    let aborted = UpdateState { stage: UpdateStage::Aborted, ..state };
    assert_eq!(aborted.clone().advance(Event::BinaryPresent(true)), aborted);
}

#[test]
fn installed_check_names_the_path() {
    assert_eq!(check_if_installed(true, "/home/u/.karak/bin/karak"), Ok(()));
    let failure = check_if_installed(false, "/home/u/.karak/bin/karak").unwrap_err();
    assert_eq!(failure.kind, ErrorKind::NotInstalled);
    assert_eq!(failure.detail, "/home/u/.karak/bin/karak");
    assert_eq!(
        failure.message(),
        "\nKarak CLI is not installed at /home/u/.karak/bin/karak. \n\nTo install, use: `karakup install`"
    );
}

#[test]
fn current_version_comes_from_the_record() {
    let path = "/home/u/.karak/bin/.bin_version";
    assert_eq!(get_current_version(Some("1.5.0".to_string()), path), Ok("1.5.0".to_string()));
    assert_eq!(get_current_version(Some("".to_string()), path), Ok("".to_string()));
    let failure = get_current_version(None, path).unwrap_err();
    assert_eq!(failure.kind, ErrorKind::NotInstalled);
    assert_eq!(failure.detail, path);
}
