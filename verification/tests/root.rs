use karakup::host::Host;
use karakup::installer::{install_latest, install_specific, Installer};
use karakup::protocol::{Action, Event};
use karakup::release::{AssetDescriptor, RegistryReply, ReleaseDescriptor};
use karakup::root::{process, Command, Preamble, Root, Session, Shell};
use karakup::uninstaller::{uninstall, UninstallState};
use karakup::updater::{update_latest, update_specific, Updater};

fn host() -> Host {
    Host::new("macos", "aarch64", "/Users/u", Some("/bin"))
}

fn start(command: Option<Command>, host: &Host) -> Session {
    process(Root { generator: None, command }, host)
}

#[test]
fn preamble_prefers_completions_over_help() {
    let uninstall = || Some(Command::Uninstall);
    let root = Root { generator: Some(Shell::Zsh), command: None };
    assert_eq!(root.preamble(), Preamble::Completions(Shell::Zsh));
    let root = Root { generator: Some(Shell::Fish), command: uninstall() };
    assert_eq!(root.preamble(), Preamble::Completions(Shell::Fish));
    assert_eq!(Root { generator: None, command: None }.preamble(), Preamble::Help);
    assert_eq!(Root { generator: None, command: uninstall() }.preamble(), Preamble::Nothing);
}

#[test]
fn command_runs_beside_completions() {
    let root = Root { generator: Some(Shell::Bash), command: Some(Command::Uninstall) };
    assert_eq!(process(root, &host()), Session::Uninstall(uninstall()));
}

#[test]
fn no_command_is_an_idle_session() {
    let session = start(None, &host());
    assert_eq!(session, Session::Idle);
    assert_eq!(session.pending(), Action::Stop);
    assert!(session.finished());
    assert_eq!(session.exit_code(), 0);
    assert_eq!(session.advance(Event::Completed), Session::Idle);
}

#[test]
fn commands_start_their_flows() {
    let install = Command::Install(Installer { version: None });
    assert_eq!(start(Some(install), &host()), Session::Install(install_latest(&host())));
    let install = Command::Install(Installer { version: Some("1.0.0".to_string()) });
    assert_eq!(
        start(Some(install), &host()),
        Session::Install(install_specific("1.0.0".to_string(), &host()))
    );
    let update = Command::Update(Updater { version: None });
    assert_eq!(start(Some(update), &host()), Session::Update(update_latest(&host())));
    let update = Command::Update(Updater { version: Some("1.0.0".to_string()) });
    assert_eq!(
        start(Some(update), &host()),
        Session::Update(update_specific("1.0.0".to_string(), &host()))
    );
    assert_eq!(start(Some(Command::Uninstall), &host()), Session::Uninstall(uninstall()));
}

#[test]
fn session_follows_its_flow() {
    let session = start(Some(Command::Uninstall), &host());
    assert_eq!(session.pending(), Action::ProbeBinary);
    assert!(!session.finished());
    let session = session.advance(Event::BinaryPresent(false));
    assert_eq!(session, Session::Uninstall(UninstallState::NotInstalled));
    assert!(session.finished());
    assert_eq!(session.pending(), Action::Stop);
    assert_eq!(session.exit_code(), 0);
}

#[test]
fn session_of_a_whole_install() {
    let asset = AssetDescriptor {
        name: "karak-cli-aarch64-apple-darwin.tar.xz".to_string(),
        download_url: "https://example.test/darwin.tar.xz".to_string(),
        size_bytes: 5,
    };
    let release =
        ReleaseDescriptor { tag: "karak-cli-v3.1.4".to_string(), assets: vec![asset.clone()] };
    let mut session = start(Some(Command::Install(Installer { version: None })), &host());
    let mut asked = Vec::new();
    while !session.finished() {
        let action = session.pending();
        let event = match &action {
            Action::FetchLatestRelease => Event::Release(RegistryReply::Found(release.clone())),
            _ => Event::Completed,
        };
        asked.push(action);
        session = session.advance(event);
    }
    assert_eq!(
        asked,
        vec![
            Action::FetchLatestRelease,
            Action::EnsureInstallDir,
            Action::DownloadAndExtract { asset, strip_components: 1 },
            Action::PlaceBinary { mode: 0o755 },
            Action::WriteVersionRecord("3.1.4".to_string()),
        ]
    );
    assert_eq!(session.exit_code(), 0);
}

#[test]
fn failed_session_exits_with_one() {
    let session = start(Some(Command::Uninstall), &host())
        .advance(Event::BinaryPresent(true))
        .advance(Event::VersionRecord(None))
        .advance(Event::Failed("busy".to_string()));
    assert!(session.finished());
    assert_eq!(session.exit_code(), 1);

    let windows = Host::new("windows", "x86_64", "C:/Users/u", None);
    let session = start(Some(Command::Install(Installer { version: None })), &windows);
    assert!(session.finished());
    assert_eq!(session.exit_code(), 1);
}
