//! The install flow: from a requested version to a binary in the install
//! directory and a version record beside it.
//!
//! The flow is a state machine. Each state that is not final waits for one
//! step of the driver; `pending` names that step and `advance` takes its
//! outcome. Nothing that is installed changes until the new binary is moved
//! into place, in one step and over the old one. The version record is
//! written last, so a flow that ends early leaves no record of a version
//! that was not installed.

use crate::constants::{BINARY_MODE, STRIP_COMPONENTS};
use crate::directory::{installed, record_is_true, Directory, InstalledBinary};
use crate::error::{ErrorKind, Failure, FailureView};
use crate::host::{install_dir_listed, Host, HostView};
use crate::platform::{platform_of, PlatformInfo};
use crate::protocol::{uses_network, Action, ActionView, Event, EventView};
use crate::release::{
    label_of, release_tag, resolution, resolve, select_asset, selection, selector_of,
    tag_of_version, version_label, AssetDescriptor, AssetView, ReleaseView, ReplyView,
    SelectorView, VersionSelector,
};
use crate::text::option_view;
use vstd::prelude::*;

verus! {

/// Arguments of the install command.
#[derive(Clone, Debug, PartialEq, Eq)]
pub struct Installer {
    /// Version to install; the newest release if none is named.
    pub version: Option<String>,
}

/// What an install puts in place: the archive to unpack and the version to
/// record for it.
#[derive(Clone, Debug, PartialEq, Eq)]
pub struct InstallTarget {
    pub asset: AssetDescriptor,
    pub label: String,
}

/// An `InstallTarget` as a mathematical value.
pub struct TargetView {
    pub asset: AssetView,
    pub label: Seq<char>,
}

impl View for InstallTarget {
    type V = TargetView;

    open spec fn view(&self) -> TargetView {
        TargetView { asset: self.asset@, label: self.label@ }
    }
}

/// Where an install stands.
#[derive(Clone, Debug, PartialEq, Eq)]
pub enum InstallState {
    /// The registry has been asked for the release.
    Resolving { selector: VersionSelector, platform: PlatformInfo },
    /// The install directory is being created.
    Preparing(InstallTarget),
    /// The archive is being downloaded and unpacked.
    Extracting(InstallTarget),
    /// The new binary is being moved into place, over the old one if there
    /// is one.
    Placing(InstallTarget),
    /// The version record is being written.
    Recording(InstallTarget),
    /// The install is complete.
    Installed(InstallTarget),
    /// The new binary is in place, but the version record could not be
    /// written and still says what it said before.
    Unrecorded { target: InstallTarget, failure: Failure },
    /// The install has failed and has changed nothing.
    Failed(Failure),
}

/// An `InstallState` as a mathematical value.
pub enum InstallView {
    Resolving { selector: SelectorView, platform: PlatformInfo },
    Preparing(TargetView),
    Extracting(TargetView),
    Placing(TargetView),
    Recording(TargetView),
    Installed(TargetView),
    Unrecorded { target: TargetView, failure: FailureView },
    Failed(FailureView),
}

impl View for InstallState {
    type V = InstallView;

    open spec fn view(&self) -> InstallView {
        match self {
            InstallState::Resolving { selector, platform } => InstallView::Resolving {
                selector: selector@,
                platform: *platform,
            },
            InstallState::Preparing(target) => InstallView::Preparing(target@),
            InstallState::Extracting(target) => InstallView::Extracting(target@),
            InstallState::Placing(target) => InstallView::Placing(target@),
            InstallState::Recording(target) => InstallView::Recording(target@),
            InstallState::Installed(target) => InstallView::Installed(target@),
            InstallState::Unrecorded { target, failure } => InstallView::Unrecorded {
                target: target@,
                failure: failure@,
            },
            InstallState::Failed(failure) => InstallView::Failed(failure@),
        }
    }
}

/// The state in which an install begins. On an unsupported platform it has
/// failed before anything was asked of the registry.
pub open spec fn install_start(selector: SelectorView, host: HostView) -> InstallView {
    match platform_of(host.os, host.arch) {
        Ok(platform) => InstallView::Resolving { selector, platform },
        Err(failure) => InstallView::Failed(failure),
    }
}

/// The step that an install in `state` waits for. An install never asks
/// for the removal of the old binary: placing the new one replaces it.
pub open spec fn install_pending(state: InstallView) -> ActionView {
    match state {
        InstallView::Resolving { selector, platform } => match selector {
            SelectorView::Latest => ActionView::FetchLatestRelease,
            SelectorView::Explicit(version) => ActionView::FetchReleaseByTag(
                tag_of_version(version),
            ),
        },
        InstallView::Preparing(_) => ActionView::EnsureInstallDir,
        InstallView::Extracting(target) => ActionView::DownloadAndExtract {
            asset: target.asset,
            strip_components: STRIP_COMPONENTS,
        },
        InstallView::Placing(_) => ActionView::PlaceBinary { mode: BINARY_MODE },
        InstallView::Recording(target) => ActionView::WriteVersionRecord(target.label),
        InstallView::Installed(_) => ActionView::Stop,
        InstallView::Unrecorded { .. } => ActionView::Stop,
        InstallView::Failed(_) => ActionView::Stop,
    }
}

/// The state after the registry has answered: the release is resolved, the
/// archive for the platform is picked from it, and the version to record is
/// fixed.
pub open spec fn install_planned(
    selector: SelectorView,
    platform: PlatformInfo,
    reply: ReplyView,
) -> InstallView {
    match resolution(selector, reply) {
        Err(failure) => InstallView::Failed(failure),
        Ok(release) => match selection(release, platform) {
            Err(failure) => InstallView::Failed(failure),
            Ok(asset) => InstallView::Preparing(
                TargetView { asset, label: label_of(selector, release) },
            ),
        },
    }
}

/// The failure of a step of the given kind with the given diagnostic.
pub open spec fn step_failure(kind: ErrorKind, diagnostic: Seq<char>) -> FailureView {
    FailureView { kind, detail: diagnostic }
}

/// The state that follows `state` when the driver reports `event`. An event
/// that does not answer the pending step changes nothing.
pub open spec fn install_next(state: InstallView, event: EventView) -> InstallView {
    match (state, event) {
        (InstallView::Resolving { selector, platform }, EventView::Release(reply)) => {
            install_planned(selector, platform, reply)
        },
        (InstallView::Preparing(target), EventView::Completed) => InstallView::Extracting(target),
        (InstallView::Preparing(_), EventView::Failed(diagnostic)) => InstallView::Failed(
            step_failure(ErrorKind::PermissionDenied, diagnostic),
        ),
        (InstallView::Extracting(target), EventView::Completed) => InstallView::Placing(target),
        (InstallView::Extracting(_), EventView::Failed(diagnostic)) => InstallView::Failed(
            step_failure(ErrorKind::ExtractionFailed, diagnostic),
        ),
        (InstallView::Placing(target), EventView::Completed) => InstallView::Recording(target),
        (InstallView::Placing(_), EventView::Failed(diagnostic)) => InstallView::Failed(
            step_failure(ErrorKind::PermissionDenied, diagnostic),
        ),
        (InstallView::Recording(target), EventView::Completed) => InstallView::Installed(target),
        (InstallView::Recording(target), EventView::Failed(diagnostic)) => {
            InstallView::Unrecorded {
                target,
                failure: step_failure(ErrorKind::PermissionDenied, diagnostic),
            }
        },
        _ => state,
    }
}

/// What the install directory holds after the driver has performed the step
/// that `state` waits for and has reported `event`. Only two steps change
/// anything, and only when they are carried out: placing the binary
/// replaces the binary, and writing the record replaces the record.
pub open spec fn install_effect(state: InstallView, event: EventView, dir: Directory) -> Directory {
    match (state, event) {
        (InstallView::Placing(target), EventView::Completed) => Directory {
            binary: Some(InstalledBinary { asset: target.asset, version: target.label }),
            ..dir
        },
        (InstallView::Recording(target), EventView::Completed) => Directory {
            record: Some(target.label),
            ..dir
        },
        _ => dir,
    }
}

/// Whether an install in `state` has ended.
pub open spec fn install_ended(state: InstallView) -> bool {
    state is Installed || state is Unrecorded || state is Failed
}

/// Whether an install in `state` has ended without completing.
pub open spec fn install_failed(state: InstallView) -> bool {
    state is Unrecorded || state is Failed
}

impl InstallTarget {
    /// A copy of this target.
    pub fn duplicate(&self) -> (copy: InstallTarget)
        ensures
            copy@ == self@,
    {
        InstallTarget { asset: self.asset.duplicate(), label: self.label.clone() }
    }
}

impl InstallState {
    /// The step that this install waits for; `Stop` once it has ended.
    pub fn pending(&self) -> (action: Action)
        ensures
            action@ == install_pending(self@),
    {
        match self {
            InstallState::Resolving { selector, platform } => match selector {
                VersionSelector::Latest => Action::FetchLatestRelease,
                VersionSelector::Explicit(version) => Action::FetchReleaseByTag(
                    release_tag(version.as_str()),
                ),
            },
            InstallState::Preparing(_) => Action::EnsureInstallDir,
            InstallState::Extracting(target) => Action::DownloadAndExtract {
                asset: target.asset.duplicate(),
                strip_components: STRIP_COMPONENTS,
            },
            InstallState::Placing(_) => Action::PlaceBinary { mode: BINARY_MODE },
            InstallState::Recording(target) => Action::WriteVersionRecord(target.label.clone()),
            InstallState::Installed(_) => Action::Stop,
            InstallState::Unrecorded { .. } => Action::Stop,
            InstallState::Failed(_) => Action::Stop,
        }
    }

    /// The state that follows when the driver reports `event`.
    pub fn advance(self, event: Event) -> (next: InstallState)
        ensures
            next@ == install_next(self@, event@),
    {
        match (self, event) {
            (InstallState::Resolving { selector, platform }, Event::Release(reply)) => {
                match resolve(&selector, reply) {
                    Err(failure) => InstallState::Failed(failure),
                    Ok(release) => match select_asset(&release, platform) {
                        Err(failure) => InstallState::Failed(failure),
                        Ok(asset) => {
                            let label = version_label(&selector, &release);
                            InstallState::Preparing(InstallTarget { asset, label })
                        },
                    },
                }
            },
            (InstallState::Preparing(target), Event::Completed) => InstallState::Extracting(
                target,
            ),
            (InstallState::Preparing(_), Event::Failed(diagnostic)) => InstallState::Failed(
                Failure::new(ErrorKind::PermissionDenied, diagnostic),
            ),
            (InstallState::Extracting(target), Event::Completed) => InstallState::Placing(target),
            (InstallState::Extracting(_), Event::Failed(diagnostic)) => InstallState::Failed(
                Failure::new(ErrorKind::ExtractionFailed, diagnostic),
            ),
            (InstallState::Placing(target), Event::Completed) => InstallState::Recording(target),
            (InstallState::Placing(_), Event::Failed(diagnostic)) => InstallState::Failed(
                Failure::new(ErrorKind::PermissionDenied, diagnostic),
            ),
            (InstallState::Recording(target), Event::Completed) => InstallState::Installed(
                target,
            ),
            (InstallState::Recording(target), Event::Failed(diagnostic)) => {
                InstallState::Unrecorded {
                    target,
                    failure: Failure::new(ErrorKind::PermissionDenied, diagnostic),
                }
            },
            (state, _) => state,
        }
    }

    /// Whether this install has ended, in success or in failure.
    pub fn finished(&self) -> (ended: bool)
        ensures
            ended == install_ended(self@),
    {
        match self {
            InstallState::Installed(_) => true,
            InstallState::Unrecorded { .. } => true,
            InstallState::Failed(_) => true,
            _ => false,
        }
    }

    /// The exit status of the command if it ended here: one if the install
    /// ended without completing, zero otherwise.
    pub fn exit_code(&self) -> (code: i32)
        ensures
            code == if install_failed(self@) { 1i32 } else { 0i32 },
    {
        match self {
            InstallState::Unrecorded { .. } => 1,
            InstallState::Failed(_) => 1,
            _ => 0,
        }
    }

    /// Whether the user has to be told to put the install directory on the
    /// executable search path: the install is complete, and the directory
    /// is not on the path of `host`.
    pub fn needs_path_notice(&self, host: &Host) -> (needed: bool)
        ensures
            needed == (self@ is Installed && !install_dir_listed(host@)),
    {
        match self {
            InstallState::Installed(_) => !host.install_dir_on_path(),
            _ => false,
        }
    }
}

/// Begins an install of `version`, or of the newest release if none is
/// named. The platform is checked first: on an unsupported one the install
/// has failed at once, and no step is asked of the driver.
pub fn install_version(version: Option<String>, host: &Host) -> (state: InstallState)
    ensures
        state@ == install_start(selector_of(option_view(version)), host@),
{
    match host.platform() {
        Ok(platform) => InstallState::Resolving {
            selector: VersionSelector::from_option(version),
            platform,
        },
        Err(failure) => InstallState::Failed(failure),
    }
}

/// Begins an install of the newest release.
pub fn install_latest(host: &Host) -> (state: InstallState)
    ensures
        state@ == install_start(SelectorView::Latest, host@),
{
    install_version(None, host)
}

/// Begins an install of the release of `version`.
pub fn install_specific(version: String, host: &Host) -> (state: InstallState)
    ensures
        state@ == install_start(SelectorView::Explicit(version@), host@),
{
    install_version(Some(version), host)
}

/// Begins the install that the command's arguments ask for.
pub fn process(args: Installer, host: &Host) -> (state: InstallState)
    ensures
        state@ == install_start(selector_of(option_view(args.version)), host@),
{
    match args.version {
        Some(version) => install_specific(version, host),
        None => install_latest(host),
    }
}

/// The state and the directory after the driver has reported `events`, one
/// after the other, to an install that stood in `state` over `dir`.
pub open spec fn install_run(state: InstallView, dir: Directory, events: Seq<EventView>) -> (
    InstallView,
    Directory,
)
    decreases events.len(),
{
    if events.len() == 0 {
        (state, dir)
    } else {
        install_run(
            install_next(state, events.first()),
            install_effect(state, events.first(), dir),
            events.drop_first(),
        )
    }
}

/// The binary that an install of `target` puts in place.
pub open spec fn binary_of(target: TargetView) -> InstalledBinary {
    InstalledBinary { asset: target.asset, version: target.label }
}

/// How much an install in `state` can have changed a directory that held
/// `before` when the install began and holds `now`.
///
/// Up to and including the placing of the binary nothing has changed, and
/// an install that has failed has changed nothing. Once the binary is placed
/// the directory holds the new binary beside the old record, and stays so if
/// the record cannot be written. A complete install has replaced both.
pub open spec fn install_progress(state: InstallView, before: Directory, now: Directory) -> bool {
    match state {
        InstallView::Recording(target) => now == (Directory {
            binary: Some(binary_of(target)),
            record: before.record,
        }),
        InstallView::Unrecorded { target, .. } => now == (Directory {
            binary: Some(binary_of(target)),
            record: before.record,
        }),
        InstallView::Installed(target) => now == installed(target.asset, target.label),
        _ => now == before,
    }
}

/// One step of an install keeps `install_progress`.
pub proof fn lemma_install_step(
    state: InstallView,
    event: EventView,
    before: Directory,
    now: Directory,
)
    requires
        install_progress(state, before, now),
    ensures
        install_progress(install_next(state, event), before, install_effect(state, event, now)),
{
}

/// Any number of steps of an install keep `install_progress`.
pub proof fn lemma_install_run(
    state: InstallView,
    before: Directory,
    now: Directory,
    events: Seq<EventView>,
)
    requires
        install_progress(state, before, now),
    ensures
        install_progress(
            install_run(state, now, events).0,
            before,
            install_run(state, now, events).1,
        ),
    decreases events.len(),
{
    if events.len() > 0 {
        lemma_install_step(state, events.first(), before, now);
        lemma_install_run(
            install_next(state, events.first()),
            before,
            install_effect(state, events.first(), now),
            events.drop_first(),
        );
    }
}

/// An install that has ended stays as it is and asks for nothing more.
pub proof fn lemma_install_end_is_final(state: InstallView, dir: Directory, events: Seq<EventView>)
    requires
        install_ended(state),
    ensures
        install_pending(state) is Stop,
        install_run(state, dir, events) == (state, dir),
    decreases events.len(),
{
    if events.len() > 0 {
        lemma_install_end_is_final(state, dir, events.drop_first());
    }
}

/// On an unsupported operating system or architecture an install fails with
/// the failure that names it, and asks no step of the driver: neither the
/// registry nor the install directory is touched, whatever the driver
/// reports.
pub proof fn lemma_unsupported_platform_asks_nothing(
    selector: SelectorView,
    host: HostView,
    dir: Directory,
    events: Seq<EventView>,
)
    requires
        platform_of(host.os, host.arch) is Err,
    ensures
        install_start(selector, host) == InstallView::Failed(
            platform_of(host.os, host.arch)->Err_0,
        ),
        install_pending(install_start(selector, host)) is Stop,
        !uses_network(install_pending(install_start(selector, host))),
        install_run(install_start(selector, host), dir, events) == (
            install_start(selector, host),
            dir,
        ),
{
    lemma_install_end_is_final(install_start(selector, host), dir, events);
}

/// An install never asks for the removal of the binary: the old binary
/// stays where it is until the new one replaces it.
pub proof fn lemma_install_never_removes(state: InstallView)
    ensures
        !(install_pending(state) is RemoveBinary),
{
}

/// A complete install leaves the directory with the target's binary and the
/// target's version on record, whatever the directory held before.
pub proof fn lemma_install_settles(
    selector: SelectorView,
    host: HostView,
    before: Directory,
    events: Seq<EventView>,
)
    ensures
        install_run(install_start(selector, host), before, events).0 matches InstallView::Installed(
            target,
        ) ==> install_run(install_start(selector, host), before, events).1 == installed(
            target.asset,
            target.label,
        ),
{
    lemma_install_run(install_start(selector, host), before, before, events);
}

/// Installing is idempotent: a second complete install of the same target
/// leaves the directory exactly as the first one left it, whatever the
/// directory held before the first.
pub proof fn lemma_install_idempotent(
    selector: SelectorView,
    host: HostView,
    before: Directory,
    first: Seq<EventView>,
    second: Seq<EventView>,
    target: TargetView,
)
    requires
        install_run(install_start(selector, host), before, first).0 == InstallView::Installed(
            target,
        ),
        install_run(
            install_start(selector, host),
            install_run(install_start(selector, host), before, first).1,
            second,
        ).0 == InstallView::Installed(target),
    ensures
        install_run(
            install_start(selector, host),
            install_run(install_start(selector, host), before, first).1,
            second,
        ).1 == install_run(install_start(selector, host), before, first).1,
{
    let after_first = install_run(install_start(selector, host), before, first).1;
    lemma_install_settles(selector, host, before, first);
    lemma_install_settles(selector, host, after_first, second);
}

/// The version record is the last thing an install writes: as long as the
/// install is not complete the record is what it was before.
pub proof fn lemma_record_written_last(
    selector: SelectorView,
    host: HostView,
    before: Directory,
    events: Seq<EventView>,
)
    ensures
        !(install_run(install_start(selector, host), before, events).0 is Installed)
            ==> install_run(install_start(selector, host), before, events).1.record
            == before.record,
{
    lemma_install_run(install_start(selector, host), before, before, events);
}

/// An install that fails changes nothing: whether the registry could not be
/// reached, the version or the asset was not found, the install directory
/// could not be created, the extraction failed or the binary could not be
/// placed, the binary and the version record are as they were. In
/// particular a failed extraction does not replace an existing binary.
pub proof fn lemma_failure_changes_nothing(
    selector: SelectorView,
    host: HostView,
    before: Directory,
    events: Seq<EventView>,
)
    ensures
        install_run(install_start(selector, host), before, events).0 is Failed ==> install_run(
            install_start(selector, host),
            before,
            events,
        ).1 == before,
{
    lemma_install_run(install_start(selector, host), before, before, events);
}

/// Only a record that cannot be written leaves the directory between two
/// installs: the new binary is in place and the record is the old one.
pub proof fn lemma_unrecorded_keeps_old_record(
    selector: SelectorView,
    host: HostView,
    before: Directory,
    events: Seq<EventView>,
)
    ensures
        install_run(
            install_start(selector, host),
            before,
            events,
        ).0 matches InstallView::Unrecorded { target, .. } ==> install_run(
            install_start(selector, host),
            before,
            events,
        ).1 == (Directory { binary: Some(binary_of(target)), record: before.record }),
{
    lemma_install_run(install_start(selector, host), before, before, events);
}

/// A version record that names the version of the installed binary still
/// does so after an install that completes, and after one that fails. The
/// record never stands beside a missing binary that was there before, and
/// it names another version than the binary's only while it is being
/// written or after its writing has failed.
pub proof fn lemma_install_keeps_record_true(
    selector: SelectorView,
    host: HostView,
    before: Directory,
    events: Seq<EventView>,
)
    requires
        record_is_true(before),
    ensures
        ({
            let end = install_run(install_start(selector, host), before, events);
            &&& !(end.0 is Recording) && !(end.0 is Unrecorded) ==> record_is_true(end.1)
            &&& before.binary is Some ==> end.1.binary is Some
        }),
{
    lemma_install_run(install_start(selector, host), before, before, events);
}

/// An extraction that fails ends the install with `ExtractionFailed` and the
/// extractor's diagnostic.
pub proof fn lemma_extraction_failure_ends_install(target: TargetView, diagnostic: Seq<char>)
    ensures
        install_next(InstallView::Extracting(target), EventView::Failed(diagnostic))
            == InstallView::Failed(
            FailureView { kind: ErrorKind::ExtractionFailed, detail: diagnostic },
        ),
{
}

/// Reporting `event` and then `rest` is reporting `event` to the state as
/// it is and `rest` to the state that follows.
pub proof fn lemma_install_run_unfolds(
    state: InstallView,
    dir: Directory,
    event: EventView,
    rest: Seq<EventView>,
)
    ensures
        install_run(state, dir, seq![event] + rest) == install_run(
            install_next(state, event),
            install_effect(state, event, dir),
            rest,
        ),
{
    let events = seq![event] + rest;
    assert(events.first() == event);
    assert(events.drop_first() == rest);
}

/// The events of an install in which the registry answers with `release`
/// and every step is carried out: the directory is created, the archive is
/// unpacked, the binary is placed and the record is written.
pub open spec fn smooth_install(release: ReleaseView) -> Seq<EventView> {
    seq![
        EventView::Release(ReplyView::Found(release)),
        EventView::Completed,
        EventView::Completed,
        EventView::Completed,
        EventView::Completed,
    ]
}

/// On a supported platform, with a release that holds the platform's
/// archive and with every step carried out, the install completes: it ends
/// as `Installed` with that archive and with the version that the release
/// is recorded under.
pub proof fn lemma_install_completes(
    selector: SelectorView,
    host: HostView,
    release: ReleaseView,
    dir: Directory,
)
    requires
        platform_of(host.os, host.arch) is Ok,
        selection(release, platform_of(host.os, host.arch)->Ok_0) is Ok,
    ensures
        install_run(install_start(selector, host), dir, smooth_install(release)).0
            == InstallView::Installed(
            TargetView {
                asset: selection(release, platform_of(host.os, host.arch)->Ok_0)->Ok_0,
                label: label_of(selector, release),
            },
        ),
{
    let done = EventView::Completed;
    let s0 = install_start(selector, host);
    let e0 = EventView::Release(ReplyView::Found(release));
    let events = smooth_install(release);
    assert(events == seq![e0] + (seq![done] + (seq![done] + (seq![done] + (seq![done]
        + Seq::<EventView>::empty())))));

    let s1 = install_next(s0, e0);
    let d1 = install_effect(s0, e0, dir);
    lemma_install_run_unfolds(
        s0,
        dir,
        e0,
        seq![done] + (seq![done] + (seq![done] + (seq![done] + Seq::<EventView>::empty()))),
    );
    let s2 = install_next(s1, done);
    let d2 = install_effect(s1, done, d1);
    lemma_install_run_unfolds(
        s1,
        d1,
        done,
        seq![done] + (seq![done] + (seq![done] + Seq::<EventView>::empty())),
    );
    let s3 = install_next(s2, done);
    let d3 = install_effect(s2, done, d2);
    lemma_install_run_unfolds(s2, d2, done, seq![done] + (seq![done] + Seq::<EventView>::empty()));
    let s4 = install_next(s3, done);
    let d4 = install_effect(s3, done, d3);
    lemma_install_run_unfolds(s3, d3, done, seq![done] + Seq::<EventView>::empty());
    lemma_install_run_unfolds(s4, d4, done, Seq::empty());
}

/// Installing the same release twice, every step carried out both times,
/// leaves the directory after the second install exactly as it was after
/// the first: with the platform's archive as the binary and the release's
/// version on record. What the directory held before the first install
/// makes no difference.
pub proof fn lemma_reinstall_changes_nothing(
    selector: SelectorView,
    host: HostView,
    release: ReleaseView,
    before: Directory,
)
    requires
        platform_of(host.os, host.arch) is Ok,
        selection(release, platform_of(host.os, host.arch)->Ok_0) is Ok,
    ensures
        ({
            let start = install_start(selector, host);
            let first = install_run(start, before, smooth_install(release));
            let second = install_run(start, first.1, smooth_install(release));
            &&& first.1 == installed(
                selection(release, platform_of(host.os, host.arch)->Ok_0)->Ok_0,
                label_of(selector, release),
            )
            &&& second.1 == first.1
            &&& second.0 == first.0
        }),
{
    let start = install_start(selector, host);
    let events = smooth_install(release);
    lemma_install_completes(selector, host, release, before);
    lemma_install_settles(selector, host, before, events);
    let after = install_run(start, before, events).1;
    lemma_install_completes(selector, host, release, after);
    lemma_install_settles(selector, host, after, events);
}

} // verus!
