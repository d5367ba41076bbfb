//! The update flow: is the tool installed, what is the target, how does it
//! compare with what is installed, does the user agree, and then the install.
//!
//! The flow only reads until it hands over to the install flow, so an update
//! that ends with "already installed", with the user's refusal or with a
//! failure of the registry has changed nothing.

use crate::constants::CONFIRM_BY_DEFAULT;
use crate::directory::{installed, Directory};
use crate::error::{ErrorKind, Failure, FailureView};
use crate::host::{Host, HostView};
use crate::installer::{
    install_effect, install_ended, install_failed, install_next, install_pending,
    install_progress, install_start, install_version, lemma_install_step, InstallState,
    InstallView,
};
use crate::layout::binary_path_of;
use crate::protocol::{writes, Action, ActionView, Event, EventView};
use crate::release::{
    get_latest_version, resolution, selector_of, version_of_tag, ReplyView, SelectorView,
    VersionSelector,
};
use crate::text::option_view;
use crate::version::{compare_versions, is_major_change, major_change, semver_triple};
use std::cmp::Ordering;
use vstd::prelude::*;

verus! {

/// Arguments of the update command.
#[derive(Clone, Debug, PartialEq, Eq)]
pub struct Updater {
    /// Version to update to; the newest release if none is named.
    pub version: Option<String>,
}

/// What the user is told before an update installs.
#[derive(Clone, Copy, Debug, PartialEq, Eq, Structural)]
pub enum Notice {
    /// The tool was installed by other means, so there is no version to
    /// compare with.
    InstalledOutOfBand,
    /// The update is a major one and may break the configuration.
    MajorChange,
}

/// Where an update stands, apart from what it was asked for.
#[derive(Clone, Debug, PartialEq, Eq)]
pub enum UpdateStage {
    /// The driver looks whether the binary is installed.
    CheckInstalled,
    /// The registry has been asked for the newest release.
    ResolveTarget,
    /// The version record is being read, to compare it with the target.
    CompareVersions { target: String },
    /// The user has been asked whether to go on with a major update.
    ConfirmMajor { target: String },
    /// The install flow has taken over.
    Installing { notice: Option<Notice>, install: InstallState },
    /// The target is installed already; nothing was downloaded.
    AlreadyInstalled { target: String },
    /// The user declined; nothing was downloaded.
    Aborted,
    /// The tool is not installed. This is reported and is no error.
    NotInstalled(Failure),
    /// The update has failed before the install began.
    Failed(Failure),
}

/// An `UpdateStage` as a mathematical value.
pub enum StageView {
    CheckInstalled,
    ResolveTarget,
    CompareVersions { target: Seq<char> },
    ConfirmMajor { target: Seq<char> },
    Installing { notice: Option<Notice>, install: InstallView },
    AlreadyInstalled { target: Seq<char> },
    Aborted,
    NotInstalled(FailureView),
    Failed(FailureView),
}

impl View for UpdateStage {
    type V = StageView;

    open spec fn view(&self) -> StageView {
        match self {
            UpdateStage::CheckInstalled => StageView::CheckInstalled,
            UpdateStage::ResolveTarget => StageView::ResolveTarget,
            UpdateStage::CompareVersions { target } => StageView::CompareVersions {
                target: target@,
            },
            UpdateStage::ConfirmMajor { target } => StageView::ConfirmMajor { target: target@ },
            UpdateStage::Installing { notice, install } => StageView::Installing {
                notice: *notice,
                install: install@,
            },
            UpdateStage::AlreadyInstalled { target } => StageView::AlreadyInstalled {
                target: target@,
            },
            UpdateStage::Aborted => StageView::Aborted,
            UpdateStage::NotInstalled(failure) => StageView::NotInstalled(failure@),
            UpdateStage::Failed(failure) => StageView::Failed(failure@),
        }
    }
}

/// An update: the machine it runs on, the version it was asked for, and
/// where it stands.
#[derive(Clone, Debug, PartialEq, Eq)]
pub struct UpdateState {
    pub host: Host,
    pub selector: VersionSelector,
    pub stage: UpdateStage,
}

/// An `UpdateState` as a mathematical value.
pub struct UpdateView {
    pub host: HostView,
    pub selector: SelectorView,
    pub stage: StageView,
}

impl View for UpdateState {
    type V = UpdateView;

    open spec fn view(&self) -> UpdateView {
        UpdateView { host: self.host@, selector: self.selector@, stage: self.stage@ }
    }
}

/// The outcome of looking for the binary at `path`: fine if it is there, a
/// `NotInstalled` failure that names the path if it is not.
pub open spec fn installed_check(present: bool, path: Seq<char>) -> Result<(), FailureView> {
    if present {
        Ok(())
    } else {
        Err(FailureView { kind: ErrorKind::NotInstalled, detail: path })
    }
}

/// The state in which an update begins.
pub open spec fn update_start(selector: SelectorView, host: HostView) -> UpdateView {
    UpdateView { host, selector, stage: StageView::CheckInstalled }
}

/// The step that an update in `state` waits for.
pub open spec fn update_pending(state: UpdateView) -> ActionView {
    match state.stage {
        StageView::CheckInstalled => ActionView::ProbeBinary,
        StageView::ResolveTarget => ActionView::FetchLatestRelease,
        StageView::CompareVersions { .. } => ActionView::ReadVersionRecord,
        StageView::ConfirmMajor { .. } => ActionView::Confirm {
            default_answer: CONFIRM_BY_DEFAULT,
        },
        StageView::Installing { install, .. } => install_pending(install),
        _ => ActionView::Stop,
    }
}

/// The stage in which the install flow has taken over, with `notice` for
/// the user.
pub open spec fn handed_over(
    selector: SelectorView,
    host: HostView,
    notice: Option<Notice>,
) -> StageView {
    StageView::Installing { notice, install: install_start(selector, host) }
}

/// The stage after the binary has been looked for. Without a binary the
/// update ends; with one, an update to a named version knows its target,
/// and an update to the newest release asks the registry for it.
pub open spec fn after_check(selector: SelectorView, host: HostView, present: bool) -> StageView {
    match installed_check(present, binary_path_of(host.home)) {
        Err(failure) => StageView::NotInstalled(failure),
        Ok(_) => match selector {
            SelectorView::Latest => StageView::ResolveTarget,
            SelectorView::Explicit(version) => StageView::CompareVersions { target: version },
        },
    }
}

/// The stage after the registry has answered the request for the newest
/// release.
pub open spec fn after_resolution(reply: ReplyView) -> StageView {
    match resolution(SelectorView::Latest, reply) {
        Ok(release) => StageView::CompareVersions { target: version_of_tag(release.tag) },
        Err(failure) => StageView::Failed(failure),
    }
}

/// The stage after the version record has been read.
///
/// Without a record the tool was installed by other means: the comparison
/// is skipped and the install goes ahead with a notice. With the target on
/// record nothing is left to do. A major change needs the user's consent
/// when the newest release was asked for; when a version was named it goes
/// ahead with a notice. Every other change goes ahead.
pub open spec fn after_comparison(
    selector: SelectorView,
    host: HostView,
    target: Seq<char>,
    record: Option<Seq<char>>,
) -> StageView {
    match record {
        None => handed_over(selector, host, Some(Notice::InstalledOutOfBand)),
        Some(current) => if semver_triple(current) == semver_triple(target) {
            StageView::AlreadyInstalled { target }
        } else if major_change(semver_triple(current), semver_triple(target)) {
            match selector {
                SelectorView::Latest => StageView::ConfirmMajor { target },
                SelectorView::Explicit(_) => handed_over(
                    selector,
                    host,
                    Some(Notice::MajorChange),
                ),
            }
        } else {
            handed_over(selector, host, None)
        },
    }
}

/// The stage after the user has answered.
pub open spec fn after_answer(selector: SelectorView, host: HostView, yes: bool) -> StageView {
    if yes {
        handed_over(selector, host, None)
    } else {
        StageView::Aborted
    }
}

/// The stage that follows when the driver reports `event`. An event that
/// does not answer the pending step changes nothing.
pub open spec fn next_stage(state: UpdateView, event: EventView) -> StageView {
    match (state.stage, event) {
        (StageView::CheckInstalled, EventView::BinaryPresent(present)) => after_check(
            state.selector,
            state.host,
            present,
        ),
        (StageView::ResolveTarget, EventView::Release(reply)) => after_resolution(reply),
        (StageView::CompareVersions { target }, EventView::VersionRecord(record)) => {
            after_comparison(state.selector, state.host, target, record)
        },
        (StageView::ConfirmMajor { target }, EventView::Answer(yes)) => after_answer(
            state.selector,
            state.host,
            yes,
        ),
        (StageView::Installing { notice, install }, _) => StageView::Installing {
            notice,
            install: install_next(install, event),
        },
        _ => state.stage,
    }
}

/// The state that follows `state` when the driver reports `event`.
pub open spec fn update_next(state: UpdateView, event: EventView) -> UpdateView {
    UpdateView { stage: next_stage(state, event), ..state }
}

/// What the install directory holds after the driver has performed the step
/// that `state` waits for and has reported `event`.
pub open spec fn update_effect(state: UpdateView, event: EventView, dir: Directory) -> Directory {
    match state.stage {
        StageView::Installing { install, .. } => install_effect(install, event, dir),
        _ => dir,
    }
}

/// Whether an update in `state` has ended.
pub open spec fn update_ended(state: UpdateView) -> bool {
    match state.stage {
        StageView::Installing { install, .. } => install_ended(install),
        StageView::AlreadyInstalled { .. } => true,
        StageView::Aborted => true,
        StageView::NotInstalled(_) => true,
        StageView::Failed(_) => true,
        _ => false,
    }
}

/// Whether an update that stands in `state` has failed. That the tool is
/// not installed is no failure of the update.
pub open spec fn update_failed(state: UpdateView) -> bool {
    match state.stage {
        StageView::Installing { install, .. } => install_failed(install),
        StageView::Failed(_) => true,
        _ => false,
    }
}

/// Checks that the binary is installed before an update goes on.
/// `binary_present` says whether a file exists at `install_path`.
pub fn check_if_installed(binary_present: bool, install_path: &str) -> (result: Result<
    (),
    Failure,
>)
    ensures
        match result {
            Ok(_) => installed_check(binary_present, install_path@) == Ok::<(), FailureView>(()),
            Err(failure) => installed_check(binary_present, install_path@) == Err::<
                (),
                FailureView,
            >(failure@),
        },
{
    if !binary_present {
        return Err(Failure::about(ErrorKind::NotInstalled, install_path));
    }
    Ok(())
}

/// The installed version as the version record gives it. Without a record
/// the answer is a `NotInstalled` failure that names the record's path.
pub fn get_current_version(record: Option<String>, record_path: &str) -> (result: Result<
    String,
    Failure,
>)
    ensures
        match (record, result) {
            (Some(version), Ok(current)) => current@ == version@,
            (None, Err(failure)) => failure@ == (FailureView {
                kind: ErrorKind::NotInstalled,
                detail: record_path@,
            }),
            _ => false,
        },
{
    match record {
        Some(version) => Ok(version),
        None => Err(Failure::about(ErrorKind::NotInstalled, record_path)),
    }
}

/// Hands over to the install flow, with `notice` for the user.
fn hand_over(host: Host, selector: VersionSelector, notice: Option<Notice>) -> (next: UpdateState)
    ensures
        next@.host == host@,
        next@.selector == selector@,
        next@.stage == handed_over(selector@, host@, notice),
{
    let version = match &selector {
        VersionSelector::Latest => None,
        VersionSelector::Explicit(version) => Some(version.clone()),
    };
    let install = install_version(version, &host);
    UpdateState { host, selector, stage: UpdateStage::Installing { notice, install } }
}

/// Decides how to go on once the version record has been read.
fn compare(host: Host, selector: VersionSelector, target: String, record: Option<String>) -> (next:
    UpdateState)
    ensures
        next@.host == host@,
        next@.selector == selector@,
        next@.stage == after_comparison(selector@, host@, target@, option_view(record)),
{
    let record_path = host.layout.version_record_path();
    match get_current_version(record, record_path.as_str()) {
        Err(_) => hand_over(host, selector, Some(Notice::InstalledOutOfBand)),
        Ok(current) => {
            match compare_versions(current.as_str(), target.as_str()) {
                Ordering::Equal => UpdateState {
                    host,
                    selector,
                    stage: UpdateStage::AlreadyInstalled { target },
                },
                _ => {
                    if is_major_change(current.as_str(), target.as_str()) {
                        match &selector {
                            VersionSelector::Latest => UpdateState {
                                host,
                                selector,
                                stage: UpdateStage::ConfirmMajor { target },
                            },
                            VersionSelector::Explicit(_) => hand_over(
                                host,
                                selector,
                                Some(Notice::MajorChange),
                            ),
                        }
                    } else {
                        hand_over(host, selector, None)
                    }
                },
            }
        },
    }
}

impl UpdateState {
    /// The step that this update waits for; `Stop` once it has ended.
    pub fn pending(&self) -> (action: Action)
        ensures
            action@ == update_pending(self@),
    {
        match &self.stage {
            UpdateStage::CheckInstalled => Action::ProbeBinary,
            UpdateStage::ResolveTarget => Action::FetchLatestRelease,
            UpdateStage::CompareVersions { .. } => Action::ReadVersionRecord,
            UpdateStage::ConfirmMajor { .. } => Action::Confirm {
                default_answer: CONFIRM_BY_DEFAULT,
            },
            UpdateStage::Installing { install, .. } => install.pending(),
            _ => Action::Stop,
        }
    }

    /// The state that follows when the driver reports `event`.
    pub fn advance(self, event: Event) -> (next: UpdateState)
        ensures
            next@ == update_next(self@, event@),
    {
        let UpdateState { host, selector, stage } = self;
        match (stage, event) {
            (UpdateStage::CheckInstalled, Event::BinaryPresent(present)) => {
                let path = host.layout.binary_path();
                let stage = match check_if_installed(present, path.as_str()) {
                    Err(failure) => UpdateStage::NotInstalled(failure),
                    Ok(_) => match &selector {
                        VersionSelector::Latest => UpdateStage::ResolveTarget,
                        VersionSelector::Explicit(version) => UpdateStage::CompareVersions {
                            target: version.clone(),
                        },
                    },
                };
                UpdateState { host, selector, stage }
            },
            (UpdateStage::ResolveTarget, Event::Release(reply)) => {
                let stage = match get_latest_version(reply) {
                    Ok(target) => UpdateStage::CompareVersions { target },
                    Err(failure) => UpdateStage::Failed(failure),
                };
                UpdateState { host, selector, stage }
            },
            (UpdateStage::CompareVersions { target }, Event::VersionRecord(record)) => compare(
                host,
                selector,
                target,
                record,
            ),
            (UpdateStage::ConfirmMajor { .. }, Event::Answer(yes)) => {
                if yes {
                    hand_over(host, selector, None)
                } else {
                    UpdateState { host, selector, stage: UpdateStage::Aborted }
                }
            },
            (UpdateStage::Installing { notice, install }, event) => UpdateState {
                host,
                selector,
                stage: UpdateStage::Installing { notice, install: install.advance(event) },
            },
            (stage, _) => UpdateState { host, selector, stage },
        }
    }

    /// Whether this update has ended.
    pub fn finished(&self) -> (ended: bool)
        ensures
            ended == update_ended(self@),
    {
        match &self.stage {
            UpdateStage::Installing { install, .. } => install.finished(),
            UpdateStage::AlreadyInstalled { .. } => true,
            UpdateStage::Aborted => true,
            UpdateStage::NotInstalled(_) => true,
            UpdateStage::Failed(_) => true,
            _ => false,
        }
    }

    /// What the user is to be told before the install begins, if anything.
    pub fn notice(&self) -> (notice: Option<Notice>)
        ensures
            notice == match self@.stage {
                StageView::Installing { notice, .. } => notice,
                StageView::ConfirmMajor { .. } => Some(Notice::MajorChange),
                _ => None,
            },
    {
        match &self.stage {
            UpdateStage::Installing { notice, .. } => *notice,
            UpdateStage::ConfirmMajor { .. } => Some(Notice::MajorChange),
            _ => None,
        }
    }

    /// The exit status of the command if it ended here: one after a
    /// failure, zero otherwise. A tool that is not installed is reported
    /// and is no failure.
    pub fn exit_code(&self) -> (code: i32)
        ensures
            code == if update_failed(self@) { 1i32 } else { 0i32 },
    {
        match &self.stage {
            UpdateStage::Installing { install, .. } => install.exit_code(),
            UpdateStage::Failed(_) => 1,
            _ => 0,
        }
    }
}

/// Begins an update to the newest release.
pub fn update_latest(host: &Host) -> (state: UpdateState)
    ensures
        state@ == update_start(SelectorView::Latest, host@),
{
    UpdateState {
        host: host.duplicate(),
        selector: VersionSelector::Latest,
        stage: UpdateStage::CheckInstalled,
    }
}

/// Begins an update to the release of `version`.
pub fn update_specific(version: String, host: &Host) -> (state: UpdateState)
    ensures
        state@ == update_start(SelectorView::Explicit(version@), host@),
{
    UpdateState {
        host: host.duplicate(),
        selector: VersionSelector::Explicit(version),
        stage: UpdateStage::CheckInstalled,
    }
}

/// Begins the update that the command's arguments ask for.
pub fn process(args: Updater, host: &Host) -> (state: UpdateState)
    ensures
        state@ == update_start(selector_of(option_view(args.version)), host@),
{
    match args.version {
        Some(version) => update_specific(version, host),
        None => update_latest(host),
    }
}

/// The state and the directory after the driver has reported `events`, one
/// after the other, to an update that stood in `state` over `dir`.
pub open spec fn update_run(state: UpdateView, dir: Directory, events: Seq<EventView>) -> (
    UpdateView,
    Directory,
)
    decreases events.len(),
{
    if events.len() == 0 {
        (state, dir)
    } else {
        update_run(
            update_next(state, events.first()),
            update_effect(state, events.first(), dir),
            events.drop_first(),
        )
    }
}

/// How much an update in `state` can have changed a directory that held
/// `before` when the update began and holds `now`: nothing until the install
/// flow has taken over, and from then on what that install has changed.
pub open spec fn update_progress(state: UpdateView, before: Directory, now: Directory) -> bool {
    match state.stage {
        StageView::Installing { install, .. } => install_progress(install, before, now),
        _ => now == before,
    }
}

/// One step of an update keeps `update_progress`.
pub proof fn lemma_update_step(
    state: UpdateView,
    event: EventView,
    before: Directory,
    now: Directory,
)
    requires
        update_progress(state, before, now),
    ensures
        update_progress(update_next(state, event), before, update_effect(state, event, now)),
{
    match state.stage {
        StageView::Installing { install, .. } => {
            lemma_install_step(install, event, before, now);
        },
        _ => {},
    }
}

/// Any number of steps of an update keep `update_progress`.
pub proof fn lemma_update_run(
    state: UpdateView,
    before: Directory,
    now: Directory,
    events: Seq<EventView>,
)
    requires
        update_progress(state, before, now),
    ensures
        update_progress(update_run(state, now, events).0, before, update_run(state, now, events).1),
    decreases events.len(),
{
    if events.len() > 0 {
        lemma_update_step(state, events.first(), before, now);
        lemma_update_run(
            update_next(state, events.first()),
            before,
            update_effect(state, events.first(), now),
            events.drop_first(),
        );
    }
}

/// Until the install flow has taken over, an update only looks and asks:
/// the step it waits for neither downloads an archive nor creates, removes
/// or writes anything.
pub proof fn lemma_update_only_reads(state: UpdateView)
    requires
        !(state.stage is Installing),
    ensures
        !writes(update_pending(state)),
        !(update_pending(state) is DownloadAndExtract),
        !(update_pending(state) is EnsureInstallDir),
{
}

/// An update that does not reach the install flow changes nothing. This
/// covers the update that finds the target installed already, the one that
/// the user declines, the one that finds no binary, and the one whose
/// registry request fails.
pub proof fn lemma_update_without_install_changes_nothing(
    selector: SelectorView,
    host: HostView,
    before: Directory,
    events: Seq<EventView>,
)
    ensures
        !(update_run(update_start(selector, host), before, events).0.stage is Installing)
            ==> update_run(update_start(selector, host), before, events).1 == before,
{
    lemma_update_run(update_start(selector, host), before, before, events);
}

/// An update that runs to a complete install leaves the directory with the
/// target's binary and the target's version on record.
pub proof fn lemma_update_settles(
    selector: SelectorView,
    host: HostView,
    before: Directory,
    events: Seq<EventView>,
)
    ensures
        match update_run(update_start(selector, host), before, events).0.stage {
            StageView::Installing { install: InstallView::Installed(target), .. } => update_run(
                update_start(selector, host),
                before,
                events,
            ).1 == installed(target.asset, target.label),
            _ => true,
        },
{
    lemma_update_run(update_start(selector, host), before, before, events);
}

/// A declined confirmation ends the update without failure and without
/// asking for anything more.
pub proof fn lemma_decline_aborts(state: UpdateView)
    requires
        state.stage is ConfirmMajor,
    ensures
        update_next(state, EventView::Answer(false)).stage == StageView::Aborted,
        update_ended(update_next(state, EventView::Answer(false))),
        !update_failed(update_next(state, EventView::Answer(false))),
        update_pending(update_next(state, EventView::Answer(false))) is Stop,
{
}

/// Without a binary the update ends at once: the absence is reported, the
/// update has not failed, and neither the registry nor the user is asked.
pub proof fn lemma_update_needs_binary(selector: SelectorView, host: HostView)
    ensures
        update_next(update_start(selector, host), EventView::BinaryPresent(false)).stage
            == StageView::NotInstalled(
            FailureView { kind: ErrorKind::NotInstalled, detail: binary_path_of(host.home) },
        ),
        update_ended(update_next(update_start(selector, host), EventView::BinaryPresent(false))),
        !update_failed(update_next(update_start(selector, host), EventView::BinaryPresent(false))),
{
}

} // verus!
