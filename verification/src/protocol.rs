//! The exchange between a flow and its driver. A flow names the step it
//! waits for as an `Action`; the driver performs the step and reports what
//! happened as an `Event`.

use crate::release::{AssetDescriptor, AssetView, RegistryReply, ReplyView};
use crate::text::option_view;
use vstd::prelude::*;

verus! {

/// A step that a flow asks its driver to perform.
#[derive(Clone, Debug, PartialEq, Eq)]
pub enum Action {
    /// Ask the registry for the newest release.
    FetchLatestRelease,
    /// Ask the registry for the release with the given tag.
    FetchReleaseByTag(String),
    /// Look whether the binary exists at its installed path.
    ProbeBinary,
    /// Read the version record, if there is one.
    ReadVersionRecord,
    /// Ask the user whether to go on with a major update. `default_answer`
    /// is what an empty answer means.
    Confirm { default_answer: bool },
    /// Create the install directory unless it exists.
    EnsureInstallDir,
    /// Download the asset and unpack it into a staging area, dropping the
    /// given number of leading path components from every entry. Nothing
    /// that is installed is touched.
    DownloadAndExtract { asset: AssetDescriptor, strip_components: u32 },
    /// Remove the installed binary, and nothing else.
    RemoveBinary,
    /// Give the unpacked binary the given permission bits and move it to
    /// its installed path in one step, over the binary that is there.
    PlaceBinary { mode: u32 },
    /// Write the given version to the version record, replacing what it held.
    WriteVersionRecord(String),
    /// Nothing: the flow has ended.
    Stop,
}

/// An `Action` as a mathematical value.
pub enum ActionView {
    FetchLatestRelease,
    FetchReleaseByTag(Seq<char>),
    ProbeBinary,
    ReadVersionRecord,
    Confirm { default_answer: bool },
    EnsureInstallDir,
    DownloadAndExtract { asset: AssetView, strip_components: u32 },
    RemoveBinary,
    PlaceBinary { mode: u32 },
    WriteVersionRecord(Seq<char>),
    Stop,
}

impl View for Action {
    type V = ActionView;

    open spec fn view(&self) -> ActionView {
        match self {
            Action::FetchLatestRelease => ActionView::FetchLatestRelease,
            Action::FetchReleaseByTag(tag) => ActionView::FetchReleaseByTag(tag@),
            Action::ProbeBinary => ActionView::ProbeBinary,
            Action::ReadVersionRecord => ActionView::ReadVersionRecord,
            Action::Confirm { default_answer } => ActionView::Confirm {
                default_answer: *default_answer,
            },
            Action::EnsureInstallDir => ActionView::EnsureInstallDir,
            Action::DownloadAndExtract { asset, strip_components } => {
                ActionView::DownloadAndExtract {
                    asset: asset@,
                    strip_components: *strip_components,
                }
            },
            Action::RemoveBinary => ActionView::RemoveBinary,
            Action::PlaceBinary { mode } => ActionView::PlaceBinary { mode: *mode },
            Action::WriteVersionRecord(label) => ActionView::WriteVersionRecord(label@),
            Action::Stop => ActionView::Stop,
        }
    }
}

/// What the driver reports after a step.
#[derive(Clone, Debug, PartialEq, Eq)]
pub enum Event {
    /// The registry's answer to a request for a release.
    Release(RegistryReply),
    /// Whether the binary exists at its installed path.
    BinaryPresent(bool),
    /// What the version record holds; `None` if there is no record.
    VersionRecord(Option<String>),
    /// The user's answer to a request for confirmation.
    Answer(bool),
    /// The step was carried out.
    Completed,
    /// The step failed and changed nothing; the text is its diagnostic.
    Failed(String),
}

/// An `Event` as a mathematical value.
pub enum EventView {
    Release(ReplyView),
    BinaryPresent(bool),
    VersionRecord(Option<Seq<char>>),
    Answer(bool),
    Completed,
    Failed(Seq<char>),
}

impl View for Event {
    type V = EventView;

    open spec fn view(&self) -> EventView {
        match self {
            Event::Release(reply) => EventView::Release(reply@),
            Event::BinaryPresent(present) => EventView::BinaryPresent(*present),
            Event::VersionRecord(record) => EventView::VersionRecord(option_view(*record)),
            Event::Answer(yes) => EventView::Answer(*yes),
            Event::Completed => EventView::Completed,
            Event::Failed(diagnostic) => EventView::Failed(diagnostic@),
        }
    }
}

/// Whether performing `action` can change what the install directory holds.
pub open spec fn writes(action: ActionView) -> bool {
    action is RemoveBinary || action is PlaceBinary || action is WriteVersionRecord
}

/// Whether performing `action` talks to the registry or downloads from it.
pub open spec fn uses_network(action: ActionView) -> bool {
    action is FetchLatestRelease || action is FetchReleaseByTag || action is DownloadAndExtract
}

impl Action {
    /// Whether this is `Stop`: the flow has ended.
    pub fn is_stop(&self) -> (stop: bool)
        ensures
            stop == (self@ is Stop),
    {
        match self {
            Action::Stop => true,
            _ => false,
        }
    }
}

} // verus!
