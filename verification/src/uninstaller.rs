//! The uninstall flow: remove the binary, and only the binary, if it is
//! there.

use crate::directory::Directory;
use crate::error::{ErrorKind, Failure, FailureView};
use crate::protocol::{Action, ActionView, Event, EventView};
use crate::text::option_view;
use vstd::prelude::*;

verus! {

/// Where an uninstall stands.
#[derive(Clone, Debug, PartialEq, Eq)]
pub enum UninstallState {
    /// The driver looks whether the binary is installed.
    Probing,
    /// The version record is being read, to tell the user what is removed.
    Reading,
    /// The binary is being removed. `version` is what the record held.
    Removing { version: Option<String> },
    /// The binary has been removed.
    Removed { version: Option<String> },
    /// There was no binary. This is reported and is no error.
    NotInstalled,
    /// The binary could not be removed.
    Failed(Failure),
}

/// An `UninstallState` as a mathematical value.
pub enum UninstallView {
    Probing,
    Reading,
    Removing { version: Option<Seq<char>> },
    Removed { version: Option<Seq<char>> },
    NotInstalled,
    Failed(FailureView),
}

impl View for UninstallState {
    type V = UninstallView;

    open spec fn view(&self) -> UninstallView {
        match self {
            UninstallState::Probing => UninstallView::Probing,
            UninstallState::Reading => UninstallView::Reading,
            UninstallState::Removing { version } => UninstallView::Removing {
                version: option_view(*version),
            },
            UninstallState::Removed { version } => UninstallView::Removed {
                version: option_view(*version),
            },
            UninstallState::NotInstalled => UninstallView::NotInstalled,
            UninstallState::Failed(failure) => UninstallView::Failed(failure@),
        }
    }
}

/// The step that an uninstall in `state` waits for.
pub open spec fn uninstall_pending(state: UninstallView) -> ActionView {
    match state {
        UninstallView::Probing => ActionView::ProbeBinary,
        UninstallView::Reading => ActionView::ReadVersionRecord,
        UninstallView::Removing { .. } => ActionView::RemoveBinary,
        _ => ActionView::Stop,
    }
}

/// The state that follows `state` when the driver reports `event`. An event
/// that does not answer the pending step changes nothing.
pub open spec fn uninstall_next(state: UninstallView, event: EventView) -> UninstallView {
    match (state, event) {
        (UninstallView::Probing, EventView::BinaryPresent(present)) => if present {
            UninstallView::Reading
        } else {
            UninstallView::NotInstalled
        },
        (UninstallView::Reading, EventView::VersionRecord(record)) => UninstallView::Removing {
            version: record,
        },
        (UninstallView::Removing { version }, EventView::Completed) => UninstallView::Removed {
            version,
        },
        (UninstallView::Removing { .. }, EventView::Failed(diagnostic)) => UninstallView::Failed(
            FailureView { kind: ErrorKind::RemovalFailed, detail: diagnostic },
        ),
        _ => state,
    }
}

/// What the install directory holds after the driver has performed the step
/// that `state` waits for and has reported `event`.
pub open spec fn uninstall_effect(
    state: UninstallView,
    event: EventView,
    dir: Directory,
) -> Directory {
    match (state, event) {
        (UninstallView::Removing { .. }, EventView::Completed) => Directory {
            binary: None,
            ..dir
        },
        _ => dir,
    }
}

/// Whether `event` tells the truth about `dir` where it speaks of it.
pub open spec fn truthful(event: EventView, dir: Directory) -> bool {
    match event {
        EventView::BinaryPresent(present) => present == dir.binary is Some,
        EventView::VersionRecord(record) => record == dir.record,
        _ => true,
    }
}

/// Whether an uninstall in `state` has ended.
pub open spec fn uninstall_ended(state: UninstallView) -> bool {
    state is Removed || state is NotInstalled || state is Failed
}

impl UninstallState {
    /// The step that this uninstall waits for; `Stop` once it has ended.
    pub fn pending(&self) -> (action: Action)
        ensures
            action@ == uninstall_pending(self@),
    {
        match self {
            UninstallState::Probing => Action::ProbeBinary,
            UninstallState::Reading => Action::ReadVersionRecord,
            UninstallState::Removing { .. } => Action::RemoveBinary,
            _ => Action::Stop,
        }
    }

    /// The state that follows when the driver reports `event`.
    pub fn advance(self, event: Event) -> (next: UninstallState)
        ensures
            next@ == uninstall_next(self@, event@),
    {
        match (self, event) {
            (UninstallState::Probing, Event::BinaryPresent(present)) => if present {
                UninstallState::Reading
            } else {
                UninstallState::NotInstalled
            },
            (UninstallState::Reading, Event::VersionRecord(record)) => UninstallState::Removing {
                version: record,
            },
            (UninstallState::Removing { version }, Event::Completed) => UninstallState::Removed {
                version,
            },
            (UninstallState::Removing { .. }, Event::Failed(diagnostic)) => UninstallState::Failed(
                Failure::new(ErrorKind::RemovalFailed, diagnostic),
            ),
            (state, _) => state,
        }
    }

    /// Whether this uninstall has ended.
    pub fn finished(&self) -> (ended: bool)
        ensures
            ended == uninstall_ended(self@),
    {
        match self {
            UninstallState::Removed { .. } => true,
            UninstallState::NotInstalled => true,
            UninstallState::Failed(_) => true,
            _ => false,
        }
    }

    /// The exit status of the command if it ended here: one if the removal
    /// failed, zero otherwise. A tool that is not installed is reported and
    /// is no failure.
    pub fn exit_code(&self) -> (code: i32)
        ensures
            code == if self@ is Failed { 1i32 } else { 0i32 },
    {
        match self {
            UninstallState::Failed(_) => 1,
            _ => 0,
        }
    }
}

/// Begins an uninstall.
pub fn uninstall() -> (state: UninstallState)
    ensures
        state@ == UninstallView::Probing,
{
    UninstallState::Probing
}

/// Begins the uninstall that the command asks for.
pub fn process() -> (state: UninstallState)
    ensures
        state@ == UninstallView::Probing,
{
    uninstall()
}

/// The state and the directory after the driver has reported `events`, one
/// after the other, to an uninstall that stood in `state` over `dir`.
pub open spec fn uninstall_run(state: UninstallView, dir: Directory, events: Seq<EventView>) -> (
    UninstallView,
    Directory,
)
    decreases events.len(),
{
    if events.len() == 0 {
        (state, dir)
    } else {
        uninstall_run(
            uninstall_next(state, events.first()),
            uninstall_effect(state, events.first(), dir),
            events.drop_first(),
        )
    }
}

/// Whether each of `events` tells the truth about the directory as it is
/// when the event is reported.
pub open spec fn truthful_run(state: UninstallView, dir: Directory, events: Seq<EventView>) -> bool
    decreases events.len(),
{
    events.len() > 0 ==> truthful(events.first(), dir) && truthful_run(
        uninstall_next(state, events.first()),
        uninstall_effect(state, events.first(), dir),
        events.drop_first(),
    )
}

/// How an uninstall in `state` relates the directory as it is to the
/// directory as it was: the version record is never touched, and the binary
/// is gone once the uninstall has removed it and is untouched before. An
/// uninstall that got past the probe found a binary.
pub open spec fn uninstall_progress(
    state: UninstallView,
    before: Directory,
    now: Directory,
) -> bool {
    &&& now.record == before.record
    &&& match state {
        UninstallView::Removed { .. } => now.binary is None && before.binary is Some,
        UninstallView::Probing => now == before,
        UninstallView::NotInstalled => now == before && before.binary is None,
        _ => now == before && before.binary is Some,
    }
}

/// One truthfully reported step of an uninstall keeps `uninstall_progress`.
pub proof fn lemma_uninstall_step(
    state: UninstallView,
    event: EventView,
    before: Directory,
    now: Directory,
)
    requires
        uninstall_progress(state, before, now),
        truthful(event, now),
    ensures
        uninstall_progress(
            uninstall_next(state, event),
            before,
            uninstall_effect(state, event, now),
        ),
{
}

/// Any number of truthfully reported steps keep `uninstall_progress`.
pub proof fn lemma_uninstall_run(
    state: UninstallView,
    before: Directory,
    now: Directory,
    events: Seq<EventView>,
)
    requires
        uninstall_progress(state, before, now),
        truthful_run(state, now, events),
    ensures
        uninstall_progress(
            uninstall_run(state, now, events).0,
            before,
            uninstall_run(state, now, events).1,
        ),
    decreases events.len(),
{
    if events.len() > 0 {
        lemma_uninstall_step(state, events.first(), before, now);
        lemma_uninstall_run(
            uninstall_next(state, events.first()),
            before,
            uninstall_effect(state, events.first(), now),
            events.drop_first(),
        );
    }
}

/// Uninstalling where no binary is installed changes nothing and is no
/// failure: the uninstall can only end as `NotInstalled`, and it never asks
/// for a removal.
pub proof fn lemma_uninstall_without_binary(before: Directory, events: Seq<EventView>)
    requires
        before.binary is None,
        truthful_run(UninstallView::Probing, before, events),
    ensures
        uninstall_run(UninstallView::Probing, before, events).1 == before,
        uninstall_run(UninstallView::Probing, before, events).0 is Probing || uninstall_run(
            UninstallView::Probing,
            before,
            events,
        ).0 is NotInstalled,
        !(uninstall_pending(uninstall_run(UninstallView::Probing, before, events).0)
            is RemoveBinary),
{
    lemma_uninstall_run(UninstallView::Probing, before, before, events);
}

/// Uninstalling removes the binary and nothing else: whatever the driver
/// reports, the version record stays as it was, and an uninstall that ends
/// as `Removed` has left no binary. An uninstall that has not removed the
/// binary has left it as it was.
pub proof fn lemma_uninstall_removes_only_binary(before: Directory, events: Seq<EventView>)
    requires
        truthful_run(UninstallView::Probing, before, events),
    ensures
        uninstall_run(UninstallView::Probing, before, events).1.record == before.record,
        uninstall_run(UninstallView::Probing, before, events).0 is Removed ==> uninstall_run(
            UninstallView::Probing,
            before,
            events,
        ).1.binary is None,
        !(uninstall_run(UninstallView::Probing, before, events).0 is Removed) ==> uninstall_run(
            UninstallView::Probing,
            before,
            events,
        ).1 == before,
{
    lemma_uninstall_run(UninstallView::Probing, before, before, events);
}

/// With a binary installed and every step carried out, the uninstall ends
/// as `Removed`.
pub proof fn lemma_uninstall_with_binary(before: Directory)
    requires
        before.binary is Some,
    ensures
        uninstall_run(
            UninstallView::Probing,
            before,
            seq![
                EventView::BinaryPresent(true),
                EventView::VersionRecord(before.record),
                EventView::Completed,
            ],
        ) == (
            UninstallView::Removed { version: before.record },
            Directory { binary: None, record: before.record },
        ),
{
    let events = seq![
        EventView::BinaryPresent(true),
        EventView::VersionRecord(before.record),
        EventView::Completed,
    ];
    let rest = seq![EventView::VersionRecord(before.record), EventView::Completed];
    let last = seq![EventView::Completed];
    assert(events.drop_first() == rest);
    assert(rest.drop_first() == last);
    assert(last.drop_first() == Seq::<EventView>::empty());
    reveal_with_fuel(uninstall_run, 4);
}

} // verus!
