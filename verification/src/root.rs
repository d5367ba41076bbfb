//! The parsed command line, the commands, and the one flow that each of
//! them starts.

use crate::host::{Host, HostView};
use crate::installer;
use crate::installer::{
    install_ended, install_failed, install_next, install_pending, install_start, InstallState,
    InstallView, Installer,
};
use crate::protocol::{Action, ActionView, Event, EventView};
use crate::release::selector_of;
use crate::text::option_view;
use crate::uninstaller;
use crate::updater;
use crate::uninstaller::{
    uninstall_ended, uninstall_next, uninstall_pending, UninstallState, UninstallView,
};
use crate::updater::{
    update_ended, update_failed, update_next, update_pending, update_start, UpdateState,
    UpdateView, Updater,
};
use vstd::prelude::*;

verus! {

/// The commands.
#[derive(Clone, Debug, PartialEq, Eq)]
pub enum Command {
    /// Install the tool.
    Install(Installer),
    /// Uninstall the tool.
    Uninstall,
    /// Update the tool to the newest release or to a named version.
    Update(Updater),
}

/// The shells for which a completion script can be printed.
#[derive(Clone, Copy, Debug, PartialEq, Eq, Structural)]
pub enum Shell {
    Bash,
    Elvish,
    Fish,
    PowerShell,
    Zsh,
}

/// The command line after parsing.
#[derive(Clone, Debug, PartialEq, Eq)]
pub struct Root {
    /// The shell to print a completion script for, if one was asked for.
    pub generator: Option<Shell>,
    /// The command, if one was given.
    pub command: Option<Command>,
}

/// What is printed before the command runs.
#[derive(Clone, Copy, Debug, PartialEq, Eq, Structural)]
pub enum Preamble {
    /// The completion script for the given shell.
    Completions(Shell),
    /// The help text.
    Help,
    /// Nothing.
    Nothing,
}

/// The flow of one invocation.
#[derive(Clone, Debug, PartialEq, Eq)]
pub enum Session {
    Install(InstallState),
    Update(UpdateState),
    Uninstall(UninstallState),
    /// No command was given: there is nothing to do.
    Idle,
}

/// A `Session` as a mathematical value.
pub enum SessionView {
    Install(InstallView),
    Update(UpdateView),
    Uninstall(UninstallView),
    Idle,
}

impl View for Session {
    type V = SessionView;

    open spec fn view(&self) -> SessionView {
        match self {
            Session::Install(state) => SessionView::Install(state@),
            Session::Update(state) => SessionView::Update(state@),
            Session::Uninstall(state) => SessionView::Uninstall(state@),
            Session::Idle => SessionView::Idle,
        }
    }
}

/// The step that `session` waits for.
pub open spec fn session_pending(session: SessionView) -> ActionView {
    match session {
        SessionView::Install(state) => install_pending(state),
        SessionView::Update(state) => update_pending(state),
        SessionView::Uninstall(state) => uninstall_pending(state),
        SessionView::Idle => ActionView::Stop,
    }
}

/// The session that follows when the driver reports `event`.
pub open spec fn session_next(session: SessionView, event: EventView) -> SessionView {
    match session {
        SessionView::Install(state) => SessionView::Install(install_next(state, event)),
        SessionView::Update(state) => SessionView::Update(update_next(state, event)),
        SessionView::Uninstall(state) => SessionView::Uninstall(uninstall_next(state, event)),
        SessionView::Idle => SessionView::Idle,
    }
}

/// Whether `session` has ended.
pub open spec fn session_ended(session: SessionView) -> bool {
    match session {
        SessionView::Install(state) => install_ended(state),
        SessionView::Update(state) => update_ended(state),
        SessionView::Uninstall(state) => uninstall_ended(state),
        SessionView::Idle => true,
    }
}

/// Whether `session` stands in a failure.
pub open spec fn session_failed(session: SessionView) -> bool {
    match session {
        SessionView::Install(state) => install_failed(state),
        SessionView::Update(state) => update_failed(state),
        SessionView::Uninstall(state) => state is Failed,
        SessionView::Idle => false,
    }
}

impl Session {
    /// The step that this session waits for; `Stop` once it has ended.
    pub fn pending(&self) -> (action: Action)
        ensures
            action@ == session_pending(self@),
    {
        match self {
            Session::Install(state) => state.pending(),
            Session::Update(state) => state.pending(),
            Session::Uninstall(state) => state.pending(),
            Session::Idle => Action::Stop,
        }
    }

    /// The session that follows when the driver reports `event`.
    pub fn advance(self, event: Event) -> (next: Session)
        ensures
            next@ == session_next(self@, event@),
    {
        match self {
            Session::Install(state) => Session::Install(state.advance(event)),
            Session::Update(state) => Session::Update(state.advance(event)),
            Session::Uninstall(state) => Session::Uninstall(state.advance(event)),
            Session::Idle => Session::Idle,
        }
    }

    /// Whether this session has ended.
    pub fn finished(&self) -> (ended: bool)
        ensures
            ended == session_ended(self@),
    {
        match self {
            Session::Install(state) => state.finished(),
            Session::Update(state) => state.finished(),
            Session::Uninstall(state) => state.finished(),
            Session::Idle => true,
        }
    }

    /// The exit status of the process if the session ended here: one after
    /// a failure, zero otherwise.
    pub fn exit_code(&self) -> (code: i32)
        ensures
            code == if session_failed(self@) { 1i32 } else { 0i32 },
    {
        match self {
            Session::Install(state) => state.exit_code(),
            Session::Update(state) => state.exit_code(),
            Session::Uninstall(state) => state.exit_code(),
            Session::Idle => 0,
        }
    }
}

/// The session that `command` starts on `host`.
pub open spec fn session_start(command: Option<Command>, host: HostView) -> SessionView {
    match command {
        Some(Command::Install(args)) => SessionView::Install(
            install_start(selector_of(option_view(args.version)), host),
        ),
        Some(Command::Update(args)) => SessionView::Update(
            update_start(selector_of(option_view(args.version)), host),
        ),
        Some(Command::Uninstall) => SessionView::Uninstall(UninstallView::Probing),
        None => SessionView::Idle,
    }
}

impl Root {
    /// What is printed before the command runs: the completion script if one
    /// was asked for; else the help text if no command was given; else
    /// nothing.
    pub fn preamble(&self) -> (preamble: Preamble)
        ensures
            preamble == match self.generator {
                Some(shell) => Preamble::Completions(shell),
                None => if self.command is None {
                    Preamble::Help
                } else {
                    Preamble::Nothing
                },
            },
    {
        match self.generator {
            Some(shell) => Preamble::Completions(shell),
            None => match &self.command {
                None => Preamble::Help,
                Some(_) => Preamble::Nothing,
            },
        }
    }
}

/// Begins the flow of the command on the command line; without a command
/// there is nothing to do.
pub fn process(root: Root, host: &Host) -> (session: Session)
    ensures
        session@ == session_start(root.command, host@),
{
    match root.command {
        Some(Command::Install(args)) => Session::Install(installer::process(args, host)),
        Some(Command::Update(args)) => Session::Update(updater::process(args, host)),
        Some(Command::Uninstall) => Session::Uninstall(uninstaller::process()),
        None => Session::Idle,
    }
}

/// A session that has ended waits for nothing, and one that waits for
/// nothing has ended.
pub proof fn lemma_session_stops_when_ended(session: SessionView)
    ensures
        session_ended(session) <==> session_pending(session) is Stop,
{
}

} // verus!
