//! The ways a command can fail, and the message shown for each.

use crate::constants::MANAGER_NAME;
use vstd::prelude::*;
use vstd::string::*;

verus! {

/// The kinds of failure.
#[derive(Clone, Copy, Debug, PartialEq, Eq, Structural)]
pub enum ErrorKind {
    /// The release registry could not be reached.
    RegistryUnreachable,
    /// The registry has no release for the requested version.
    VersionNotFound,
    /// The operating system is not one of the supported families.
    UnsupportedPlatform,
    /// The architecture is not one of the supported ones.
    UnsupportedArchitecture,
    /// The release has no archive for this platform.
    AssetNotFound,
    /// The download or the extraction of the archive failed.
    ExtractionFailed,
    /// The tool is not installed.
    NotInstalled,
    /// The installed binary could not be removed.
    RemovalFailed,
    /// The install directory could not be written.
    PermissionDenied,
}

/// A failure: its kind and the detail that the message names (a version, a
/// file name, a path, or the diagnostic of the step that failed).
#[derive(Clone, Debug, PartialEq, Eq)]
pub struct Failure {
    pub kind: ErrorKind,
    pub detail: String,
}

/// A `Failure` as a mathematical value.
pub struct FailureView {
    pub kind: ErrorKind,
    pub detail: Seq<char>,
}

impl View for Failure {
    type V = FailureView;

    open spec fn view(&self) -> FailureView {
        FailureView { kind: self.kind, detail: self.detail@ }
    }
}

/// What the message of a failure of kind `kind` says before the detail.
pub open spec fn message_head(kind: ErrorKind) -> Seq<char> {
    match kind {
        ErrorKind::RegistryUnreachable => "Could not reach the release registry: "@,
        ErrorKind::VersionNotFound => "Version "@,
        ErrorKind::UnsupportedPlatform => "Unsupported operating system: "@,
        ErrorKind::UnsupportedArchitecture => "Unsupported architecture: "@,
        ErrorKind::AssetNotFound => "No matching release asset found for "@,
        ErrorKind::ExtractionFailed => "Failed to extract archive: "@,
        ErrorKind::NotInstalled => "\nKarak CLI is not installed at "@,
        ErrorKind::RemovalFailed => "Failed to remove existing binary: "@,
        ErrorKind::PermissionDenied => "Failed to write to the install directory: "@,
    }
}

/// What the message of a failure of kind `kind` says after the detail.
pub open spec fn message_tail(kind: ErrorKind) -> Seq<char> {
    match kind {
        ErrorKind::VersionNotFound => " not found"@,
        ErrorKind::NotInstalled => ". \n\nTo install, use: `"@ + MANAGER_NAME@ + " install`"@,
        _ => Seq::empty(),
    }
}

/// The message shown for a failure.
pub open spec fn failure_message(failure: FailureView) -> Seq<char> {
    message_head(failure.kind) + failure.detail + message_tail(failure.kind)
}

impl ErrorKind {
    /// Whether a failure of this kind is only reported, so that the command
    /// still ends successfully. That holds of `NotInstalled` alone.
    pub fn is_advisory(&self) -> (advisory: bool)
        ensures
            advisory == (*self == ErrorKind::NotInstalled),
    {
        match self {
            ErrorKind::NotInstalled => true,
            _ => false,
        }
    }
}

impl Failure {
    /// A failure of the given kind.
    pub fn new(kind: ErrorKind, detail: String) -> (failure: Failure)
        ensures
            failure@ == (FailureView { kind, detail: detail@ }),
    {
        Failure { kind, detail }
    }

    /// A failure of the given kind about `detail`.
    pub fn about(kind: ErrorKind, detail: &str) -> (failure: Failure)
        ensures
            failure@ == (FailureView { kind, detail: detail@ }),
    {
        Failure { kind, detail: detail.to_owned() }
    }

    /// A copy of this failure.
    pub fn duplicate(&self) -> (copy: Failure)
        ensures
            copy@ == self@,
    {
        Failure { kind: self.kind, detail: self.detail.clone() }
    }

    /// The message shown to the user.
    pub fn message(&self) -> (text: String)
        ensures
            text@ == failure_message(self@),
    {
        let mut text = match self.kind {
            ErrorKind::RegistryUnreachable => String::from_str(
                "Could not reach the release registry: ",
            ),
            ErrorKind::VersionNotFound => String::from_str("Version "),
            ErrorKind::UnsupportedPlatform => String::from_str("Unsupported operating system: "),
            ErrorKind::UnsupportedArchitecture => String::from_str("Unsupported architecture: "),
            ErrorKind::AssetNotFound => String::from_str("No matching release asset found for "),
            ErrorKind::ExtractionFailed => String::from_str("Failed to extract archive: "),
            ErrorKind::NotInstalled => String::from_str("\nKarak CLI is not installed at "),
            ErrorKind::RemovalFailed => String::from_str("Failed to remove existing binary: "),
            ErrorKind::PermissionDenied => String::from_str(
                "Failed to write to the install directory: ",
            ),
        };
        text.append(self.detail.as_str());
        match self.kind {
            ErrorKind::VersionNotFound => {
                text.append(" not found");
            },
            ErrorKind::NotInstalled => {
                text.append(". \n\nTo install, use: `");
                text.append(MANAGER_NAME);
                text.append(" install`");
            },
            _ => {
                assert(text@ + Seq::<char>::empty() == text@);
            },
        }
        assert(text@ == failure_message(self@));
        text
    }

    /// The exit status of a command that ends with this failure: zero for an
    /// advisory failure, one for every other.
    pub fn exit_code(&self) -> (code: i32)
        ensures
            code == if self.kind == ErrorKind::NotInstalled { 0i32 } else { 1i32 },
    {
        if self.kind.is_advisory() {
            0
        } else {
            1
        }
    }
}

} // verus!
