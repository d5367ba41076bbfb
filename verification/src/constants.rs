//! Fixed names of the tool, its releases and its files.

use vstd::prelude::*;

verus! {

/// Name of the installed binary.
pub const CLI_NAME: &'static str = "karak";

/// Name of this version manager, as users type it.
pub const MANAGER_NAME: &'static str = "karakup";

/// Owner of the repository whose releases are installed.
pub const REPOSITORY_OWNER: &'static str = "karak-network";

/// Name of the repository whose releases are installed.
pub const REPOSITORY_NAME: &'static str = "karak-rs";

/// What a release tag puts before the version.
pub const TAG_PREFIX: &'static str = "karak-cli-v";

/// What every release archive's file name begins with.
pub const ASSET_PREFIX: &'static str = "karak-cli-";

/// What every release archive's file name ends with.
pub const ARCHIVE_EXTENSION: &'static str = ".tar.xz";

/// The configuration directory, relative to the home directory.
pub const CONFIG_SUBDIR: &'static str = ".karak";

/// The install directory, relative to the home directory.
pub const INSTALL_SUBDIR: &'static str = ".karak/bin";

/// File in the install directory that records the installed version.
pub const VERSION_RECORD: &'static str = ".bin_version";

/// Permission bits of the installed binary.
pub const BINARY_MODE: u32 = 0o755;

/// What an empty answer to the question before a major update means: no.
pub const CONFIRM_BY_DEFAULT: bool = false;

/// How many leading path components the extractor drops from each entry.
pub const STRIP_COMPONENTS: u32 = 1;

} // verus!
