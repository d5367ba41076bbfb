//! Verified core of `karakup`, the version manager of the `karak` command
//! line tool: version comparison, release and asset selection, and the
//! install, update and uninstall flows as state machines that a thin driver
//! feeds with the outcome of each outside step.

pub mod constants;
pub mod directory;
pub mod error;
pub mod host;
pub mod installer;
pub mod layout;
pub mod platform;
pub mod protocol;
pub mod release;
pub mod root;
pub mod text;
pub mod uninstaller;
pub mod updater;
pub mod version;
