//! A mathematical model of the install directory, against which the flows'
//! effects are stated.

use crate::release::AssetView;
use vstd::prelude::*;

verus! {

/// The binary in the install directory: the asset it came from and the
/// version it was installed as.
pub struct InstalledBinary {
    pub asset: AssetView,
    pub version: Seq<char>,
}

/// What the install directory holds, as far as the flows are concerned.
pub struct Directory {
    /// The installed binary, if one is there.
    pub binary: Option<InstalledBinary>,
    /// The content of the version record, if the record is there.
    pub record: Option<Seq<char>>,
}

/// The directory after a complete install of `asset` under `label`.
pub open spec fn installed(asset: AssetView, label: Seq<char>) -> Directory {
    Directory { binary: Some(InstalledBinary { asset, version: label }), record: Some(label) }
}

/// Whether the version record, if there is one, names the version of the
/// binary that is installed.
pub open spec fn record_is_true(dir: Directory) -> bool {
    dir.record matches Some(version) ==> dir.binary matches Some(binary) && binary.version
        == version
}

} // verus!
