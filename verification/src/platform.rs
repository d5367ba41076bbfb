//! Supported platforms and the archive file name that belongs to each.

use crate::constants::{ARCHIVE_EXTENSION, ASSET_PREFIX};
use crate::error::{ErrorKind, Failure, FailureView};
use crate::text::same_text;
use vstd::prelude::*;
use vstd::string::*;

verus! {

/// The supported operating system families.
#[derive(Clone, Copy, Debug, PartialEq, Eq, Structural)]
pub enum OsFamily {
    /// Linux; its archives name an ABI.
    Linux,
    /// macOS; its archives name none.
    Darwin,
}

/// The supported architectures.
#[derive(Clone, Copy, Debug, PartialEq, Eq, Structural)]
pub enum Architecture {
    X86_64,
    Aarch64,
}

/// A supported platform.
#[derive(Clone, Copy, Debug, PartialEq, Eq, Structural)]
pub struct PlatformInfo {
    pub os: OsFamily,
    pub arch: Architecture,
}

/// The family that an operating system name denotes, if it is supported.
pub open spec fn os_family_of(os: Seq<char>) -> Option<OsFamily> {
    if os == "linux"@ {
        Some(OsFamily::Linux)
    } else if os == "macos"@ {
        Some(OsFamily::Darwin)
    } else {
        None
    }
}

/// The architecture that a name denotes, if it is supported.
pub open spec fn architecture_of(arch: Seq<char>) -> Option<Architecture> {
    if arch == "x86_64"@ {
        Some(Architecture::X86_64)
    } else if arch == "aarch64"@ {
        Some(Architecture::Aarch64)
    } else {
        None
    }
}

/// The platform that the given names denote. The operating system is looked
/// at first: an unsupported one is reported whatever the architecture is.
pub open spec fn platform_of(os: Seq<char>, arch: Seq<char>) -> Result<PlatformInfo, FailureView> {
    match os_family_of(os) {
        None => Err(FailureView { kind: ErrorKind::UnsupportedPlatform, detail: os }),
        Some(family) => match architecture_of(arch) {
            None => Err(FailureView { kind: ErrorKind::UnsupportedArchitecture, detail: arch }),
            Some(architecture) => Ok(PlatformInfo { os: family, arch: architecture }),
        },
    }
}

/// The vendor part of a platform's name.
pub open spec fn vendor_tag(os: OsFamily) -> Seq<char> {
    match os {
        OsFamily::Linux => "unknown"@,
        OsFamily::Darwin => "apple"@,
    }
}

/// The operating system part of a platform's name.
pub open spec fn os_tag(os: OsFamily) -> Seq<char> {
    match os {
        OsFamily::Linux => "linux"@,
        OsFamily::Darwin => "darwin"@,
    }
}

/// The ABI part of a platform's name, with the hyphen that sets it off;
/// empty for a family whose archives name no ABI.
pub open spec fn abi_suffix(os: OsFamily) -> Seq<char> {
    match os {
        OsFamily::Linux => "-gnu"@,
        OsFamily::Darwin => Seq::empty(),
    }
}

/// The architecture part of a platform's name.
pub open spec fn arch_tag(arch: Architecture) -> Seq<char> {
    match arch {
        Architecture::X86_64 => "x86_64"@,
        Architecture::Aarch64 => "aarch64"@,
    }
}

/// The file name of the release archive for `platform`.
pub open spec fn asset_name(platform: PlatformInfo) -> Seq<char> {
    ASSET_PREFIX@ + arch_tag(platform.arch) + "-"@ + vendor_tag(platform.os) + "-"@ + os_tag(
        platform.os,
    ) + abi_suffix(platform.os) + ARCHIVE_EXTENSION@
}

/// Recognises the platform from the names that the running system gives
/// itself.
pub fn detect_platform(os: &str, arch: &str) -> (result: Result<PlatformInfo, Failure>)
    ensures
        match result {
            Ok(platform) => platform_of(os@, arch@) == Ok::<PlatformInfo, FailureView>(platform),
            Err(failure) => platform_of(os@, arch@) == Err::<PlatformInfo, FailureView>(failure@),
        },
{
    let family = if same_text(os, "linux") {
        OsFamily::Linux
    } else if same_text(os, "macos") {
        OsFamily::Darwin
    } else {
        return Err(Failure::about(ErrorKind::UnsupportedPlatform, os));
    };
    let architecture = if same_text(arch, "x86_64") {
        Architecture::X86_64
    } else if same_text(arch, "aarch64") {
        Architecture::Aarch64
    } else {
        return Err(Failure::about(ErrorKind::UnsupportedArchitecture, arch));
    };
    Ok(PlatformInfo { os: family, arch: architecture })
}

/// The file name of the release archive for `platform`.
pub fn asset_file_name(platform: PlatformInfo) -> (name: String)
    ensures
        name@ == asset_name(platform),
{
    let mut name = String::from_str(ASSET_PREFIX);
    match platform.arch {
        Architecture::X86_64 => name.append("x86_64"),
        Architecture::Aarch64 => name.append("aarch64"),
    }
    name.append("-");
    match platform.os {
        OsFamily::Linux => name.append("unknown"),
        OsFamily::Darwin => name.append("apple"),
    }
    name.append("-");
    match platform.os {
        OsFamily::Linux => {
            name.append("linux");
            name.append("-gnu");
        },
        OsFamily::Darwin => {
            name.append("darwin");
            assert(name@ + Seq::<char>::empty() == name@);
        },
    }
    name.append(ARCHIVE_EXTENSION);
    name
}

} // verus!
