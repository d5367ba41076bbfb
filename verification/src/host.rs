//! What a command needs to know about the machine it runs on. The driver
//! gathers it once, when the process starts, and hands it to every flow.

use crate::error::{Failure, FailureView};
use crate::layout::{install_dir_of, on_search_path, Layout};
use crate::platform::{detect_platform, platform_of, PlatformInfo};
use crate::text::option_view;
use vstd::prelude::*;
use vstd::string::*;

verus! {

/// The machine as the process found it.
#[derive(Clone, Debug, PartialEq, Eq)]
pub struct Host {
    /// The operating system's name for itself.
    pub os: String,
    /// The architecture's name.
    pub arch: String,
    /// The directories below the user's home directory.
    pub layout: Layout,
    /// The executable search path, if the environment has one.
    pub search_path: Option<String>,
}

/// A `Host` as a mathematical value.
pub struct HostView {
    pub os: Seq<char>,
    pub arch: Seq<char>,
    pub home: Seq<char>,
    pub search_path: Option<Seq<char>>,
}

impl View for Host {
    type V = HostView;

    open spec fn view(&self) -> HostView {
        HostView {
            os: self.os@,
            arch: self.arch@,
            home: self.layout.home@,
            search_path: option_view(self.search_path),
        }
    }
}

/// Whether the install directory of `host` is on its search path.
pub open spec fn install_dir_listed(host: HostView) -> bool {
    match host.search_path {
        Some(list) => on_search_path(list, install_dir_of(host.home)),
        None => false,
    }
}

impl Host {
    /// Describes a machine. `home` is the user's home directory, empty if
    /// the environment names none.
    pub fn new(os: &str, arch: &str, home: &str, search_path: Option<&str>) -> (host: Host)
        ensures
            host@ == (HostView {
                os: os@,
                arch: arch@,
                home: home@,
                search_path: match search_path {
                    Some(list) => Some(list@),
                    None => None,
                },
            }),
    {
        Host {
            os: os.to_owned(),
            arch: arch.to_owned(),
            layout: Layout::new(home),
            search_path: match search_path {
                Some(list) => Some(list.to_owned()),
                None => None,
            },
        }
    }

    /// A copy of this description.
    pub fn duplicate(&self) -> (copy: Host)
        ensures
            copy@ == self@,
    {
        Host {
            os: self.os.clone(),
            arch: self.arch.clone(),
            layout: Layout { home: self.layout.home.clone() },
            search_path: match &self.search_path {
                Some(list) => Some(list.clone()),
                None => None,
            },
        }
    }

    /// The platform of this machine, if it is a supported one.
    pub fn platform(&self) -> (result: Result<PlatformInfo, Failure>)
        ensures
            match result {
                Ok(platform) => platform_of(self@.os, self@.arch) == Ok::<
                    PlatformInfo,
                    FailureView,
                >(platform),
                Err(failure) => platform_of(self@.os, self@.arch) == Err::<
                    PlatformInfo,
                    FailureView,
                >(failure@),
            },
    {
        detect_platform(self.os.as_str(), self.arch.as_str())
    }

    /// Whether the install directory is on the executable search path. When
    /// it is not, the user has to add it before the tool can be run by name.
    pub fn install_dir_on_path(&self) -> (listed: bool)
        ensures
            listed == install_dir_listed(self@),
    {
        match &self.search_path {
            Some(list) => self.layout.on_path(Some(list.as_str())),
            None => false,
        }
    }
}

} // verus!
