//! Reading one application from a directory, on each platform.

use vstd::prelude::*;

use crate::app::WolframApp;
use crate::error::Error;
use crate::linux::{app_info_of, InstallationFiles};
use crate::macos::BundleInfo;
use crate::paths::{is_dir, last_component, parent, path_last_component, path_parent};
use crate::platform::{os_of, OperatingSystem, SystemID};

verus! {

/// The platform metadata read from an application directory.
#[derive(Debug, Clone, PartialEq, Eq)]
pub enum AppSource {
    /// On Linux: the files that identify an installation.
    Files(InstallationFiles),
    /// On macOS: the bundle's metadata, and that of the bundle at the
    /// embedded player location, if there is one.
    Bundle { info: BundleInfo, player: Option<BundleInfo> },
    /// Nothing could be read on this platform.
    Unavailable,
}

/// The application directory of an installation directory on `os`: on
/// macOS the parent of a path ending in `Contents`; elsewhere the same path.
pub open spec fn app_dir_of_installation(location: Seq<char>, os: OperatingSystem) -> Option<Seq<char>> {
    match os {
        OperatingSystem::MacOS => if path_last_component(location) == Some("Contents"@) {
            path_parent(location)
        } else {
            None
        },
        _ => Some(location),
    }
}

impl WolframApp {
    /// The application directory of the installation directory `location`
    /// on the platform `host`.
    pub fn app_directory_of_installation(location: &str, host: SystemID) -> (r: Result<String, Error>)
        ensures
            r is Ok <==> app_dir_of_installation(location@, os_of(host)) is Some,
            r is Ok ==> r->Ok_0@ == app_dir_of_installation(location@, os_of(host))->Some_0,
            r is Err ==> r->Err_0.kind is Other,
    {
        let os = host.operating_system();
        match os {
            OperatingSystem::MacOS => {
                let is_contents = match last_component(location) {
                    Some(last) => crate::platform::str_eq(last.as_str(), "Contents"),
                    None => false,
                };
                proof {
                    reveal_strlit("Contents");
                }
                if !is_contents {
                    let mut message = String::from_str(
                        "expected last component of installation directory to be 'Contents': ",
                    );
                    message.append(location);
                    return Err(Error::other(message));
                }
                match parent(location) {
                    Some(dir) => Ok(dir),
                    None => {
                        let mut message = String::from_str("installation directory has no parent: ");
                        message.append(location);
                        Err(Error::other(message))
                    },
                }
            },
            _ => Ok(String::from_str(location)),
        }
    }

    /// Reads the application at the application directory `app_dir`, on the
    /// platform `host`, from the metadata `source` read there.
    ///
    /// A Wolfram Engine on macOS also takes its embedded Wolfram Player from
    /// `source`.
    pub fn from_app_directory(app_dir: String, host: SystemID, source: &AppSource) -> (r: Result<WolframApp, Error>)
        ensures
            os_of(host) == OperatingSystem::Windows || os_of(host) == OperatingSystem::Other ==> r is Err,
            r is Ok ==> r->Ok_0.host == host && r->Ok_0.wf(),
            r is Ok && os_of(host) == OperatingSystem::Linux ==> source is Files && app_info_of(source->Files_0)
                is Some && r->Ok_0.app_type == app_info_of(source->Files_0)->Some_0.0
                && r->Ok_0.app_version == app_info_of(source->Files_0)->Some_0.1
                && r->Ok_0.app_directory@ == app_dir@,
            r is Ok && os_of(host) == OperatingSystem::MacOS ==> source is Bundle
                && r->Ok_0.app_directory@ == source->Bundle_info.directory->Some_0@,
    {
        if !is_dir(app_dir.as_str()) {
            let mut message = String::from_str("specified application location is not a directory: ");
            message.append(app_dir.as_str());
            return Err(Error::other(message));
        }
        let os = host.operating_system();
        match (os, source) {
            (OperatingSystem::Linux, AppSource::Files(files)) => crate::linux::from_app_directory(
                app_dir,
                host,
                files,
            ),
            (OperatingSystem::MacOS, AppSource::Bundle { info, player }) => {
                let nested = match player {
                    Some(p) => Some(p),
                    None => None,
                };
                crate::macos::app_from_bundle(info, None, host, nested)
            },
            (OperatingSystem::Linux, _) | (OperatingSystem::MacOS, _) => {
                let mut message = String::from_str("no application metadata could be read at: ");
                message.append(app_dir.as_str());
                Err(Error::other(message))
            },
            _ => Err(Error::platform_unsupported("WolframApp::from_app_directory()", os)),
        }
    }

    /// Reads the application whose `$InstallationDirectory` is `location`, on
    /// the platform `host`, from the metadata `source` read at its
    /// application directory (see
    /// [`WolframApp::app_directory_of_installation`]): on macOS the bundle
    /// that holds `location`, elsewhere `location` itself.
    pub fn from_installation_directory(location: String, host: SystemID, source: &AppSource) -> (r: Result<WolframApp, Error>)
        ensures
            os_of(host) == OperatingSystem::Windows || os_of(host) == OperatingSystem::Other ==> r is Err,
            r is Ok ==> r->Ok_0.host == host && r->Ok_0.wf(),
            r is Ok && os_of(host) == OperatingSystem::Linux ==> source is Files && app_info_of(source->Files_0)
                is Some && r->Ok_0.app_type == app_info_of(source->Files_0)->Some_0.0
                && r->Ok_0.app_version == app_info_of(source->Files_0)->Some_0.1
                && r->Ok_0.app_directory@ == location@,
            r is Ok && os_of(host) == OperatingSystem::MacOS ==> path_last_component(location@) == Some(
                "Contents"@,
            ) && source is Bundle && r->Ok_0.app_directory@ == source->Bundle_info.directory->Some_0@,
    {
        if !is_dir(location.as_str()) {
            let mut message = String::from_str("invalid Wolfram app location: not a directory: ");
            message.append(location.as_str());
            return Err(Error::other(message));
        }
        let app_dir = WolframApp::app_directory_of_installation(location.as_str(), host)?;
        WolframApp::from_app_directory(app_dir, host, source)
    }
}

} // verus!
