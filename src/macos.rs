//! Installations on macOS: application bundles, identified by their bundle
//! metadata.

use vstd::prelude::*;

use crate::app::WolframApp;
use crate::app_type::{
    bundle_id_of, eq_ignore_ascii_case, first_matching_type, variant_order, WolframAppType,
};
use crate::error::Error;
use crate::paths::{join, path_join};
use crate::platform::{os_of, OperatingSystem, SystemID};
use crate::version::{app_version_of, AppVersion};

verus! {

/// What the bundle's main-executable URL gave.
#[derive(Debug, Clone, PartialEq, Eq)]
pub enum BundleExecutable {
    /// The bundle declares no main executable.
    Absent,
    /// The URL could not be turned into a file-system path.
    Unreadable,
    /// The executable's path.
    Path(String),
}

/// The metadata read from one application bundle.
#[derive(Debug, Clone, PartialEq, Eq)]
pub struct BundleInfo {
    /// Whether the bundle could be opened at all.
    pub opened: bool,
    /// The bundle directory, as a file-system path.
    pub directory: Option<String>,
    /// The declared bundle identifier.
    pub identifier: Option<String>,
    /// The bundle's main executable.
    pub executable: BundleExecutable,
    /// `CFBundleShortVersionString`.
    pub short_version: Option<String>,
    /// `CFBundleName`.
    pub name: Option<String>,
}

/// The product type of a bundle: the one the caller declared, else the one
/// whose bundle identifier matches up to ASCII case.
pub open spec fn bundle_type(info: BundleInfo, declared: Option<WolframAppType>) -> Option<WolframAppType> {
    match declared {
        Some(t) => if info.identifier is Some && info.identifier->Some_0@ == bundle_id_of(t) {
            Some(t)
        } else {
            None
        },
        None => if info.identifier is Some {
            first_matching_type(variant_order(), info.identifier->Some_0@)
        } else {
            None
        },
    }
}

/// The bundle describes an application: it opened, has a directory, a
/// recognised identifier, a readable executable entry, a version that
/// parses, and a name.
pub open spec fn bundle_is_app(info: BundleInfo, declared: Option<WolframAppType>) -> bool {
    &&& info.opened
    &&& info.identifier is Some
    &&& bundle_type(info, declared) is Some
    &&& info.directory is Some
    &&& !(info.executable is Unreadable)
    &&& info.short_version is Some
    &&& app_version_of(info.short_version->Some_0@) is Some
    &&& info.name is Some
}

/// The application a bundle describes, without its embedded player.
pub fn base_app_from_bundle(info: &BundleInfo, declared: Option<WolframAppType>, host: SystemID) -> (r: Result<WolframApp, Error>)
    ensures
        r is Ok <==> bundle_is_app(*info, declared),
        r is Ok ==> r->Ok_0.app_directory@ == info.directory->Some_0@
            && r->Ok_0.app_version == app_version_of(info.short_version->Some_0@)->Some_0
            && r->Ok_0.app_name@ == info.name->Some_0@
            && r->Ok_0.host == host
            && r->Ok_0.embedded_player is None
            && r->Ok_0.app_type == bundle_type(*info, declared)->Some_0
            && eq_ignore_ascii_case(bundle_id_of(r->Ok_0.app_type), info.identifier->Some_0@)
            && (declared is Some ==> r->Ok_0.app_type == declared->Some_0)
            && (r->Ok_0.app_executable is Some <==> info.executable is Path)
            && (info.executable is Path ==> r->Ok_0.app_executable->Some_0@
                == info.executable->Path_0@),
{
    if !info.opened {
        return Err(Error::other(String::from_str("invalid CFBundleRef pointer")));
    }
    let identifier = match &info.identifier {
        Some(id) => id,
        None => {
            return Err(Error::other(String::from_str("unable to read application bundle identifier")));
        },
    };
    let app_type = match declared {
        Some(t) => {
            if !crate::platform::str_eq(identifier.as_str(), t.bundle_id()) {
                let mut message = String::from_str(
                    "application bundle identifier does not match the declared application type: ",
                );
                message.append(identifier.as_str());
                return Err(Error::other(message));
            }
            proof {
                assert forall|i: int| 0 <= i < identifier@.len() implies crate::app_type::ascii_lower(
                    bundle_id_of(t)[i],
                ) == crate::app_type::ascii_lower(identifier@[i]) by {}
            }
            t
        },
        None => match WolframAppType::from_bundle_id(identifier.as_str()) {
            Some(t) => t,
            None => {
                let mut message = String::from_str(
                    "application bundle identifier is not a known Wolfram app: ",
                );
                message.append(identifier.as_str());
                return Err(Error::other(message));
            },
        },
    };
    let app_directory = match &info.directory {
        Some(d) => d.clone(),
        None => {
            return Err(
                Error::other(
                    String::from_str("unable to convert application CFURL to file system representation"),
                ),
            );
        },
    };
    let app_executable = match &info.executable {
        BundleExecutable::Absent => None,
        BundleExecutable::Path(p) => Some(p.clone()),
        BundleExecutable::Unreadable => {
            return Err(
                Error::other(
                    String::from_str(
                        "unable to convert application executable CFURL to file system representation",
                    ),
                ),
            );
        },
    };
    let app_version = match &info.short_version {
        Some(version) => match AppVersion::parse(version.as_str()) {
            Ok(v) => v,
            Err(err) => {
                let mut message = String::from_str("unable to parse application short version string: '");
                message.append(version.as_str());
                message.append("': ");
                let detail = err.message();
                message.append(detail.as_str());
                return Err(Error::other(message));
            },
        },
        None => {
            return Err(Error::other(String::from_str("unable to read application short version string")));
        },
    };
    let app_name = match &info.name {
        Some(n) => n.clone(),
        None => {
            return Err(Error::other(String::from_str("app is missing CFBundleName property")));
        },
    };
    Ok(WolframApp { app_name, app_type, app_version, app_directory, app_executable, embedded_player: None, host })
}

/// Where the Wolfram Player embedded in the Engine bundle at `app_dir` is.
pub fn embedded_player_path(app_dir: &str) -> (r: String)
    ensures
        r@ == path_join(path_join(path_join(app_dir@, "Contents"@), "Resources"@), "Wolfram Player.app"@),
{
    let a = join(app_dir, "Contents");
    let b = join(a.as_str(), "Resources");
    join(b.as_str(), "Wolfram Player.app")
}

/// A Wolfram Engine on macOS, whose system content is in an embedded
/// Wolfram Player.
pub open spec fn engine_on_mac(t: WolframAppType, host: SystemID) -> bool {
    t == WolframAppType::Engine && os_of(host) == OperatingSystem::MacOS
}

/// The bundle describes an application, and where it is an Engine on macOS,
/// `player` describes its embedded player.
pub open spec fn bundle_app_ok(
    info: BundleInfo,
    declared: Option<WolframAppType>,
    host: SystemID,
    player: Option<BundleInfo>,
) -> bool {
    &&& bundle_is_app(info, declared)
    &&& engine_on_mac(bundle_type(info, declared)->Some_0, host) ==> player is Some && bundle_is_app(
        player->Some_0,
        None,
    )
}

/// `app` is the application that the bundle `info` describes.
pub open spec fn bundle_app_matches(info: BundleInfo, declared: Option<WolframAppType>, host: SystemID, app: WolframApp) -> bool {
    &&& app.app_type == bundle_type(info, declared)->Some_0
    &&& app.app_version == app_version_of(info.short_version->Some_0@)->Some_0
    &&& app.app_directory@ == info.directory->Some_0@
    &&& app.app_name@ == info.name->Some_0@
    &&& (app.app_executable is Some <==> info.executable is Path)
    &&& (info.executable is Path ==> app.app_executable->Some_0@ == info.executable->Path_0@)
    &&& app.host == host
}

/// The application a bundle describes; for a Wolfram Engine on macOS,
/// `player` is the bundle read at [`embedded_player_path`], which must
/// describe an application too.
pub fn app_from_bundle(
    info: &BundleInfo,
    declared: Option<WolframAppType>,
    host: SystemID,
    player: Option<&BundleInfo>,
) -> (r: Result<WolframApp, Error>)
    ensures
        r is Ok <==> bundle_app_ok(
            *info,
            declared,
            host,
            match player {
                Some(p) => Some(*p),
                None => None,
            },
        ),
        r is Ok ==> bundle_app_matches(*info, declared, host, r->Ok_0),
        r is Ok && !engine_on_mac(r->Ok_0.app_type, host) ==> r->Ok_0.embedded_player is None,
        r is Ok && engine_on_mac(r->Ok_0.app_type, host) ==> r->Ok_0.embedded_player is Some
            && r->Ok_0.embedded_player->Some_0.app_directory@ == player->Some_0.directory->Some_0@
            && r->Ok_0.embedded_player->Some_0.host == host,
        r is Ok && os_of(host) != OperatingSystem::Other ==> r->Ok_0.wf(),
{
    let app = base_app_from_bundle(info, declared, host)?;
    if app.embedded_player_location().is_none() {
        return Ok(app);
    }
    let read = match player {
        Some(p) => base_app_from_bundle(p, None, host),
        None => Err(Error::other(String::from_str("no bundle at the embedded player location"))),
    };
    app.with_embedded_player(read)
}

/// One bundle that the bundle-lookup service returned for a product type,
/// with the bundle read at its embedded player location, if any.
#[derive(Debug, Clone, PartialEq, Eq)]
pub struct FoundBundle {
    pub app_type: WolframAppType,
    pub info: BundleInfo,
    pub player: Option<BundleInfo>,
}

/// The found bundles of `s` that describe applications, in order.
pub open spec fn kept_bundles(s: Seq<FoundBundle>, host: SystemID) -> Seq<FoundBundle>
    decreases s.len(),
{
    if s.len() == 0 {
        s
    } else if bundle_app_ok(s.last().info, Some(s.last().app_type), host, s.last().player) {
        kept_bundles(s.drop_last(), host).push(s.last())
    } else {
        kept_bundles(s.drop_last(), host)
    }
}

/// The applications among the bundles found for each product type, in
/// order; a bundle that does not describe an application is skipped.
pub fn discover_all(found: Vec<FoundBundle>, host: SystemID) -> (r: Vec<WolframApp>)
    ensures
        r@.len() == kept_bundles(found@, host).len(),
        forall|i: int|
            0 <= i < r@.len() ==> bundle_app_matches(
                (#[trigger] kept_bundles(found@, host)[i]).info,
                Some(kept_bundles(found@, host)[i].app_type),
                host,
                r@[i],
            ),
{
    let mut apps: Vec<WolframApp> = Vec::new();
    let mut i: usize = 0;
    while i < found.len()
        invariant
            i <= found@.len(),
            apps@.len() == kept_bundles(found@.take(i as int), host).len(),
            forall|k: int|
                0 <= k < apps@.len() ==> bundle_app_matches(
                    (#[trigger] kept_bundles(found@.take(i as int), host)[k]).info,
                    Some(kept_bundles(found@.take(i as int), host)[k].app_type),
                    host,
                    apps@[k],
                ),
        decreases found@.len() - i,
    {
        let ghost before = found@.take(i as int);
        let ghost after = found@.take(i + 1);
        assert(after.drop_last() =~= before);
        assert(after.last() == found@[i as int]);
        let ghost old_apps = apps@;
        let b = &found[i];
        let player = match &b.player {
            Some(p) => Some(p),
            None => None,
        };
        assert((match player {
            Some(p) => Some(*p),
            None => None,
        }) == b.player);
        match app_from_bundle(&b.info, Some(b.app_type), host, player) {
            Ok(app) => {
                apps.push(app);
                assert forall|k: int| 0 <= k < apps@.len() implies bundle_app_matches(
                    (#[trigger] kept_bundles(after, host)[k]).info,
                    Some(kept_bundles(after, host)[k].app_type),
                    host,
                    apps@[k],
                ) by {
                    if k < old_apps.len() {
                        assert(apps@[k] == old_apps[k]);
                    }
                }
            },
            Err(_) => {},
        }
        i = i + 1;
    }
    assert(found@.take(found@.len() as int) =~= found@);
    apps
}

} // verus!
