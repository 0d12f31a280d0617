//! A discovered Wolfram application, its derived resource locations, and the
//! filter and ranking applied to discovered applications.

use vstd::prelude::*;

use crate::app_type::{usefulness, WolframAppType};
use crate::error::{Error, FilterError};
use crate::paths::{is_dir, is_file, join, path_join};
use crate::platform::{os_of, system_id_text, OperatingSystem, SystemID};
use crate::paths::path_file_name;
use crate::sdk::{
    compiler_additions_of, header_of, is_target_kit, sdk_of_entry, select_sdk, static_library_of, WstpSdk,
};
use crate::version::{version_lt, AppVersion, WolframVersion};

verus! {

/// A local installation of the Wolfram System.
#[derive(Debug, Clone)]
pub struct WolframApp {
    pub app_name: String,
    pub app_type: WolframAppType,
    pub app_version: AppVersion,
    /// The application directory.
    pub app_directory: String,
    /// The application's main executable, where it is known.
    pub app_executable: Option<String>,
    /// For a Wolfram Engine whose system content lives in an embedded Wolfram
    /// Player, that player.
    pub embedded_player: Option<Box<EmbeddedPlayer>>,
    /// The platform identifier of the machine the application was found on;
    /// it decides the layout conventions that apply.
    pub host: SystemID,
}

/// The Wolfram Player application embedded in a Wolfram Engine.
#[derive(Debug, Clone)]
pub struct EmbeddedPlayer {
    pub app_name: String,
    pub app_type: WolframAppType,
    pub app_version: AppVersion,
    pub app_directory: String,
    pub app_executable: Option<String>,
    pub host: SystemID,
}

/// Which product types a search accepts.
#[derive(Debug, Clone)]
pub struct Filter {
    /// The accepted product types; `None` accepts every type.
    pub app_types: Option<Vec<WolframAppType>>,
}

/// `filter` accepts product type `t`.
pub open spec fn allows(filter: Filter, t: WolframAppType) -> bool {
    match filter.app_types {
        None => true,
        Some(v) => v@.contains(t),
    }
}

/// The directory an application keeps its system content in, on `os`,
/// given its application directory.
pub open spec fn installation_dir_for(app_dir: Seq<char>, os: OperatingSystem) -> Seq<char> {
    match os {
        OperatingSystem::MacOS => path_join(app_dir, "Contents"@),
        _ => app_dir,
    }
}

/// The installation directory of `app` itself, not looking at any embedded
/// player.
pub open spec fn own_installation_dir(app: WolframApp) -> Seq<char> {
    installation_dir_for(app.app_directory@, os_of(app.host))
}

/// The installation directory of `app`: that of its embedded player where it
/// has one.
pub open spec fn installation_dir_of(app: WolframApp) -> Seq<char> {
    match app.embedded_player {
        Some(p) => installation_dir_for(p.app_directory@, os_of(p.host)),
        None => own_installation_dir(app),
    }
}

/// The Wolfram Language version an application provides: its major, minor
/// and revision numbers, where the major number is not zero.
pub open spec fn wolfram_version_of(app: WolframApp) -> Option<WolframVersion> {
    if app.app_version.major == 0 {
        None
    } else {
        Some(
            WolframVersion {
                major: app.app_version.major,
                minor: app.app_version.minor,
                patch: app.app_version.revision,
            },
        )
    }
}

/// `a` ranks strictly above `b`: a newer language version (a missing version
/// ranking lowest), or the same version and a more useful product type.
pub open spec fn better(a: WolframApp, b: WolframApp) -> bool {
    match (wolfram_version_of(a), wolfram_version_of(b)) {
        (Some(va), Some(vb)) => version_lt(vb, va) || (va == vb && usefulness(b.app_type)
            < usefulness(a.app_type)),
        (Some(_), None) => true,
        (None, Some(_)) => false,
        (None, None) => usefulness(b.app_type) < usefulness(a.app_type),
    }
}

/// The comparison [`WolframApp::best_order`] makes.
pub open spec fn best_cmp(a: WolframApp, b: WolframApp) -> core::cmp::Ordering {
    if better(a, b) {
        core::cmp::Ordering::Greater
    } else if better(b, a) {
        core::cmp::Ordering::Less
    } else {
        core::cmp::Ordering::Equal
    }
}

/// Ranking is a strict weak order: irreflexive, and "not below" is
/// transitive through a strictly better element.
pub proof fn lemma_better_order(a: WolframApp, b: WolframApp, c: WolframApp)
    ensures
        !better(a, a),
        better(a, b) ==> !better(b, a),
        better(a, b) && !better(c, b) ==> better(a, c),
        !better(b, a) && !better(c, b) ==> !better(c, a),
        better(a, b) && better(b, c) ==> better(a, c),
{
}

/// Of two applications with Wolfram Language versions, the one with the
/// newer version ranks higher; of two with the same version, the one with
/// the more useful product type.
pub proof fn lemma_better_by_version_then_type(a: WolframApp, b: WolframApp)
    requires
        a.app_version.major != 0,
        b.app_version.major != 0,
    ensures
        version_lt(wolfram_version_of(b)->Some_0, wolfram_version_of(a)->Some_0) ==> better(a, b),
        wolfram_version_of(a) == wolfram_version_of(b) && usefulness(b.app_type) < usefulness(
            a.app_type,
        ) ==> better(a, b),
{
}

/// The relative path of the `wolframscript` executable under an
/// installation directory, on the platform `host`.
pub open spec fn wolframscript_relative_for(host: SystemID) -> Seq<char> {
    match os_of(host) {
        OperatingSystem::MacOS => path_join("MacOS"@, "wolframscript"@),
        OperatingSystem::Windows => "wolframscript.exe"@,
        _ => path_join(
            path_join(path_join(path_join("SystemFiles"@, "Kernel"@), "Binaries"@), system_id_text(host)),
            "wolframscript"@,
        ),
    }
}

/// Where the `WolframKernel` executable of `app` is expected.
pub open spec fn kernel_location(app: WolframApp) -> Seq<char> {
    let inst = installation_dir_of(app);
    match os_of(app.host) {
        OperatingSystem::MacOS => path_join(path_join(inst, "MacOS"@), "WolframKernel"@),
        OperatingSystem::Windows => path_join(inst, "WolframKernel.exe"@),
        _ => path_join(path_join(inst, "Executables"@), "WolframKernel"@),
    }
}

/// Where the `wolframscript` executable of `app` is expected.
pub open spec fn wolframscript_location(app: WolframApp) -> Seq<char> {
    match app.embedded_player {
        Some(p) => path_join(
            installation_dir_for(p.app_directory@, os_of(p.host)),
            wolframscript_relative_for(p.host),
        ),
        None => path_join(own_installation_dir(app), wolframscript_relative_for(app.host)),
    }
}

/// The LibraryLink C header directory of `app`'s installation directory.
pub open spec fn includes_location(app: WolframApp) -> Seq<char> {
    path_join(path_join(path_join(installation_dir_of(app), "SystemFiles"@), "IncludeFiles"@), "C"@)
}

/// The directory that holds one WSTP developer kit per platform.
pub open spec fn developer_kit_location(app: WolframApp) -> Seq<char> {
    path_join(
        path_join(path_join(path_join(installation_dir_of(app), "SystemFiles"@), "Links"@), "WSTP"@),
        "DeveloperKit"@,
    )
}

/// Where an Engine's embedded Wolfram Player lives, on the platforms where
/// it has one.
pub open spec fn embedded_player_location_of(app: WolframApp) -> Option<Seq<char>> {
    if app.app_type == WolframAppType::Engine && os_of(app.host) == OperatingSystem::MacOS {
        Some(path_join(path_join(path_join(app.app_directory@, "Contents"@), "Resources"@), "Wolfram Player.app"@))
    } else {
        None
    }
}

/// The application's host, and its embedded player's, have layout
/// conventions this library knows.
pub open spec fn hosts_known(app: WolframApp) -> bool {
    &&& os_of(app.host) != OperatingSystem::Other
    &&& match app.embedded_player {
        Some(p) => os_of(p.host) != OperatingSystem::Other,
        None => true,
    }
}

/// `e` reports that `resource` is missing from `app` at `path`.
pub open spec fn is_layout_error(e: Error, app: WolframApp, resource: Seq<char>, path: Seq<char>) -> bool {
    &&& e.kind is UnexpectedAppLayout
    &&& e.kind->UnexpectedAppLayout_resource_name@ == resource
    &&& e.kind->UnexpectedAppLayout_app_installation_dir@ == installation_dir_of(app)
    &&& e.kind->UnexpectedAppLayout_path@ == path
}

fn installation_directory_for(app_dir: &String, host: SystemID) -> (r: String)
    ensures
        r@ == installation_dir_for(app_dir@, os_of(host)),
{
    match host.operating_system() {
        OperatingSystem::MacOS => join(app_dir.as_str(), "Contents"),
        _ => app_dir.clone(),
    }
}

fn wolframscript_path_for(app_dir: &String, host: SystemID) -> (r: String)
    ensures
        r@ == path_join(installation_dir_for(app_dir@, os_of(host)), wolframscript_relative_for(host)),
{
    let relative = match host.operating_system() {
        OperatingSystem::MacOS => join("MacOS", "wolframscript"),
        OperatingSystem::Windows => String::from_str("wolframscript.exe"),
        _ => {
            let a = join("SystemFiles", "Kernel");
            let b = join(a.as_str(), "Binaries");
            let c = join(b.as_str(), host.as_str());
            join(c.as_str(), "wolframscript")
        },
    };
    let inst = installation_directory_for(app_dir, host);
    join(inst.as_str(), relative.as_str())
}

impl EmbeddedPlayer {
    /// The embedded player described by `app`'s own fields.
    pub open spec fn of(app: WolframApp) -> EmbeddedPlayer {
        EmbeddedPlayer {
            app_name: app.app_name,
            app_type: app.app_type,
            app_version: app.app_version,
            app_directory: app.app_directory,
            app_executable: app.app_executable,
            host: app.host,
        }
    }
}

impl WolframApp {
    /// Whether this library knows the layout conventions of the application's
    /// host, and of its embedded player's.
    pub fn layout_known(&self) -> (r: bool)
        ensures
            r == hosts_known(*self),
    {
        let own = match self.host.operating_system() {
            OperatingSystem::Other => false,
            _ => true,
        };
        let player = match &self.embedded_player {
            Some(p) => match p.host.operating_system() {
                OperatingSystem::Other => false,
                _ => true,
            },
            None => true,
        };
        own && player
    }

    /// Well-formedness: the host has known layout conventions, and only an
    /// Engine embeds a player, which itself embeds nothing.
    pub open spec fn wf(&self) -> bool {
        &&& os_of(self.host) != OperatingSystem::Other
        &&& match self.embedded_player {
            Some(p) => self.app_type == WolframAppType::Engine && os_of(p.host)
                != OperatingSystem::Other,
            None => true,
        }
    }

    /// The product type of this application.
    pub fn app_type(&self) -> (r: WolframAppType)
        ensures
            r == self.app_type,
    {
        self.app_type
    }

    /// The application version.
    pub fn app_version(&self) -> (r: &AppVersion)
        ensures
            *r == self.app_version,
    {
        &self.app_version
    }

    /// The application directory.
    pub fn app_directory(&self) -> (r: String)
        ensures
            r@ == self.app_directory@,
    {
        self.app_directory.clone()
    }

    /// The application's main executable, where it is known.
    pub fn app_executable(&self) -> (r: Option<String>)
        ensures
            r is Some <==> self.app_executable is Some,
            r is Some ==> r->Some_0@ == self.app_executable->Some_0@,
    {
        match &self.app_executable {
            Some(p) => Some(p.clone()),
            None => None,
        }
    }

    /// The version of the Wolfram Language bundled with this application:
    /// the major, minor and revision numbers of the application version.
    pub fn wolfram_version(&self) -> (r: Result<WolframVersion, Error>)
        ensures
            r is Ok <==> wolfram_version_of(*self) is Some,
            r is Ok ==> r->Ok_0 == wolfram_version_of(*self)->Some_0,
            r is Err ==> r->Err_0.kind is Other,
    {
        if self.app_version.major == 0 {
            let mut message = String::from_str("wolfram app has invalid application version (at: ");
            message.append(self.app_directory.as_str());
            message.append(")");
            return Err(Error::other(message));
        }
        Ok(
            WolframVersion {
                major: self.app_version.major,
                minor: self.app_version.minor,
                patch: self.app_version.revision,
            },
        )
    }


    /// The `$InstallationDirectory` of this installation: that of the
    /// embedded player where there is one.
    pub fn installation_directory(&self) -> (r: String)
        requires
            hosts_known(*self),
        ensures
            r@ == installation_dir_of(*self),
    {
        match &self.embedded_player {
            Some(p) => installation_directory_for(&p.app_directory, p.host),
            None => installation_directory_for(&self.app_directory, self.host),
        }
    }

    /// The `WolframKernel` executable.
    pub fn kernel_executable_path(&self) -> (r: Result<String, Error>)
        ensures
            r is Ok ==> r->Ok_0@ == kernel_location(*self),
            !hosts_known(*self) ==> r is Err && r->Err_0.kind is UnsupportedPlatform,
            r is Err && hosts_known(*self) ==> is_layout_error(
                r->Err_0,
                *self,
                "WolframKernel executable"@,
                kernel_location(*self),
            ),
    {
        if !self.layout_known() {
            return Err(Error::platform_unsupported("kernel_executable_path()", OperatingSystem::Other));
        }
        let inst = self.installation_directory();
        let path = match self.host.operating_system() {
            OperatingSystem::MacOS => {
                let macos = join(inst.as_str(), "MacOS");
                join(macos.as_str(), "WolframKernel")
            },
            OperatingSystem::Windows => join(inst.as_str(), "WolframKernel.exe"),
            _ => {
                let executables = join(inst.as_str(), "Executables");
                join(executables.as_str(), "WolframKernel")
            },
        };
        if !is_file(path.as_str()) {
            proof {
                reveal_strlit("WolframKernel executable");
            }
            return Err(Error::unexpected_app_layout("WolframKernel executable", inst, path));
        }
        Ok(path)
    }


    /// The `wolframscript` executable.
    pub fn wolframscript_executable_path(&self) -> (r: Result<String, Error>)
        ensures
            r is Ok ==> r->Ok_0@ == wolframscript_location(*self),
            !hosts_known(*self) ==> r is Err && r->Err_0.kind is UnsupportedPlatform,
            r is Err && hosts_known(*self) ==> is_layout_error(
                r->Err_0,
                *self,
                "wolframscript executable"@,
                wolframscript_location(*self),
            ),
    {
        if !self.layout_known() {
            return Err(Error::platform_unsupported("wolframscript_executable_path()", OperatingSystem::Other));
        }
        let path = match &self.embedded_player {
            Some(p) => wolframscript_path_for(&p.app_directory, p.host),
            None => wolframscript_path_for(&self.app_directory, self.host),
        };
        if !is_file(path.as_str()) {
            proof {
                reveal_strlit("wolframscript executable");
            }
            let inst = self.installation_directory();
            return Err(Error::unexpected_app_layout("wolframscript executable", inst, path));
        }
        Ok(path)
    }

    /// The directory of the Wolfram LibraryLink C header files.
    pub fn library_link_c_includes_directory(&self) -> (r: Result<String, Error>)
        ensures
            r is Ok ==> r->Ok_0@ == includes_location(*self),
            !hosts_known(*self) ==> r is Err && r->Err_0.kind is UnsupportedPlatform,
            r is Err && hosts_known(*self) ==> is_layout_error(
                r->Err_0,
                *self,
                "LibraryLink C header includes directory"@,
                includes_location(*self),
            ),
    {
        if !self.layout_known() {
            return Err(Error::platform_unsupported("library_link_c_includes_directory()", OperatingSystem::Other));
        }
        let inst = self.installation_directory();
        let a = join(inst.as_str(), "SystemFiles");
        let b = join(a.as_str(), "IncludeFiles");
        let path = join(b.as_str(), "C");
        if !is_dir(path.as_str()) {
            proof {
                reveal_strlit("LibraryLink C header includes directory");
            }
            return Err(
                Error::unexpected_app_layout("LibraryLink C header includes directory", inst, path),
            );
        }
        Ok(path)
    }

    /// The directory that holds one WSTP developer kit per platform; its
    /// entries are what [`WolframApp::wstp_sdks`] reads.
    pub fn wstp_developer_kit_directory(&self) -> (r: String)
        requires
            hosts_known(*self),
        ensures
            r@ == developer_kit_location(*self),
    {
        let inst = self.installation_directory();
        let a = join(inst.as_str(), "SystemFiles");
        let b = join(a.as_str(), "Links");
        let c = join(b.as_str(), "WSTP");
        join(c.as_str(), "DeveloperKit")
    }

    /// The WSTP developer kits of this application, one per entry of its
    /// developer kit directory; `entries` are the paths of those entries.
    pub fn wstp_sdks(&self, entries: Vec<String>) -> (r: Result<Vec<Result<WstpSdk, Error>>, Error>)
        ensures
            !hosts_known(*self) ==> r is Err && r->Err_0.kind is UnsupportedPlatform,
            r is Err && hosts_known(*self) ==> is_layout_error(
                r->Err_0,
                *self,
                "WSTP DeveloperKit directory"@,
                developer_kit_location(*self),
            ),
            r is Ok ==> hosts_known(*self) && r->Ok_0@.len() == entries@.len(),
            r is Ok ==> forall|i: int|
                0 <= i < entries@.len() && (#[trigger] r->Ok_0@[i]) is Ok ==> sdk_of_entry(
                    r->Ok_0@[i]->Ok_0,
                    entries@[i]@,
                ),
    {
        if !self.layout_known() {
            return Err(Error::platform_unsupported("wstp_sdks()", OperatingSystem::Other));
        }
        let root = self.wstp_developer_kit_directory();
        if !is_dir(root.as_str()) {
            proof {
                reveal_strlit("WSTP DeveloperKit directory");
            }
            let inst = self.installation_directory();
            return Err(Error::unexpected_app_layout("WSTP DeveloperKit directory", inst, root));
        }
        let mut sdks: Vec<Result<WstpSdk, Error>> = Vec::new();
        let mut i: usize = 0;
        while i < entries.len()
            invariant
                i <= entries@.len(),
                sdks@.len() == i,
                forall|j: int|
                    0 <= j < i && (#[trigger] sdks@[j]) is Ok ==> sdk_of_entry(sdks@[j]->Ok_0, entries@[j]@),
            decreases entries@.len() - i,
        {
            let sdk = WstpSdk::try_from_directory(entries[i].clone());
            sdks.push(sdk);
            i = i + 1;
        }
        Ok(sdks)
    }

    /// The WSTP developer kit for the platform `target`: the first entry of
    /// the developer kit directory that is a complete kit for it.
    pub fn target_wstp_sdk(&self, entries: Vec<String>, target: SystemID) -> (r: Result<WstpSdk, Error>)
        ensures
            r is Ok ==> r->Ok_0.system_id == target && hosts_known(*self),
            r is Ok ==> exists|i: int| 0 <= i < entries@.len() && sdk_of_entry(r->Ok_0, #[trigger] entries@[i]@),
            r is Err ==> r->Err_0.kind is Other || r->Err_0.kind is UnsupportedPlatform || is_layout_error(
                r->Err_0,
                *self,
                "WSTP DeveloperKit directory"@,
                developer_kit_location(*self),
            ),
    {
        let ghost all_entries = entries@;
        let sdks = self.wstp_sdks(entries)?;
        let ghost all = sdks@;
        let r = select_sdk(sdks, target);
        proof {
            if r is Ok {
                let i = choose|i: int|
                    0 <= i < all.len() && #[trigger] all[i] == Ok::<WstpSdk, Error>(r->Ok_0) && r->Ok_0.system_id
                        == target && forall|j: int| 0 <= j < i ==> !is_target_kit(#[trigger] all[j], target);
                assert(sdk_of_entry(r->Ok_0, all_entries[i]@));
            }
        }
        r
    }

    /// The `wstp.h` header of the developer kit for `target`.
    pub fn wstp_c_header_path(&self, entries: Vec<String>, target: SystemID) -> (r: Result<String, Error>)
        ensures
            r is Ok ==> exists|i: int|
                0 <= i < entries@.len() && path_file_name(#[trigger] entries@[i]@) == Some(system_id_text(target))
                    && r->Ok_0@ == header_of(entries@[i]@),
            r is Err ==> r->Err_0.kind is Other || r->Err_0.kind is UnsupportedPlatform || is_layout_error(
                r->Err_0,
                *self,
                "WSTP DeveloperKit directory"@,
                developer_kit_location(*self),
            ),
    {
        let sdk = self.target_wstp_sdk(entries, target)?;
        Ok(sdk.wstp_c_header_path())
    }

    /// The WSTP static library of the developer kit for `target`.
    pub fn wstp_static_library_path(&self, entries: Vec<String>, target: SystemID) -> (r: Result<String, Error>)
        ensures
            r is Ok ==> exists|i: int|
                0 <= i < entries@.len() && path_file_name(#[trigger] entries@[i]@) == Some(system_id_text(target))
                    && r->Ok_0@ == static_library_of(entries@[i]@, os_of(target)),
            r is Err ==> r->Err_0.kind is Other || r->Err_0.kind is UnsupportedPlatform || is_layout_error(
                r->Err_0,
                *self,
                "WSTP DeveloperKit directory"@,
                developer_kit_location(*self),
            ),
    {
        let sdk = self.target_wstp_sdk(entries, target)?;
        Ok(sdk.wstp_static_library_path())
    }

    /// The `CompilerAdditions` directory of the developer kit for `target`.
    pub fn wstp_compiler_additions_directory(&self, entries: Vec<String>, target: SystemID) -> (r: Result<String, Error>)
        ensures
            r is Ok ==> exists|i: int|
                0 <= i < entries@.len() && path_file_name(#[trigger] entries@[i]@) == Some(system_id_text(target))
                    && r->Ok_0@ == compiler_additions_of(entries@[i]@),
            r is Err ==> r->Err_0.kind is Other || is_layout_error(
                r->Err_0,
                *self,
                "WSTP CompilerAdditions directory"@,
                r->Err_0.kind->UnexpectedAppLayout_path@,
            ) || r->Err_0.kind is Other || r->Err_0.kind is UnsupportedPlatform || is_layout_error(
                r->Err_0,
                *self,
                "WSTP DeveloperKit directory"@,
                developer_kit_location(*self),
            ),
    {
        let sdk = self.target_wstp_sdk(entries, target)?;
        let path = sdk.wstp_compiler_additions_directory();
        if !is_dir(path.as_str()) {
            let inst = self.installation_directory();
            proof {
                reveal_strlit("WSTP CompilerAdditions directory");
            }
            return Err(Error::unexpected_app_layout("WSTP CompilerAdditions directory", inst, path));
        }
        Ok(path)
    }

    /// Orders two applications by which is "best": by Wolfram Language
    /// version, then by the usefulness of the product type.
    pub fn best_order(a: &WolframApp, b: &WolframApp) -> (r: core::cmp::Ordering)
        ensures
            r == best_cmp(*a, *b),
    {
        let va = a.wolfram_version();
        let vb = b.wolfram_version();
        let version_order = match (&va, &vb) {
            (Ok(x), Ok(y)) => crate::version::compare_versions(x, y),
            (Ok(_), Err(_)) => core::cmp::Ordering::Greater,
            (Err(_), Ok(_)) => core::cmp::Ordering::Less,
            (Err(_), Err(_)) => core::cmp::Ordering::Equal,
        };
        match version_order {
            core::cmp::Ordering::Equal => {},
            other => {
                return other;
            },
        }
        let ta = a.app_type.ordering_value();
        let tb = b.app_type.ordering_value();
        if ta < tb {
            core::cmp::Ordering::Less
        } else if ta > tb {
            core::cmp::Ordering::Greater
        } else {
            core::cmp::Ordering::Equal
        }
    }

    /// Where this application's embedded Wolfram Player is to be read from:
    /// `Some` only for a Wolfram Engine on macOS.
    pub fn embedded_player_location(&self) -> (r: Option<String>)
        ensures
            r is Some <==> embedded_player_location_of(*self) is Some,
            r is Some ==> r->Some_0@ == embedded_player_location_of(*self)->Some_0,
    {
        if self.app_type == WolframAppType::Engine && self.host.operating_system() == OperatingSystem::MacOS {
            let a = join(self.app_directory.as_str(), "Contents");
            let b = join(a.as_str(), "Resources");
            Some(join(b.as_str(), "Wolfram Player.app"))
        } else {
            None
        }
    }

    /// Attaches the embedded player read from
    /// [`WolframApp::embedded_player_location`]; a player that could not be
    /// read makes the whole application unusable.
    pub fn with_embedded_player(self, player: Result<WolframApp, Error>) -> (r: Result<WolframApp, Error>)
        ensures
            player is Err ==> r is Err && r->Err_0.kind is Other,
            player is Ok ==> r is Ok && r->Ok_0 == (WolframApp {
                embedded_player: Some(Box::new(EmbeddedPlayer::of(player->Ok_0))),
                ..self
            }),
    {
        match player {
            Ok(p) => {
                let mut app = self;
                let embedded = EmbeddedPlayer {
                    app_name: p.app_name,
                    app_type: p.app_type,
                    app_version: p.app_version,
                    app_directory: p.app_directory,
                    app_executable: p.app_executable,
                    host: p.host,
                };
                app.embedded_player = Some(Box::new(embedded));
                Ok(app)
            },
            Err(err) => {
                let mut message = String::from_str(
                    "Wolfram Engine application does not contain Wolfram Player.app in the expected location: ",
                );
                let detail = err.message();
                message.append(detail.as_str());
                Err(Error::other(message))
            },
        }
    }
}

/// `v` holds `t`.
fn contains_type(v: &Vec<WolframAppType>, t: WolframAppType) -> (r: bool)
    ensures
        r == v@.contains(t),
{
    let mut i: usize = 0;
    while i < v.len()
        invariant
            i <= v@.len(),
            forall|j: int| 0 <= j < i ==> v@[j] != t,
        decreases v@.len() - i,
    {
        if v[i] == t {
            return true;
        }
        i = i + 1;
    }
    false
}

/// A copy of `v`.
fn copy_types(v: &Vec<WolframAppType>) -> (r: Vec<WolframAppType>)
    ensures
        r@ == v@,
{
    let mut r: Vec<WolframAppType> = Vec::new();
    let mut i: usize = 0;
    while i < v.len()
        invariant
            i <= v@.len(),
            r@ == v@.take(i as int),
        decreases v@.len() - i,
    {
        r.push(v[i]);
        i = i + 1;
        assert(r@ =~= v@.take(i as int));
    }
    assert(v@.take(i as int) =~= v@);
    r
}

impl Filter {
    /// The filter that accepts every product type.
    pub fn allow_all() -> (r: Filter)
        ensures
            r.app_types is None,
            forall|t: WolframAppType| allows(r, t),
    {
        Filter { app_types: None }
    }

    /// Whether `app` passes this filter.
    pub fn check_app(&self, app: &WolframApp) -> (r: Result<(), FilterError>)
        ensures
            r is Ok <==> allows(*self, app.app_type),
            r is Err ==> r->Err_0->FilterDoesNotMatchAppType_app_type == app.app_type
                && r->Err_0->FilterDoesNotMatchAppType_allowed@ == self.app_types->Some_0@,
    {
        match &self.app_types {
            Some(types) => {
                if !contains_type(types, app.app_type) {
                    return Err(
                        FilterError::FilterDoesNotMatchAppType {
                            app_type: app.app_type,
                            allowed: copy_types(types),
                        },
                    );
                }
                Ok(())
            },
            None => Ok(()),
        }
    }
}

} // verus!
