//! A local copy of the WSTP developer kit for one platform.

use vstd::prelude::*;

use crate::error::Error;
use crate::paths::{file_name, is_dir, is_file, join, path_file_name, path_join};
use crate::platform::{os_of, system_id_text, OperatingSystem, SystemID};

verus! {

/// A local copy of the WSTP developer kit for a particular [`SystemID`].
#[derive(Debug, Clone)]
pub struct WstpSdk {
    pub system_id: SystemID,
    /// E.g. `$InstallationDirectory/SystemFiles/Links/WSTP/DeveloperKit/MacOSX-x86-64/`
    pub sdk_dir: String,
    pub compiler_additions: String,
    pub wstp_h: String,
    pub wstp_static_library: String,
}

/// The file name of the WSTP static library on `os`, where WSTP has one.
pub open spec fn static_library_name(os: OperatingSystem) -> Option<Seq<char>> {
    match os {
        OperatingSystem::MacOS => Some("libWSTPi4.a"@),
        OperatingSystem::Windows => Some("wstp64i4s.lib"@),
        OperatingSystem::Linux => Some("libWSTP64i4.a"@),
        OperatingSystem::Other => None,
    }
}

/// The `CompilerAdditions` directory of the kit at `dir`.
pub open spec fn compiler_additions_of(dir: Seq<char>) -> Seq<char> {
    path_join(dir, "CompilerAdditions"@)
}

/// The header file of the kit at `dir`.
pub open spec fn header_of(dir: Seq<char>) -> Seq<char> {
    path_join(compiler_additions_of(dir), "wstp.h"@)
}

/// The static library of the kit at `dir` for a platform of `os`.
pub open spec fn static_library_of(dir: Seq<char>, os: OperatingSystem) -> Seq<char> {
    path_join(compiler_additions_of(dir), static_library_name(os)->Some_0)
}

/// `sdk` is the complete kit read from the directory `entry`, whose last
/// component names its platform.
pub open spec fn sdk_of_entry(sdk: WstpSdk, entry: Seq<char>) -> bool {
    &&& sdk.sdk_dir@ == entry
    &&& path_file_name(entry) == Some(system_id_text(sdk.system_id))
    &&& sdk.compiler_additions@ == compiler_additions_of(entry)
    &&& sdk.wstp_h@ == header_of(entry)
    &&& static_library_name(os_of(sdk.system_id)) is Some
    &&& sdk.wstp_static_library@ == static_library_of(entry, os_of(sdk.system_id))
}

/// `x` is a complete kit for the platform `target`.
pub open spec fn is_target_kit(x: Result<WstpSdk, Error>, target: SystemID) -> bool {
    x is Ok && x->Ok_0.system_id == target
}

/// Picks the first complete kit for `target` among `sdks`.
pub fn select_sdk(sdks: Vec<Result<WstpSdk, Error>>, target: SystemID) -> (r: Result<WstpSdk, Error>)
    ensures
        r is Ok <==> exists|i: int| 0 <= i < sdks@.len() && is_target_kit(#[trigger] sdks@[i], target),
        r is Ok ==> exists|i: int|
            0 <= i < sdks@.len() && #[trigger] sdks@[i] == Ok::<WstpSdk, Error>(r->Ok_0) && r->Ok_0.system_id
                == target && forall|j: int| 0 <= j < i ==> !is_target_kit(#[trigger] sdks@[j], target),
        r is Err ==> r->Err_0.kind is Other,
{
    let ghost all = sdks@;
    let mut rest = sdks;
    let total = rest.len();
    let mut i: usize = 0;
    while rest.len() > 0
        invariant
            all == sdks@,
            total == all.len(),
            i + rest@.len() == all.len(),
            rest@ == all.subrange(i as int, all.len() as int),
            forall|j: int| 0 <= j < i ==> !is_target_kit(#[trigger] all[j], target),
        decreases rest@.len(),
    {
        let item = rest.remove(0);
        assert(item == all[i as int]);
        match item {
            Ok(sdk) => {
                if sdk.system_id == target {
                    assert(is_target_kit(all[i as int], target));
                    assert(all[i as int] == Ok::<WstpSdk, Error>(sdk));
                    return Ok(sdk);
                }
            },
            Err(_) => {},
        }
        i = i + 1;
        assert(rest@ =~= all.subrange(i as int, all.len() as int));
    }
    assert(i == all.len());
    Err(Error::other(String::from_str("unable to locate WSTP SDK for current target")))
}

/// The WSTP static library file name for `os`.
pub fn wstp_static_library_file_name(os: OperatingSystem) -> (r: Result<&'static str, Error>)
    ensures
        r is Ok <==> static_library_name(os) is Some,
        r is Ok ==> r->Ok_0@ == static_library_name(os)->Some_0,
        r is Err ==> r->Err_0.kind is UnsupportedPlatform,
{
    match os {
        OperatingSystem::MacOS => Ok("libWSTPi4.a"),
        OperatingSystem::Windows => Ok("wstp64i4s.lib"),
        OperatingSystem::Linux => Ok("libWSTP64i4.a"),
        OperatingSystem::Other => Err(
            Error::platform_unsupported("wstp_static_library_file_name()", os),
        ),
    }
}

impl WstpSdk {
    /// The kit at `dir` for `system_id`, given what is on disk: whether `dir`
    /// is a directory, whether the header is a file, and whether the static
    /// library is a file.
    ///
    /// The static library's name follows the operating system of
    /// `system_id`, not that of the running program, since one installation
    /// can hold kits for several platforms.
    pub fn from_layout(
        dir: String,
        system_id: SystemID,
        dir_present: bool,
        header_present: bool,
        library_present: bool,
    ) -> (r: Result<WstpSdk, Error>)
        ensures
            !dir_present ==> r is Err && r->Err_0.kind is Other,
            dir_present && !header_present ==> r is Err && r->Err_0.kind is UnexpectedLayout
                && r->Err_0.kind->UnexpectedLayout_resource_name@ == "wstp.h C header file"@
                && r->Err_0.kind->UnexpectedLayout_dir@ == dir@
                && r->Err_0.kind->UnexpectedLayout_path@ == header_of(dir@),
            dir_present && header_present && static_library_name(os_of(system_id)) is None ==> r is Err
                && r->Err_0.kind is UnsupportedPlatform,
            dir_present && header_present && static_library_name(os_of(system_id)) is Some
                && !library_present ==> r is Err && r->Err_0.kind is UnexpectedLayout
                && r->Err_0.kind->UnexpectedLayout_resource_name@ == "WSTP static library file"@
                && r->Err_0.kind->UnexpectedLayout_dir@ == dir@
                && r->Err_0.kind->UnexpectedLayout_path@ == static_library_of(dir@, os_of(system_id)),
            r is Ok <==> dir_present && header_present && static_library_name(os_of(system_id)) is Some
                && library_present,
            r is Ok ==> r->Ok_0.system_id == system_id && r->Ok_0.sdk_dir@ == dir@
                && r->Ok_0.compiler_additions@ == compiler_additions_of(dir@)
                && r->Ok_0.wstp_h@ == header_of(dir@)
                && r->Ok_0.wstp_static_library@ == static_library_of(dir@, os_of(system_id)),
    {
        if !dir_present {
            let mut message = String::from_str("WSTP SDK dir path is not a directory: ");
            message.append(dir.as_str());
            return Err(Error::other(message));
        }
        let compiler_additions = join(dir.as_str(), "CompilerAdditions");
        let wstp_h = join(compiler_additions.as_str(), "wstp.h");
        if !header_present {
            return Err(Error::unexpected_layout("wstp.h C header file", dir, wstp_h));
        }
        let name = wstp_static_library_file_name(system_id.operating_system())?;
        let wstp_static_library = join(compiler_additions.as_str(), name);
        if !library_present {
            return Err(Error::unexpected_layout("WSTP static library file", dir, wstp_static_library));
        }
        Ok(WstpSdk { system_id, sdk_dir: dir, compiler_additions, wstp_h, wstp_static_library })
    }

    /// Reads the kit at `dir` for `system_id` from disk.
    pub fn try_from_directory_with_system_id(dir: String, system_id: SystemID) -> (r: Result<WstpSdk, Error>)
        ensures
            r is Ok ==> r->Ok_0.system_id == system_id && r->Ok_0.sdk_dir@ == dir@
                && r->Ok_0.compiler_additions@ == compiler_additions_of(dir@)
                && r->Ok_0.wstp_h@ == header_of(dir@)
                && static_library_name(os_of(system_id)) is Some
                && r->Ok_0.wstp_static_library@ == static_library_of(dir@, os_of(system_id)),
    {
        let dir_present = is_dir(dir.as_str());
        let compiler_additions = join(dir.as_str(), "CompilerAdditions");
        let wstp_h = join(compiler_additions.as_str(), "wstp.h");
        let header_present = is_file(wstp_h.as_str());
        let library_present = match wstp_static_library_file_name(system_id.operating_system()) {
            Ok(name) => {
                let library = join(compiler_additions.as_str(), name);
                is_file(library.as_str())
            },
            Err(_) => false,
        };
        WstpSdk::from_layout(dir, system_id, dir_present, header_present, library_present)
    }

    /// Reads the kit at `dir`, whose last component names its platform.
    pub fn try_from_directory(dir: String) -> (r: Result<WstpSdk, Error>)
        ensures
            r is Ok ==> sdk_of_entry(r->Ok_0, dir@),
            path_file_name(dir@) is None ==> r is Err && r->Err_0.kind is Other,
            path_file_name(dir@) is Some && (forall|id: SystemID|
                system_id_text(id) != path_file_name(dir@)->Some_0) ==> r is Err && r->Err_0.kind is Other,
    {
        let name = match file_name(dir.as_str()) {
            Some(name) => name,
            None => {
                let mut message = String::from_str("WSTP SDK dir path file name is empty: ");
                message.append(dir.as_str());
                return Err(Error::other(message));
            },
        };
        let system_id = match SystemID::from_text(name.as_str()) {
            Some(id) => id,
            None => {
                let mut message = String::from_str(
                    "WSTP SDK dir path does not end in a recognized SystemID: ",
                );
                message.append(dir.as_str());
                return Err(Error::other(message));
            },
        };
        WstpSdk::try_from_directory_with_system_id(dir, system_id)
    }

    /// The platform this kit is for.
    pub fn system_id(&self) -> (r: SystemID)
        ensures
            r == self.system_id,
    {
        self.system_id
    }

    /// The kit's directory.
    pub fn sdk_dir(&self) -> (r: String)
        ensures
            r@ == self.sdk_dir@,
    {
        self.sdk_dir.clone()
    }

    /// The `CompilerAdditions` subdirectory of the kit.
    pub fn wstp_compiler_additions_directory(&self) -> (r: String)
        ensures
            r@ == self.compiler_additions@,
    {
        self.compiler_additions.clone()
    }

    /// The `wstp.h` header file.
    pub fn wstp_c_header_path(&self) -> (r: String)
        ensures
            r@ == self.wstp_h@,
    {
        self.wstp_h.clone()
    }

    /// The WSTP static library.
    pub fn wstp_static_library_path(&self) -> (r: String)
        ensures
            r@ == self.wstp_static_library@,
    {
        self.wstp_static_library.clone()
    }
}

} // verus!
