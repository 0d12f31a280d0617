//! Locations of Wolfram development resources for build scripts: each is
//! taken from a configuration environment variable where one is set, and
//! from a [`WolframApp`] otherwise.

use vstd::prelude::*;

use crate::app::{includes_location, WolframApp};
use crate::config::{
    Environment, WOLFRAM_C_INCLUDES, WOLFRAM_LIBRARY_LINK_C_INCLUDES_DIRECTORY,
    WSTP_COMPILER_ADDITIONS, WSTP_COMPILER_ADDITIONS_DIRECTORY,
};
use crate::error::Error;
use crate::paths::{is_file, join, path_file_name, path_join};
use crate::platform::{os_of, system_id_text, SystemID};
use crate::sdk::{
    compiler_additions_of, header_of, sdk_of_entry, static_library_name, static_library_of,
    wstp_static_library_file_name,
};

verus! {

/// A resource location, from a configuration environment variable or from a
/// [`WolframApp`].
#[derive(Clone, Debug, PartialEq, Eq)]
pub enum Discovery {
    /// Location came from the application passed to the lookup function.
    App(String),
    /// Location derived from an environment variable.
    Env {
        /// The environment variable that was read.
        variable: &'static str,
        /// The path derived from the variable's value.
        path: String,
    },
}

impl Discovery {
    /// The path this discovery found.
    pub fn into_path_buf(self) -> (r: String)
        ensures
            r == (match self {
                Discovery::App(p) => p,
                Discovery::Env { variable: _, path } => path,
            }),
    {
        match self {
            Discovery::App(path) => path,
            Discovery::Env { variable: _, path } => path,
        }
    }
}

/// `r` is the environment discovery of variable `var` with value `value`.
pub open spec fn is_env_discovery(r: Discovery, var: &'static str, value: Seq<char>) -> bool {
    &&& r is Env
    &&& r->Env_variable@ == var@
    &&& r->Env_path@ == value
}

fn env_resource(variable: &'static str, value: &Option<String>) -> (r: Option<Discovery>)
    ensures
        value is None ==> r is None,
        value is Some ==> r is Some && is_env_discovery(r->Some_0, variable, value->Some_0@),
{
    match value {
        Some(path) => Some(Discovery::Env { variable, path: path.clone() }),
        None => None,
    }
}

/// The directory of the Wolfram LibraryLink C header files: from
/// [`WOLFRAM_LIBRARY_LINK_C_INCLUDES_DIRECTORY`], else the deprecated
/// [`WOLFRAM_C_INCLUDES`], else `app`.
pub fn library_link_c_includes_directory(app: Option<&WolframApp>, env: &Environment) -> (r: Result<Discovery, Error>)
    ensures
        env.wolfram_library_link_c_includes_directory is Some ==> r is Ok && is_env_discovery(
            r->Ok_0,
            WOLFRAM_LIBRARY_LINK_C_INCLUDES_DIRECTORY,
            env.wolfram_library_link_c_includes_directory->Some_0@,
        ),
        env.wolfram_library_link_c_includes_directory is None && env.wolfram_c_includes is Some ==> r is Ok
            && is_env_discovery(r->Ok_0, WOLFRAM_C_INCLUDES, env.wolfram_c_includes->Some_0@),
        env.wolfram_library_link_c_includes_directory is None && env.wolfram_c_includes is None && app is Some
            && r is Ok ==> r->Ok_0 is App && r->Ok_0->App_0@ == includes_location(*app->Some_0),
        env.wolfram_library_link_c_includes_directory is None && env.wolfram_c_includes is None && app is None
            ==> r is Err && r->Err_0.kind is Undiscoverable
            && r->Err_0.kind->Undiscoverable_resource@ == "LibraryLink C includes directory"@
            && r->Err_0.kind->Undiscoverable_environment_variable == Some(WOLFRAM_LIBRARY_LINK_C_INCLUDES_DIRECTORY),
{
    if let Some(found) = env_resource(
        WOLFRAM_LIBRARY_LINK_C_INCLUDES_DIRECTORY,
        &env.wolfram_library_link_c_includes_directory,
    ) {
        return Ok(found);
    }
    if let Some(found) = env_resource(WOLFRAM_C_INCLUDES, &env.wolfram_c_includes) {
        return Ok(found);
    }
    if let Some(app) = app {
        let path = app.library_link_c_includes_directory()?;
        return Ok(Discovery::App(path));
    }
    Err(
        Error::undiscoverable(
            String::from_str("LibraryLink C includes directory"),
            Some(WOLFRAM_LIBRARY_LINK_C_INCLUDES_DIRECTORY),
        ),
    )
}

/// Where the WSTP `CompilerAdditions` directory comes from: the variable
/// [`WSTP_COMPILER_ADDITIONS_DIRECTORY`], else the deprecated
/// [`WSTP_COMPILER_ADDITIONS`], else the developer kit of `app` for `target`
/// (whose `entries` are those of the app's developer kit directory).
pub fn wstp_compiler_additions_directory(
    app: Option<&WolframApp>,
    env: &Environment,
    entries: Vec<String>,
    target: SystemID,
) -> (r: Result<Discovery, Error>)
    ensures
        env.wstp_compiler_additions_directory is Some ==> r is Ok && is_env_discovery(
            r->Ok_0,
            WSTP_COMPILER_ADDITIONS_DIRECTORY,
            env.wstp_compiler_additions_directory->Some_0@,
        ),
        env.wstp_compiler_additions_directory is None && env.wstp_compiler_additions is Some ==> r is Ok
            && is_env_discovery(r->Ok_0, WSTP_COMPILER_ADDITIONS, env.wstp_compiler_additions->Some_0@),
        env.wstp_compiler_additions_directory is None && env.wstp_compiler_additions is None && app is Some
            && r is Ok ==> r->Ok_0 is App && exists|i: int|
            0 <= i < entries@.len() && path_file_name(#[trigger] entries@[i]@) == Some(system_id_text(target))
                && r->Ok_0->App_0@ == compiler_additions_of(entries@[i]@),
        env.wstp_compiler_additions_directory is None && env.wstp_compiler_additions is None && app is None
            ==> r is Err && r->Err_0.kind is Undiscoverable
            && r->Err_0.kind->Undiscoverable_resource@ == "WSTP CompilerAdditions directory"@
            && r->Err_0.kind->Undiscoverable_environment_variable == Some(WSTP_COMPILER_ADDITIONS_DIRECTORY),
{
    if let Some(found) = env_resource(
        WSTP_COMPILER_ADDITIONS_DIRECTORY,
        &env.wstp_compiler_additions_directory,
    ) {
        return Ok(found);
    }
    if let Some(found) = env_resource(WSTP_COMPILER_ADDITIONS, &env.wstp_compiler_additions) {
        return Ok(found);
    }
    if let Some(app) = app {
        let sdk = app.target_wstp_sdk(entries, target)?;
        proof {
            let i = choose|i: int| 0 <= i < entries@.len() && sdk_of_entry(sdk, #[trigger] entries@[i]@);
            assert(path_file_name(entries@[i]@) == Some(system_id_text(target)));
        }
        return Ok(Discovery::App(sdk.wstp_compiler_additions_directory()));
    }
    Err(
        Error::undiscoverable(
            String::from_str("WSTP CompilerAdditions directory"),
            Some(WSTP_COMPILER_ADDITIONS_DIRECTORY),
        ),
    )
}

/// `r` answers a lookup of `file` (called `resource`) inside the directory
/// that the environment discovery `dir` found, given whether that file is
/// present.
pub open spec fn env_file_outcome(
    variable: Seq<char>,
    dir: Seq<char>,
    file: Seq<char>,
    resource: Seq<char>,
    present: bool,
    r: Result<Discovery, Error>,
) -> bool {
    let path = path_join(dir, file);
    &&& present ==> r is Ok && r->Ok_0 is Env && r->Ok_0->Env_variable@ == variable
        && r->Ok_0->Env_path@ == path
    &&& !present ==> r is Err && r->Err_0.kind is UnexpectedEnvironmentValueLayout
        && r->Err_0.kind->UnexpectedEnvironmentValueLayout_resource_name@ == resource
        && r->Err_0.kind->UnexpectedEnvironmentValueLayout_env_var@ == variable
        && r->Err_0.kind->UnexpectedEnvironmentValueLayout_env_value@ == dir
        && r->Err_0.kind->UnexpectedEnvironmentValueLayout_derived_path@ == path
}

/// The file `file` (called `resource`) inside the directory that an
/// environment variable named, given whether it is present on disk.
pub fn env_file(variable: &'static str, dir: String, file: &str, resource: &'static str, present: bool) -> (r: Result<Discovery, Error>)
    ensures
        env_file_outcome(variable@, dir@, file@, resource@, present, r),
{
    let path = join(dir.as_str(), file);
    if !present {
        return Err(Error::unexpected_env_layout(resource, variable, dir, path));
    }
    Ok(Discovery::Env { variable, path })
}

/// The `wstp.h` header: inside the `CompilerAdditions` directory that
/// [`WSTP_COMPILER_ADDITIONS_DIRECTORY`], else the deprecated
/// [`WSTP_COMPILER_ADDITIONS`], names; else that of the developer kit of
/// `app` for `target`.
pub fn wstp_c_header_path(
    app: Option<&WolframApp>,
    env: &Environment,
    entries: Vec<String>,
    target: SystemID,
) -> (r: Result<Discovery, Error>)
    ensures
        env.wstp_compiler_additions_directory is Some ==> exists|present: bool|
            #[trigger] env_file_outcome(
                WSTP_COMPILER_ADDITIONS_DIRECTORY@,
                env.wstp_compiler_additions_directory->Some_0@,
                "wstp.h"@,
                "wstp.h C header file"@,
                present,
                r,
            ),
        env.wstp_compiler_additions_directory is None && env.wstp_compiler_additions is Some ==> exists|
            present: bool,
        |
            #[trigger] env_file_outcome(
                WSTP_COMPILER_ADDITIONS@,
                env.wstp_compiler_additions->Some_0@,
                "wstp.h"@,
                "wstp.h C header file"@,
                present,
                r,
            ),
        env.wstp_compiler_additions_directory is None && env.wstp_compiler_additions is None && app is None
            ==> r is Err && r->Err_0.kind is Undiscoverable
            && r->Err_0.kind->Undiscoverable_resource@ == "WSTP CompilerAdditions directory"@
            && r->Err_0.kind->Undiscoverable_environment_variable == Some(WSTP_COMPILER_ADDITIONS_DIRECTORY),
        env.wstp_compiler_additions_directory is None && env.wstp_compiler_additions is None && app is Some
            && r is Ok ==> r->Ok_0 is App && exists|i: int|
            0 <= i < entries@.len() && path_file_name(#[trigger] entries@[i]@) == Some(system_id_text(target))
                && r->Ok_0->App_0@ == header_of(entries@[i]@),
{
    let located = match env_resource(
        WSTP_COMPILER_ADDITIONS_DIRECTORY,
        &env.wstp_compiler_additions_directory,
    ) {
        Some(found) => Some(found),
        None => env_resource(WSTP_COMPILER_ADDITIONS, &env.wstp_compiler_additions),
    };
    match located {
        Some(Discovery::Env { variable, path }) => {
            let file = join(path.as_str(), "wstp.h");
            let present = is_file(file.as_str());
            proof {
                reveal_strlit("wstp.h C header file");
            }
            env_file(variable, path, "wstp.h", "wstp.h C header file", present)
        },
        _ => match app {
            Some(app) => {
                let sdk = app.target_wstp_sdk(entries, target)?;
                proof {
                    let i = choose|i: int| 0 <= i < entries@.len() && sdk_of_entry(sdk, #[trigger] entries@[i]@);
                    assert(path_file_name(entries@[i]@) == Some(system_id_text(target)));
                }
                Ok(Discovery::App(sdk.wstp_c_header_path()))
            },
            None => Err(
                Error::undiscoverable(
                    String::from_str("WSTP CompilerAdditions directory"),
                    Some(WSTP_COMPILER_ADDITIONS_DIRECTORY),
                ),
            ),
        },
    }
}

/// The WSTP static library for `target`: inside the `CompilerAdditions`
/// directory that [`WSTP_COMPILER_ADDITIONS_DIRECTORY`], else the deprecated
/// [`WSTP_COMPILER_ADDITIONS`], names; else that of the developer kit of
/// `app` for `target`.
pub fn wstp_static_library_path(
    app: Option<&WolframApp>,
    env: &Environment,
    entries: Vec<String>,
    target: SystemID,
) -> (r: Result<Discovery, Error>)
    ensures
        !(static_library_name(os_of(target)) is Some) ==> r is Err && r->Err_0.kind is UnsupportedPlatform,
        static_library_name(os_of(target)) is Some ==> env.wstp_compiler_additions_directory is Some ==> exists|present: bool|
            #[trigger] env_file_outcome(
                WSTP_COMPILER_ADDITIONS_DIRECTORY@,
                env.wstp_compiler_additions_directory->Some_0@,
                static_library_name(os_of(target))->Some_0,
                "WSTP static library file"@,
                present,
                r,
            ),
        static_library_name(os_of(target)) is Some ==> env.wstp_compiler_additions_directory is None && env.wstp_compiler_additions is Some ==> exists|
            present: bool,
        |
            #[trigger] env_file_outcome(
                WSTP_COMPILER_ADDITIONS@,
                env.wstp_compiler_additions->Some_0@,
                static_library_name(os_of(target))->Some_0,
                "WSTP static library file"@,
                present,
                r,
            ),
        static_library_name(os_of(target)) is Some ==> env.wstp_compiler_additions_directory is None && env.wstp_compiler_additions is None && app is None
            ==> r is Err && r->Err_0.kind is Undiscoverable
            && r->Err_0.kind->Undiscoverable_resource@ == "WSTP CompilerAdditions directory"@
            && r->Err_0.kind->Undiscoverable_environment_variable == Some(WSTP_COMPILER_ADDITIONS_DIRECTORY),
        env.wstp_compiler_additions_directory is None && env.wstp_compiler_additions is None && app is Some
            && r is Ok ==> r->Ok_0 is App && exists|i: int|
            0 <= i < entries@.len() && path_file_name(#[trigger] entries@[i]@) == Some(system_id_text(target))
                && r->Ok_0->App_0@ == static_library_of(entries@[i]@, os_of(target)),
{
    let name = wstp_static_library_file_name(target.operating_system())?;
    let located = match env_resource(
        WSTP_COMPILER_ADDITIONS_DIRECTORY,
        &env.wstp_compiler_additions_directory,
    ) {
        Some(found) => Some(found),
        None => env_resource(WSTP_COMPILER_ADDITIONS, &env.wstp_compiler_additions),
    };
    match located {
        Some(Discovery::Env { variable, path }) => {
            let file = join(path.as_str(), name);
            let present = is_file(file.as_str());
            proof {
                reveal_strlit("WSTP static library file");
            }
            env_file(variable, path, name, "WSTP static library file", present)
        },
        _ => match app {
            Some(app) => {
                let sdk = app.target_wstp_sdk(entries, target)?;
                proof {
                    let i = choose|i: int| 0 <= i < entries@.len() && sdk_of_entry(sdk, #[trigger] entries@[i]@);
                    assert(path_file_name(entries@[i]@) == Some(system_id_text(target)));
                }
                Ok(Discovery::App(sdk.wstp_static_library_path()))
            },
            None => Err(
                Error::undiscoverable(
                    String::from_str("WSTP CompilerAdditions directory"),
                    Some(WSTP_COMPILER_ADDITIONS_DIRECTORY),
                ),
            ),
        },
    }
}

} // verus!
