//! Configuration: the environment variables the library consults, and
//! whether build-script directives are printed.

use vstd::prelude::*;

verus! {

/// *Deprecated:* names the default Wolfram installation directory; use
/// [`WOLFRAM_APP_DIRECTORY`] instead.
pub const RUST_WOLFRAM_LOCATION: &'static str = "RUST_WOLFRAM_LOCATION";

/// Names the default Wolfram application directory.
pub const WOLFRAM_APP_DIRECTORY: &'static str = "WOLFRAM_APP_DIRECTORY";

/// *Deprecated:* the WSTP `CompilerAdditions` directory; use
/// [`WSTP_COMPILER_ADDITIONS_DIRECTORY`] instead.
pub const WSTP_COMPILER_ADDITIONS: &'static str = "WSTP_COMPILER_ADDITIONS";

/// The WSTP `CompilerAdditions` directory.
pub const WSTP_COMPILER_ADDITIONS_DIRECTORY: &'static str = "WSTP_COMPILER_ADDITIONS_DIRECTORY";

/// *Deprecated:* the Wolfram `$InstallationDirectory/SystemFiles/IncludeFiles/C`
/// directory.
pub const WOLFRAM_C_INCLUDES: &'static str = "WOLFRAM_C_INCLUDES";

/// The directory of the Wolfram LibraryLink C header files.
pub const WOLFRAM_LIBRARY_LINK_C_INCLUDES_DIRECTORY: &'static str =
    "WOLFRAM_LIBRARY_LINK_C_INCLUDES_DIRECTORY";

/// The values of the environment variables the library consults, read once
/// by the caller; `None` where a variable is not set.
#[derive(Debug, Clone, Default)]
pub struct Environment {
    pub rust_wolfram_location: Option<String>,
    pub wolfram_app_directory: Option<String>,
    pub wstp_compiler_additions_directory: Option<String>,
    pub wstp_compiler_additions: Option<String>,
    pub wolfram_library_link_c_includes_directory: Option<String>,
    pub wolfram_c_includes: Option<String>,
}

/// Settings of the library's diagnostic output.
#[derive(Debug, Clone, Copy, Default)]
pub struct Settings {
    /// Whether `cargo:rerun-if-env-changed=<VAR>` is printed for each
    /// environment variable that is read.
    pub print_cargo_build_script_directives: bool,
}

/// Sets whether `cargo:rerun-if-env-changed=<VAR>` directives are printed,
/// and returns the previous setting.
pub fn set_print_cargo_build_script_directives(settings: &mut Settings, should_print: bool) -> (r: bool)
    ensures
        r == old(settings).print_cargo_build_script_directives,
        final(settings).print_cargo_build_script_directives == should_print,
{
    let previous = settings.print_cargo_build_script_directives;
    settings.print_cargo_build_script_directives = should_print;
    previous
}

/// Whether `cargo:rerun-if-env-changed=<VAR>` directives are printed.
pub fn should_print_cargo_build_script_directives(settings: &Settings) -> (r: bool)
    ensures
        r == settings.print_cargo_build_script_directives,
{
    settings.print_cargo_build_script_directives
}

} // verus!
