//! Installations on Windows: installation records under the vendor's registry
//! key, and store-distributed packages.

use vstd::prelude::*;

use crate::app::WolframApp;
use crate::app_type::{product_type_of_code, product_type_of_family, WolframAppType};
use crate::error::Error;
use crate::paths::{parent, path_parent};
use crate::platform::{str_eq, SystemID};
use crate::text::{parse_u32, parse_u32_spec, split, split_on};
use crate::version::{render_u32, AppVersion};

verus! {

/// The text of the first capture group of the regular expression `pattern`
/// in `text`, where the pattern compiles, matches, and the group takes part.
pub uninterp spec fn regex_first_group(pattern: Seq<char>, text: Seq<char>) -> Option<Seq<char>>;

/// Relies on `regex::Regex::new` and `regex::Regex::captures`: the first
/// capture group's text, which depends on the pattern and the text alone.
#[verifier::external_body]
fn first_capture(pattern: &str, text: &str) -> (r: Option<String>)
    ensures
        r is Some <==> regex_first_group(pattern@, text@) is Some,
        r is Some ==> r->Some_0@ == regex_first_group(pattern@, text@)->Some_0,
{
    let re = regex::Regex::new(pattern).ok()?;
    re.captures(text).and_then(|c| c.get(1)).map(|m| m.as_str().to_string())
}

/// The pattern of a build key name, `<letter>-<id>-<name>[.<name>].<a>.<b>.<c>.<build>`,
/// whose one group is the build number.
pub const BUILD_KEY_PATTERN: &'static str =
    "^[a-zA-Z]-[a-zA-Z0-9]+-[a-zA-Z]+(?:\\.[-a-zA-Z]+)?\\.[0-9]+\\.[0-9]+\\.[0-9]+\\.([0-9]+)$";

/// A decimal `u32`, where `s` is one.
pub open spec fn u32_of(s: Seq<char>) -> Option<u32> {
    match parse_u32_spec(s) {
        Ok(v) => Some(v),
        Err(_) => None,
    }
}

/// The build number of a registry key name, given the first group that
/// [`BUILD_KEY_PATTERN`] captured in it: the group read as a number, or,
/// where the pattern does not match, the whole name read as a number.
pub fn build_number_from_capture(capture: Option<String>, key_name: &str) -> (r: Option<u32>)
    ensures
        capture is Some ==> r == u32_of(capture->Some_0@),
        capture is None ==> r == u32_of(key_name@),
{
    let text = match &capture {
        Some(group) => group.as_str(),
        None => key_name,
    };
    match parse_u32(text) {
        Ok(v) => Some(v),
        Err(_) => None,
    }
}

/// The build number of a registry key name.
pub fn parse_build_number(key_name: &str) -> (r: Option<u32>)
    ensures
        regex_first_group(BUILD_KEY_PATTERN@, key_name@) is Some ==> r == u32_of(
            regex_first_group(BUILD_KEY_PATTERN@, key_name@)->Some_0,
        ),
        regex_first_group(BUILD_KEY_PATTERN@, key_name@) is None ==> r == u32_of(key_name@),
{
    let capture = first_capture(BUILD_KEY_PATTERN, key_name);
    build_number_from_capture(capture, key_name)
}

/// The version text of the registry and of `.VersionID` files: three or four
/// dot-separated numbers, the fourth being the minor revision.
pub open spec fn windows_version_of(s: Seq<char>) -> Option<AppVersion> {
    let p = split_on(s, '.');
    if (p.len() == 3 || p.len() == 4) && u32_of(p[0]) is Some && u32_of(p[1]) is Some && u32_of(p[2]) is Some
        && (p.len() == 4 ==> u32_of(p[3]) is Some) {
        Some(
            AppVersion {
                major: u32_of(p[0])->Some_0,
                minor: u32_of(p[1])->Some_0,
                revision: u32_of(p[2])->Some_0,
                minor_revision: if p.len() == 4 {
                    Some(u32_of(p[3])->Some_0)
                } else {
                    None
                },
                build_code: None,
            },
        )
    } else {
        None
    }
}

fn number(text: &String) -> (r: Result<u32, Error>)
    ensures
        r is Ok <==> u32_of(text@) is Some,
        r is Ok ==> r->Ok_0 == u32_of(text@)->Some_0,
{
    match parse_u32(text.as_str()) {
        Ok(v) => Ok(v),
        Err(_) => {
            let mut message = String::from_str("invalid application version number component: '");
            message.append(text.as_str());
            message.append("'");
            Err(Error::other(message))
        },
    }
}

impl AppVersion {
    /// Parses the version text of the registry (see [`windows_version_of`]).
    pub fn parse_windows(version: &str) -> (r: Result<AppVersion, Error>)
        ensures
            r is Ok <==> windows_version_of(version@) is Some,
            r is Ok ==> r->Ok_0 == windows_version_of(version@)->Some_0,
    {
        let parts = split(version, '.');
        let ghost p = split_on(version@, '.');
        assert(parts@.len() == p.len());
        assert(forall|i: int| 0 <= i < p.len() ==> parts@[i]@ == p[i]);
        if parts.len() == 4 {
            let major = number(&parts[0])?;
            let minor = number(&parts[1])?;
            let revision = number(&parts[2])?;
            let minor_revision = number(&parts[3])?;
            Ok(AppVersion { major, minor, revision, minor_revision: Some(minor_revision), build_code: None })
        } else if parts.len() == 3 {
            let major = number(&parts[0])?;
            let minor = number(&parts[1])?;
            let revision = number(&parts[2])?;
            Ok(AppVersion { major, minor, revision, minor_revision: None, build_code: None })
        } else {
            let mut message = String::from_str("unexpected application version number format: ");
            message.append(version);
            Err(Error::other(message))
        }
    }
}

/// The version packed into the four bytes of a registry `Version` value,
/// most significant first; an all-zero value holds no version.
pub open spec fn packed_version_of(v: u32) -> Option<AppVersion> {
    if v == 0 {
        None
    } else {
        Some(
            AppVersion {
                major: v / 0x100_0000,
                minor: (v / 0x1_0000) % 0x100,
                revision: (v / 0x100) % 0x100,
                minor_revision: Some(v % 0x100),
                build_code: None,
            },
        )
    }
}

/// Unpacks a registry `Version` value.
pub fn version_from_packed(v: u32) -> (r: Option<AppVersion>)
    ensures
        r == packed_version_of(v),
{
    if v == 0 {
        return None;
    }
    Some(
        AppVersion {
            major: v / 0x100_0000,
            minor: (v / 0x1_0000) % 0x100,
            revision: (v / 0x100) % 0x100,
            minor_revision: Some(v % 0x100),
            build_code: None,
        },
    )
}

/// The values read from one build key under the vendor's registry key, and
/// what the file system says of the paths in them.
#[derive(Debug, Clone, PartialEq, Eq)]
pub struct RegistryRecord {
    /// The build key's name.
    pub key_name: String,
    /// The `Caps` value.
    pub caps: Option<u32>,
    /// The `ProductType` value.
    pub product_type: Option<u32>,
    /// The `CLSID` value.
    pub clsid: Option<String>,
    /// The `InstallationDirectory` value.
    pub installation_directory: Option<String>,
    /// Whether `installation_directory` exists.
    pub installation_directory_exists: bool,
    /// The `ExecutablePath` value.
    pub executable_path: Option<String>,
    /// Whether `executable_path` exists.
    pub executable_exists: bool,
    /// The `Language` value.
    pub language: Option<String>,
    /// The `ProductName` value.
    pub product_name: Option<String>,
    /// The `ProductVersion` value.
    pub product_version: Option<String>,
    /// The `Version` value.
    pub packed_version: Option<u32>,
    /// The contents of the `.VersionID` file in the directory that
    /// [`registry_installation_directory`] gives, where it could be read.
    pub version_file: Option<String>,
}

/// The installation directory of a record: its own value, else the parent of
/// an executable that exists.
pub open spec fn record_installation_dir(rec: RegistryRecord) -> Option<Seq<char>> {
    if rec.installation_directory is Some {
        Some(rec.installation_directory->Some_0@)
    } else if rec.executable_path is Some && rec.executable_exists {
        path_parent(rec.executable_path->Some_0@)
    } else {
        None
    }
}

/// The installation directory of a record (see [`record_installation_dir`]).
pub fn registry_installation_directory(rec: &RegistryRecord) -> (r: Option<String>)
    ensures
        r is Some <==> record_installation_dir(*rec) is Some,
        r is Some ==> r->Some_0@ == record_installation_dir(*rec)->Some_0,
{
    match &rec.installation_directory {
        Some(dir) => Some(dir.clone()),
        None => match &rec.executable_path {
            Some(exec) => {
                if rec.executable_exists {
                    parent(exec.as_str())
                } else {
                    None
                }
            },
            None => None,
        },
    }
}

/// The version of a record: the first of its `ProductVersion` text, its
/// packed `Version` value and its `.VersionID` file that gives one.
pub open spec fn record_version(rec: RegistryRecord) -> Option<AppVersion> {
    if rec.product_version is Some && windows_version_of(rec.product_version->Some_0@) is Some {
        windows_version_of(rec.product_version->Some_0@)
    } else if rec.packed_version is Some && packed_version_of(rec.packed_version->Some_0) is Some {
        packed_version_of(rec.packed_version->Some_0)
    } else if rec.version_file is Some {
        windows_version_of(rec.version_file->Some_0@)
    } else {
        None
    }
}

/// The record describes an installation: its key names a non-zero build,
/// it has `Caps`, a known `ProductType`, an executable or installation
/// directory that exists, an installation directory, a product name and a
/// version.
pub open spec fn record_is_app(rec: RegistryRecord) -> bool {
    let build = match regex_first_group(BUILD_KEY_PATTERN@, rec.key_name@) {
        Some(g) => u32_of(g),
        None => u32_of(rec.key_name@),
    };
    &&& build is Some && build->Some_0 != 0
    &&& rec.caps is Some
    &&& rec.product_type is Some
    &&& product_type_of_code(rec.product_type->Some_0) is Some
    &&& (rec.executable_path is Some && rec.executable_exists) || (rec.installation_directory is Some
        && rec.installation_directory_exists) || (rec.installation_directory is None && record_installation_dir(rec) is Some)
    &&& record_installation_dir(rec) is Some
    &&& rec.product_name is Some
    &&& record_version(rec) is Some
}

/// An application under construction from the facts a platform reports.
#[derive(Debug, Clone, Default)]
pub struct WolframAppBuilder {
    pub app_name: Option<String>,
    pub app_version: Option<AppVersion>,
    pub app_type: Option<WolframAppType>,
    pub system_id: Option<String>,
    pub id: Option<String>,
    pub installation_directory: Option<String>,
    pub language_tag: Option<String>,
    pub executable_path: Option<String>,
    pub digitally_signed: Option<bool>,
    pub origin: Option<Origin>,
}

/// Where a package came from.
#[derive(Debug, Clone, Copy, PartialEq, Eq, Structural)]
pub enum Origin {
    Sideloaded,
    Store,
    Unknown,
}

impl WolframAppBuilder {
    /// A builder that knows nothing yet.
    pub fn empty() -> (r: WolframAppBuilder)
        ensures
            r.app_name is None && r.app_version is None && r.app_type is None
                && r.installation_directory is None && r.executable_path is None,
    {
        WolframAppBuilder {
            app_name: None,
            app_version: None,
            app_type: None,
            system_id: None,
            id: None,
            installation_directory: None,
            language_tag: None,
            executable_path: None,
            digitally_signed: None,
            origin: None,
        }
    }

    /// The application, once the name, version, product type and
    /// installation directory are known.
    pub fn finish(self, host: SystemID) -> (r: Option<WolframApp>)
        ensures
            r is Some <==> self.app_name is Some && self.app_version is Some && self.app_type is Some
                && self.installation_directory is Some,
            r is Some ==> r->Some_0.app_name == self.app_name->Some_0
                && r->Some_0.app_version == self.app_version->Some_0
                && r->Some_0.app_type == self.app_type->Some_0
                && r->Some_0.app_directory == self.installation_directory->Some_0
                && r->Some_0.app_executable == self.executable_path
                && r->Some_0.embedded_player is None
                && r->Some_0.host == host,
    {
        let app_name = self.app_name?;
        let app_version = self.app_version?;
        let app_type = self.app_type?;
        let app_directory = self.installation_directory?;
        Some(
            WolframApp {
                app_name,
                app_version,
                app_type,
                app_directory,
                app_executable: self.executable_path,
                embedded_player: None,
                host,
            },
        )
    }
}

/// The installation a registry record describes, on the Windows platform
/// `host`; `None` where the record is incomplete.
pub fn load_app_from_registry(rec: &RegistryRecord, system_id: &str, host: SystemID) -> (r: Option<WolframApp>)
    ensures
        r is Some <==> record_is_app(*rec),
        r is Some ==> r->Some_0.app_type == product_type_of_code(rec.product_type->Some_0)->Some_0
            && r->Some_0.app_version == record_version(*rec)->Some_0
            && r->Some_0.app_directory@ == record_installation_dir(*rec)->Some_0
            && r->Some_0.app_name == rec.product_name->Some_0
            && r->Some_0.host == host,
{
    let mut builder = WolframAppBuilder::empty();
    builder.system_id = Some(String::from_str(system_id));
    let build = parse_build_number(rec.key_name.as_str())?;
    if build == 0 {
        return None;
    }
    if rec.caps.is_none() {
        return None;
    }
    let product = rec.product_type?;
    builder.app_type = WolframAppType::from_windows_product_type(product);
    if let Some(id) = &rec.clsid {
        builder.id = Some(id.clone());
    }
    let install_dir = registry_installation_directory(rec);
    let has_exec = rec.executable_path.is_some() && rec.executable_exists;
    let has_install_dir = match &rec.installation_directory {
        Some(_) => rec.installation_directory_exists,
        None => install_dir.is_some(),
    };
    if !has_exec && !has_install_dir {
        return None;
    }
    builder.installation_directory = install_dir;
    builder.executable_path = match &rec.executable_path {
        Some(p) => Some(p.clone()),
        None => None,
    };
    builder.language_tag = match &rec.language {
        Some(l) => Some(l.clone()),
        None => Some(String::from_str("en")),
    };
    builder.app_name = match &rec.product_name {
        Some(name) => Some(name.clone()),
        None => {
            return None;
        },
    };
    let mut version: Option<AppVersion> = None;
    if let Some(text) = &rec.product_version {
        if let Ok(v) = AppVersion::parse_windows(text.as_str()) {
            version = Some(v);
        }
    }
    if version.is_none() {
        if let Some(packed) = rec.packed_version {
            version = version_from_packed(packed);
        }
    }
    if version.is_none() {
        if let Some(text) = &rec.version_file {
            if let Ok(v) = AppVersion::parse_windows(text.as_str()) {
                version = Some(v);
            }
        }
    }
    if version.is_none() {
        return None;
    }
    builder.app_version = version;
    builder.finish(host)
}

/// The package families that store-distributed products are published
/// under.
pub fn package_families() -> (r: Vec<&'static str>)
    ensures
        r@.len() == 7,
{
    vec![
        "Wolfram.Mathematica_ztr62y9da0nfr",
        "Wolfram.Desktop_ztr62y9da0nfr",
        "Wolfram.Player_ztr62y9da0nfr",
        "Wolfram.FinancePlatform_ztr62y9da0nfr",
        "Wolfram.ProgrammingLab_ztr62y9da0nfr",
        "Wolfram.AlphaNotebook_ztr62y9da0nfr",
        "Wolfram.Engine_ztr62y9da0nfr",
    ]
}

/// The product name of a package family, for the known families.
pub fn product_title_of_family(family: &str) -> (r: Option<&'static str>) {
    if str_eq(family, "Wolfram.Mathematica") {
        Some("Wolfram Mathematica")
    } else if str_eq(family, "Wolfram.Mathematica.Documentation") {
        Some("Wolfram Mathematica Documentation")
    } else if str_eq(family, "Wolfram.Desktop") {
        Some("Wolfram Desktop")
    } else if str_eq(family, "Wolfram.Desktop.Documentation") {
        Some("Wolfram Desktop Documentation")
    } else if str_eq(family, "Wolfram.Player") {
        Some("Wolfram Player")
    } else if str_eq(family, "Wolfram.FinancePlatform") {
        Some("Wolfram Finance Platform")
    } else if str_eq(family, "Wolfram.FinancePlatform.Documentation") {
        Some("Wolfram Finance Platform Documentation")
    } else if str_eq(family, "Wolfram.ProgrammingLab") {
        Some("Wolfram Programming Lab")
    } else if str_eq(family, "Wolfram.ProgrammingLab.Documentation") {
        Some("Wolfram Programming Lab Documentation")
    } else if str_eq(family, "Wolfram.AlphaNotebook") {
        Some("Wolfram|Alpha Notebook Edition")
    } else if str_eq(family, "Wolfram.AlphaNotebook.Documentation") {
        Some("Wolfram|Alpha Notebook Edition Documentation")
    } else if str_eq(family, "Wolfram.Engine") {
        Some("Wolfram Engine")
    } else {
        None
    }
}

/// The platform identifier text of a package's processor architecture code.
pub fn package_system_id(architecture: u32) -> (r: &'static str)
    ensures
        architecture == 0 ==> r@ == "Windows"@,
        architecture == 5 ==> r@ == "Windows-ARM"@,
        architecture == 9 ==> r@ == "Windows-x86-64"@,
        architecture == 12 ==> r@ == "Windows-ARM64"@,
        architecture != 0 && architecture != 5 && architecture != 9 && architecture != 12 ==> r@
            == "Unknown"@,
{
    if architecture == 5 {
        "Windows-ARM"
    } else if architecture == 12 {
        "Windows-ARM64"
    } else if architecture == 0 {
        "Windows"
    } else if architecture == 9 {
        "Windows-x86-64"
    } else {
        "Unknown"
    }
}

/// The platform identifier text of the host's processor architecture code.
pub fn host_system_id(architecture: u32) -> (r: &'static str)
    ensures
        architecture == 5 ==> r@ == "Windows-ARM"@,
        architecture == 9 ==> r@ == "Windows-x86-64"@,
        architecture == 12 ==> r@ == "Windows-ARM64"@,
        architecture != 5 && architecture != 9 && architecture != 12 ==> r@ == "Windows"@,
{
    if architecture == 5 {
        "Windows-ARM"
    } else if architecture == 12 {
        "Windows-ARM64"
    } else if architecture == 9 {
        "Windows-x86-64"
    } else {
        "Windows"
    }
}

/// Where a package with the given staging-origin code came from.
pub open spec fn origin_of_spec(code: i32) -> Origin {
    if code == 1 || code == 2 || code == 4 || code == 5 || code == 6 {
        Origin::Sideloaded
    } else if code == 3 {
        Origin::Store
    } else {
        Origin::Unknown
    }
}

/// Whether a package with the given staging-origin code is digitally signed.
pub open spec fn is_signed_spec(code: i32) -> bool {
    code == 2 || code == 3 || code == 5 || code == 6
}

/// Where a package with the given staging-origin code came from.
pub fn origin_of(code: i32) -> (r: Origin)
    ensures
        r == origin_of_spec(code),
{
    if code == 1 || code == 2 || code == 4 || code == 5 || code == 6 {
        Origin::Sideloaded
    } else if code == 3 {
        Origin::Store
    } else {
        Origin::Unknown
    }
}

/// Whether a package with the given staging-origin code is digitally signed.
pub fn is_signed_origin(code: i32) -> (r: bool)
    ensures
        r == is_signed_spec(code),
{
    code == 2 || code == 3 || code == 5 || code == 6
}

/// The facts read from one store-distributed package.
#[derive(Debug, Clone, PartialEq, Eq)]
pub struct PackageRecord {
    /// The package's full name.
    pub full_name: String,
    /// The package identity's name, e.g. `Wolfram.Mathematica`.
    pub family: String,
    /// The processor architecture code.
    pub architecture: u32,
    /// The staging-origin code, where it could be read.
    pub origin: Option<i32>,
    /// The installation path.
    pub path: String,
    /// The package identity's version, where it could be read.
    pub version: Option<AppVersion>,
}

/// The platform identifier text of a package's processor architecture code.
pub open spec fn package_system_id_text(architecture: u32) -> Seq<char> {
    if architecture == 0 {
        "Windows"@
    } else if architecture == 5 {
        "Windows-ARM"@
    } else if architecture == 9 {
        "Windows-x86-64"@
    } else if architecture == 12 {
        "Windows-ARM64"@
    } else {
        "Unknown"@
    }
}

/// A package describes an installation: its version is known and its family
/// is a product.
pub open spec fn package_is_app(rec: PackageRecord) -> bool {
    rec.version is Some && product_type_of_family(rec.family@) is Some
}

/// `app` is the installation that the registry record `rec` describes.
pub open spec fn registry_app_matches(rec: RegistryRecord, host: SystemID, app: WolframApp) -> bool {
    &&& app.app_type == product_type_of_code(rec.product_type->Some_0)->Some_0
    &&& app.app_version == record_version(rec)->Some_0
    &&& app.app_directory@ == record_installation_dir(rec)->Some_0
    &&& app.app_name == rec.product_name->Some_0
    &&& app.host == host
}

/// `app` is the installation that the package record `rec` describes.
pub open spec fn package_app_matches(rec: PackageRecord, host: SystemID, app: WolframApp) -> bool {
    &&& app.app_type == product_type_of_family(rec.family@)->Some_0
    &&& app.app_version == rec.version->Some_0
    &&& app.app_directory@ == rec.path@
    &&& app.host == host
}

/// The records of `s` that describe installations, in order.
pub open spec fn kept_records(s: Seq<RegistryRecord>) -> Seq<RegistryRecord>
    decreases s.len(),
{
    if s.len() == 0 {
        s
    } else if record_is_app(s.last()) {
        kept_records(s.drop_last()).push(s.last())
    } else {
        kept_records(s.drop_last())
    }
}

/// The packages of `s` that describe installations, in order.
pub open spec fn kept_packages(s: Seq<PackageRecord>) -> Seq<PackageRecord>
    decreases s.len(),
{
    if s.len() == 0 {
        s
    } else if package_is_app(s.last()) {
        kept_packages(s.drop_last()).push(s.last())
    } else {
        kept_packages(s.drop_last())
    }
}

/// Fills `builder` from a package record: identity, version where the
/// builder has none, product name and type, platform, origin and
/// installation directory.
pub fn load_app_from_package_info(rec: &PackageRecord, builder: &mut WolframAppBuilder)
    ensures
        final(builder).system_id is Some,
        final(builder).system_id->Some_0@ == package_system_id_text(rec.architecture),
        final(builder).language_tag is Some,
        rec.origin is Some ==> final(builder).origin == Some(origin_of_spec(rec.origin->Some_0))
            && final(builder).digitally_signed == Some(is_signed_spec(rec.origin->Some_0)),
        final(builder).app_type == (match product_type_of_family(rec.family@) {
            Some(t) => Some(t),
            None => old(builder).app_type,
        }),
        final(builder).app_version == (if old(builder).app_version is Some {
            old(builder).app_version
        } else {
            rec.version
        }),
        final(builder).installation_directory is Some,
        final(builder).installation_directory->Some_0@ == rec.path@,
        final(builder).app_name is Some,
        final(builder).executable_path == old(builder).executable_path,
{
    builder.id = Some(rec.full_name.clone());
    if builder.app_version.is_none() {
        builder.app_version = rec.version;
    }
    let mut title = String::from_str("Unknown");
    if let Some(name) = product_title_of_family(rec.family.as_str()) {
        title = String::from_str(name);
        if let Some(v) = builder.app_version {
            title.append(" ");
            let major = render_u32(v.major);
            title.append(major.as_str());
            if v.minor != 0 {
                title.append(".");
                let minor = render_u32(v.minor);
                title.append(minor.as_str());
            }
        }
    }
    builder.app_name = Some(title);
    if let Some(t) = WolframAppType::from_package_family(rec.family.as_str()) {
        builder.app_type = Some(t);
    }
    builder.system_id = Some(String::from_str(package_system_id(rec.architecture)));
    if let Some(code) = rec.origin {
        builder.origin = Some(origin_of(code));
        builder.digitally_signed = Some(is_signed_origin(code));
    }
    builder.language_tag = Some(String::from_str("Neutral"));
    builder.installation_directory = Some(rec.path.clone());
}

/// The installations among the registry records and packages found, in
/// order: those of the records, then those of the packages; an incomplete
/// candidate is skipped.
pub fn discover_all(records: Vec<RegistryRecord>, system_id: &str, packages: Vec<PackageRecord>, host: SystemID) -> (r: Vec<WolframApp>)
    ensures
        r@.len() == kept_records(records@).len() + kept_packages(packages@).len(),
        forall|i: int|
            0 <= i < kept_records(records@).len() ==> registry_app_matches(
                #[trigger] kept_records(records@)[i],
                host,
                r@[i],
            ),
        forall|j: int|
            0 <= j < kept_packages(packages@).len() ==> package_app_matches(
                #[trigger] kept_packages(packages@)[j],
                host,
                r@[kept_records(records@).len() + j],
            ),
{
    let mut apps: Vec<WolframApp> = Vec::new();
    let mut i: usize = 0;
    while i < records.len()
        invariant
            i <= records@.len(),
            apps@.len() == kept_records(records@.take(i as int)).len(),
            forall|k: int|
                0 <= k < apps@.len() ==> registry_app_matches(
                    #[trigger] kept_records(records@.take(i as int))[k],
                    host,
                    apps@[k],
                ),
        decreases records@.len() - i,
    {
        let ghost before = records@.take(i as int);
        let ghost after = records@.take(i + 1);
        assert(after.drop_last() =~= before);
        assert(after.last() == records@[i as int]);
        let ghost old_apps = apps@;
        if let Some(app) = load_app_from_registry(&records[i], system_id, host) {
            apps.push(app);
            assert forall|k: int| 0 <= k < apps@.len() implies registry_app_matches(
                #[trigger] kept_records(after)[k],
                host,
                apps@[k],
            ) by {
                if k < old_apps.len() {
                    assert(apps@[k] == old_apps[k]);
                }
            }
        }
        i = i + 1;
    }
    assert(records@.take(records@.len() as int) =~= records@);
    let ghost base = apps@.len();
    let mut j: usize = 0;
    while j < packages.len()
        invariant
            j <= packages@.len(),
            base == kept_records(records@).len(),
            apps@.len() == base + kept_packages(packages@.take(j as int)).len(),
            forall|k: int|
                0 <= k < base ==> registry_app_matches(#[trigger] kept_records(records@)[k], host, apps@[k]),
            forall|k: int|
                0 <= k < kept_packages(packages@.take(j as int)).len() ==> package_app_matches(
                    #[trigger] kept_packages(packages@.take(j as int))[k],
                    host,
                    apps@[base + k],
                ),
        decreases packages@.len() - j,
    {
        let ghost before = packages@.take(j as int);
        let ghost after = packages@.take(j + 1);
        assert(after.drop_last() =~= before);
        assert(after.last() == packages@[j as int]);
        let ghost old_apps = apps@;
        let mut builder = WolframAppBuilder::empty();
        load_app_from_package_info(&packages[j], &mut builder);
        if let Some(app) = builder.finish(host) {
            apps.push(app);
            assert forall|k: int| 0 <= k < base implies registry_app_matches(
                #[trigger] kept_records(records@)[k],
                host,
                apps@[k],
            ) by {
                assert(apps@[k] == old_apps[k]);
            }
            assert forall|k: int| 0 <= k < kept_packages(after).len() implies package_app_matches(
                #[trigger] kept_packages(after)[k],
                host,
                apps@[base + k],
            ) by {
                if k < kept_packages(before).len() {
                    assert(apps@[base + k] == old_apps[base + k]);
                }
            }
        }
        j = j + 1;
    }
    assert(packages@.take(packages@.len() as int) =~= packages@);
    apps
}

/// One registry location to enumerate.
#[derive(Debug, Clone, PartialEq, Eq)]
pub struct RegistryQuery {
    /// Whether the location is under the per-user hive (else the
    /// machine-wide one).
    pub current_user: bool,
    /// The registry view: `None` for the process's own, `Some(true)` for the
    /// 64-bit one, `Some(false)` for the 32-bit one.
    pub view_64: Option<bool>,
    /// The platform identifier text recorded for what is found there.
    pub system_id: String,
}

/// The registry locations to enumerate, in order: the machine-wide one, the
/// machine-wide 32-bit view where a second view exists, and the per-user one.
/// A 64-bit build that does not run under emulation reads a single view.
pub fn registry_queries(is_64bit_build: bool, is_wow: bool, host_id: &str) -> (r: Vec<RegistryQuery>)
    ensures
        is_64bit_build && !is_wow ==> r@.len() == 2,
        !(is_64bit_build && !is_wow) ==> r@.len() == 3,
{
    let single_view = is_64bit_build && !is_wow;
    let view: Option<bool> = if single_view {
        None
    } else {
        Some(true)
    };
    let main_id: &str = if single_view {
        "Windows"
    } else {
        host_id
    };
    let mut r: Vec<RegistryQuery> = Vec::new();
    r.push(RegistryQuery { current_user: false, view_64: view, system_id: String::from_str(main_id) });
    if !single_view {
        r.push(RegistryQuery { current_user: false, view_64: Some(false), system_id: String::from_str("Windows") });
    }
    r.push(RegistryQuery { current_user: true, view_64: view, system_id: String::from_str(main_id) });
    r
}

} // verus!
