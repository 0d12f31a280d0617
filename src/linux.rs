//! Installations on Linux, found by directory convention under
//! `<root>/<ProductFamily>/<MAJOR.MINOR>/` and identified by the first line of
//! `LICENSE.txt` and the comment header of the `WolframKernel` script.

use vstd::prelude::*;

use crate::app::WolframApp;
use crate::app_type::{product_type_of_license_line, WolframAppType};
use crate::error::Error;
use crate::paths::{join, path_join};
use crate::platform::SystemID;
use crate::text::{first_line, lines, lines_of, split, split_on, views};
use crate::version::{app_version_of, AppVersion};

verus! {

/// What reading one file gave.
#[derive(Debug, Clone, PartialEq, Eq)]
pub enum FileText {
    /// There is no regular file at the path.
    Missing,
    /// The file is there but could not be read; the reason, as text.
    Unreadable(String),
    /// The file's contents.
    Text(String),
}

/// The contents of the two files that identify an installation.
#[derive(Debug, Clone, PartialEq, Eq)]
pub struct InstallationFiles {
    /// `LICENSE.txt`, at [`license_path`].
    pub license: FileText,
    /// The `WolframKernel` launch script, at [`kernel_script_path`].
    pub kernel_script: FileText,
}

/// The directories that installations are found under.
pub fn app_roots() -> (r: Vec<&'static str>)
    ensures
        r@.len() == 2,
{
    vec!["/usr/local/Wolfram", "/opt/Wolfram"]
}

pub open spec fn license_location(app_dir: Seq<char>) -> Seq<char> {
    path_join(app_dir, "LICENSE.txt"@)
}

pub open spec fn kernel_script_location(app_dir: Seq<char>) -> Seq<char> {
    path_join(path_join(app_dir, "Executables"@), "WolframKernel"@)
}

/// Where the license text of the installation at `app_dir` is.
pub fn license_path(app_dir: &str) -> (r: String)
    ensures
        r@ == license_location(app_dir@),
{
    join(app_dir, "LICENSE.txt")
}

/// Where the `WolframKernel` launch script of the installation at `app_dir`
/// is.
pub fn kernel_script_path(app_dir: &str) -> (r: String)
    ensures
        r@ == kernel_script_location(app_dir@),
{
    let executables = join(app_dir, "Executables");
    join(executables.as_str(), "WolframKernel")
}

/// The pieces of the third header line of a launch script, split on single
/// spaces, when they read `#`, ``, `Mathematica`, the version, `Kernel`,
/// `command`, `file`.
pub open spec fn header_shape(pieces: Seq<Seq<char>>) -> bool {
    &&& pieces.len() == 7
    &&& pieces[0] == "#"@
    &&& pieces[1] == ""@
    &&& pieces[2] == "Mathematica"@
    &&& pieces[4] == "Kernel"@
    &&& pieces[5] == "command"@
    &&& pieces[6] == "file"@
}

/// The version text in a launch script: its first two lines must read
/// `#!/bin/sh` and `#`, and its third must have the shape of
/// [`header_shape`].
pub open spec fn script_version_text(contents: Seq<char>) -> Option<Seq<char>> {
    let l = lines_of(contents);
    if l.len() >= 3 && l[0] == "#!/bin/sh"@ && l[1] == "#"@ && header_shape(split_on(l[2], ' ')) {
        Some(split_on(l[2], ' ')[3])
    } else {
        None
    }
}

fn is_text(s: &String, lit: &str) -> (r: bool)
    ensures
        r == (s@ == lit@),
{
    crate::platform::str_eq(s.as_str(), lit)
}

/// Reads the application version from the contents of a `WolframKernel`
/// launch script: `Ok(None)` where the header does not have the expected
/// form, an error where the version in it does not parse.
pub fn parse_wolfram_kernel_script_contents(contents: &str) -> (r: Result<Option<AppVersion>, Error>)
    ensures
        script_version_text(contents@) is None ==> r == Ok::<Option<AppVersion>, Error>(None),
        script_version_text(contents@) is Some ==> match app_version_of(script_version_text(contents@)->Some_0) {
            Some(v) => r == Ok::<Option<AppVersion>, Error>(Some(v)),
            None => r is Err && r->Err_0.kind is Other,
        },
{
    let all = lines(contents);
    let ghost l = lines_of(contents@);
    assert(all@.len() == l.len());
    if all.len() < 3 {
        return Ok(None);
    }
    assert(all@[0]@ == l[0] && all@[1]@ == l[1] && all@[2]@ == l[2]);
    proof {
        reveal_strlit("#!/bin/sh");
        reveal_strlit("#");
    }
    if !is_text(&all[0], "#!/bin/sh") || !is_text(&all[1], "#") {
        return Ok(None);
    }
    let pieces = split(all[2].as_str(), ' ');
    let ghost p = split_on(l[2], ' ');
    assert(pieces@.len() == p.len());
    if pieces.len() != 7 {
        return Ok(None);
    }
    assert(forall|i: int| 0 <= i < 7 ==> pieces@[i]@ == p[i]);
    if !is_text(&pieces[0], "#") || !is_text(&pieces[1], "") || !is_text(&pieces[2], "Mathematica")
        || !is_text(&pieces[4], "Kernel") || !is_text(&pieces[5], "command") || !is_text(&pieces[6], "file") {
        return Ok(None);
    }
    let version = AppVersion::parse(pieces[3].as_str())?;
    Ok(Some(version))
}

/// What the two files of the installation at `app_dir` say of its product
/// type and version; `None` where they do not identify an installation.
pub open spec fn app_info_of(files: InstallationFiles) -> Option<(WolframAppType, AppVersion)> {
    match (files.license, files.kernel_script) {
        (FileText::Text(license), FileText::Text(script)) => match (
            first_line(license@),
            script_version_text(script@),
        ) {
            (Some(line), Some(version_text)) => match (
                product_type_of_license_line(line),
                app_version_of(version_text),
            ) {
                (Some(t), Some(v)) => Some((t, v)),
                _ => None,
            },
            _ => None,
        },
        _ => None,
    }
}

/// The product type and version of the installation at `app_dir`, from the
/// contents of its license text and launch script.
pub fn parse_app_info_from_files(app_dir: &str, files: &InstallationFiles) -> (r: Result<(WolframAppType, AppVersion), Error>)
    ensures
        r is Ok <==> app_info_of(*files) is Some,
        r is Ok ==> r->Ok_0 == app_info_of(*files)->Some_0,
        files.license is Missing ==> r is Err && r->Err_0.kind is UnexpectedLayout
            && r->Err_0.kind->UnexpectedLayout_path@ == license_location(app_dir@),
{
    let license = match &files.license {
        FileText::Text(text) => text,
        FileText::Missing => {
            let path = license_path(app_dir);
            return Err(Error::unexpected_layout("LICENSE.txt file", String::from_str(app_dir), path));
        },
        FileText::Unreadable(reason) => {
            let mut message = String::from_str("Error reading LICENSE.txt: ");
            message.append(reason.as_str());
            return Err(Error::other(message));
        },
    };
    let license_lines = lines(license.as_str());
    assert(views(license_lines@) == lines_of(license@));
    if license_lines.len() == 0 {
        return Err(
            Error::other(
                String::from_str("Unable to determine Wolfram app type from LICENSE.txt: file is empty."),
            ),
        );
    }
    assert(license_lines@[0]@ == lines_of(license@)[0]);
    let app_type = match WolframAppType::from_license_line(license_lines[0].as_str()) {
        Some(t) => t,
        None => {
            let mut message = String::from_str(
                "Unable to determine Wolfram app type from LICENSE.txt: first line was: ",
            );
            message.append(license_lines[0].as_str());
            return Err(Error::other(message));
        },
    };
    let script = match &files.kernel_script {
        FileText::Text(text) => text,
        FileText::Missing => {
            let path = kernel_script_path(app_dir);
            return Err(
                Error::unexpected_layout("WolframKernel executable", String::from_str(app_dir), path),
            );
        },
        FileText::Unreadable(reason) => {
            let mut message = String::from_str("Error reading WolframKernel executable: ");
            message.append(reason.as_str());
            return Err(Error::other(message));
        },
    };
    let app_version = match parse_wolfram_kernel_script_contents(script.as_str())? {
        Some(v) => v,
        None => {
            return Err(
                Error::other(
                    String::from_str(
                        "Unable to parse app version from WolframKernel: unexpected file contents",
                    ),
                ),
            );
        },
    };
    Ok((app_type, app_version))
}

/// The installation at `app_dir` on the Linux platform `host`.
pub fn from_app_directory(app_dir: String, host: SystemID, files: &InstallationFiles) -> (r: Result<WolframApp, Error>)
    ensures
        r is Ok <==> app_info_of(*files) is Some,
        r is Ok ==> r->Ok_0.app_type == app_info_of(*files)->Some_0.0
            && r->Ok_0.app_version == app_info_of(*files)->Some_0.1
            && r->Ok_0.app_directory@ == app_dir@
            && r->Ok_0.app_name@ == crate::app_type::product_name_of(r->Ok_0.app_type)
            && r->Ok_0.app_executable is None
            && r->Ok_0.embedded_player is None
            && r->Ok_0.host == host,
{
    let (app_type, app_version) = parse_app_info_from_files(app_dir.as_str(), files)?;
    Ok(
        WolframApp {
            app_name: String::from_str(app_type.app_name()),
            app_type,
            app_version,
            app_directory: app_dir,
            app_executable: None,
            embedded_player: None,
            host,
        },
    )
}

/// One `<root>/<ProductFamily>/<MAJOR.MINOR>/` directory and the files read
/// from it.
#[derive(Debug, Clone, PartialEq, Eq)]
pub struct Candidate {
    pub dir: String,
    pub files: InstallationFiles,
}

/// The candidates of `s` that identify an installation, in order.
pub open spec fn kept_candidates(s: Seq<Candidate>) -> Seq<Candidate>
    decreases s.len(),
{
    if s.len() == 0 {
        s
    } else if app_info_of(s.last().files) is Some {
        kept_candidates(s.drop_last()).push(s.last())
    } else {
        kept_candidates(s.drop_last())
    }
}

/// `app` is the installation that the candidate `c` identifies.
pub open spec fn candidate_app_matches(c: Candidate, host: SystemID, app: WolframApp) -> bool {
    &&& app.app_type == app_info_of(c.files)->Some_0.0
    &&& app.app_version == app_info_of(c.files)->Some_0.1
    &&& app.app_directory@ == c.dir@
    &&& app.app_executable is None
    &&& app.embedded_player is None
    &&& app.host == host
}

/// The installations among the candidate directories found under the roots,
/// in order; a candidate that does not identify an installation is skipped.
pub fn discover_all(candidates: Vec<Candidate>, host: SystemID) -> (r: Vec<WolframApp>)
    ensures
        r@.len() == kept_candidates(candidates@).len(),
        forall|i: int|
            0 <= i < r@.len() ==> candidate_app_matches(#[trigger] kept_candidates(candidates@)[i], host, r@[i]),
{
    let mut apps: Vec<WolframApp> = Vec::new();
    let mut i: usize = 0;
    while i < candidates.len()
        invariant
            i <= candidates@.len(),
            apps@.len() == kept_candidates(candidates@.take(i as int)).len(),
            forall|k: int|
                0 <= k < apps@.len() ==> candidate_app_matches(
                    #[trigger] kept_candidates(candidates@.take(i as int))[k],
                    host,
                    apps@[k],
                ),
        decreases candidates@.len() - i,
    {
        let ghost before = candidates@.take(i as int);
        let ghost after = candidates@.take(i + 1);
        assert(after.drop_last() =~= before);
        assert(after.last() == candidates@[i as int]);
        let ghost old_apps = apps@;
        let c = &candidates[i];
        match from_app_directory(c.dir.clone(), host, &c.files) {
            Ok(app) => {
                apps.push(app);
                assert forall|k: int| 0 <= k < apps@.len() implies candidate_app_matches(
                    #[trigger] kept_candidates(after)[k],
                    host,
                    apps@[k],
                ) by {
                    if k < old_apps.len() {
                        assert(apps@[k] == old_apps[k]);
                    }
                }
            },
            Err(_) => {},
        }
        i = i + 1;
    }
    assert(candidates@.take(candidates@.len() as int) =~= candidates@);
    apps
}

} // verus!
