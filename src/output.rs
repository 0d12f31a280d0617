//! The properties of an installation that the command-line tool prints.

use vstd::prelude::*;

use crate::app::WolframApp;
use crate::error::Error;

verus! {

/// A property of a Wolfram installation that can be printed.
#[derive(Debug, Clone, Copy, PartialEq, Eq, Structural)]
pub enum Property {
    /// The product type.
    AppType,
    /// The application directory.
    AppDirectory,
    /// The Wolfram Language version.
    WolframVersion,
    /// The `$InstallationDirectory`.
    InstallationDirectory,
    /// The LibraryLink C includes directory.
    LibraryLinkCIncludesDirectory,
}

/// The heading of each property.
pub open spec fn property_name(p: Property) -> Seq<char> {
    match p {
        Property::AppType => "App type"@,
        Property::WolframVersion => "Wolfram Language version"@,
        Property::AppDirectory => "Application directory"@,
        Property::InstallationDirectory => "$InstallationDirectory"@,
        Property::LibraryLinkCIncludesDirectory => "LibraryLink C includes directory"@,
    }
}

/// The headings of `props`, separated by commas.
pub open spec fn joined_names(props: Seq<Property>) -> Seq<char>
    decreases props.len(),
{
    if props.len() == 0 {
        Seq::empty()
    } else if props.len() == 1 {
        property_name(props[0])
    } else {
        joined_names(props.drop_last()) + ","@ + property_name(props.last())
    }
}

impl Property {
    /// All properties, in the order they are printed.
    pub fn variants() -> (r: Vec<Property>)
        ensures
            r@ == seq![
                Property::AppType,
                Property::WolframVersion,
                Property::AppDirectory,
                Property::InstallationDirectory,
                Property::LibraryLinkCIncludesDirectory,
            ],
    {
        let r = vec![
            Property::AppType,
            Property::WolframVersion,
            Property::AppDirectory,
            Property::InstallationDirectory,
            Property::LibraryLinkCIncludesDirectory,
        ];
        assert(r@ =~= seq![
            Property::AppType,
            Property::WolframVersion,
            Property::AppDirectory,
            Property::InstallationDirectory,
            Property::LibraryLinkCIncludesDirectory,
        ]);
        r
    }

    /// The heading of this property.
    pub fn name(&self) -> (r: &'static str)
        ensures
            r@ == property_name(*self),
    {
        match self {
            Property::AppType => "App type",
            Property::WolframVersion => "Wolfram Language version",
            Property::AppDirectory => "Application directory",
            Property::InstallationDirectory => "$InstallationDirectory",
            Property::LibraryLinkCIncludesDirectory => "LibraryLink C includes directory",
        }
    }
}

/// The CSV header line for `properties`: their headings separated by commas,
/// then a newline.
pub fn write_csv_header(properties: &[Property]) -> (r: String)
    ensures
        r@ == joined_names(properties@) + "\n"@,
{
    let mut s = String::new();
    let mut i: usize = 0;
    proof {
        reveal_strlit(",");
        reveal_strlit("\n");
    }
    while i < properties.len()
        invariant
            i <= properties@.len(),
            s@ == joined_names(properties@.subrange(0, i as int)),
        decreases properties@.len() - i,
    {
        let ghost prefix = properties@.subrange(0, i as int);
        let ghost next = properties@.subrange(0, i + 1);
        assert(next.drop_last() =~= prefix);
        if i > 0 {
            s.append(",");
        }
        s.append(properties[i].name());
        proof {
            if i == 0 {
                assert(s@ =~= property_name(next[0]));
            } else {
                assert(s@ =~= joined_names(prefix) + ","@ + property_name(next.last()));
            }
        }
        i = i + 1;
    }
    assert(properties@.subrange(0, properties@.len() as int) =~= properties@);
    s.append("\n");
    s
}

/// The text of `property` for `app`.
pub fn property_value(app: &WolframApp, property: Property) -> (r: Result<String, Error>)
    ensures
        property == Property::AppType ==> r is Ok,
        property == Property::AppDirectory ==> r is Ok && r->Ok_0@ == app.app_directory@,
        property == Property::InstallationDirectory && crate::app::hosts_known(*app) ==> r is Ok
            && r->Ok_0@ == crate::app::installation_dir_of(*app),
        property == Property::InstallationDirectory && !crate::app::hosts_known(*app) ==> r is Err
            && r->Err_0.kind is UnsupportedPlatform,
{
    match property {
        Property::AppType => Ok(String::from_str(app.app_type.variant_name())),
        Property::WolframVersion => {
            let version = app.wolfram_version()?;
            Ok(version.to_text())
        },
        Property::AppDirectory => Ok(app.app_directory()),
        Property::InstallationDirectory => {
            if !app.layout_known() {
                return Err(
                    Error::platform_unsupported(
                        "installation_directory()",
                        crate::platform::OperatingSystem::Other,
                    ),
                );
            }
            Ok(app.installation_directory())
        },
        Property::LibraryLinkCIncludesDirectory => app.library_link_c_includes_directory(),
    }
}

} // verus!
