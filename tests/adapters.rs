use wolfram_app_discovery::app_type::WolframAppType;
use wolfram_app_discovery::error::ErrorKind;
use wolfram_app_discovery::linux::{
    self, kernel_script_path, license_path, parse_app_info_from_files,
    parse_wolfram_kernel_script_contents, Candidate, FileText, InstallationFiles,
};
use wolfram_app_discovery::macos::{self, BundleExecutable, BundleInfo, FoundBundle};
use wolfram_app_discovery::open::AppSource;
use wolfram_app_discovery::app::WolframApp;
use wolfram_app_discovery::output::{property_value, write_csv_header, Property};
use wolfram_app_discovery::platform::SystemID;
use wolfram_app_discovery::version::AppVersion;
use wolfram_app_discovery::windows::{
    self,
    load_app_from_package_info, load_app_from_registry, registry_installation_directory,
    PackageRecord, RegistryRecord, WolframAppBuilder,
};

const KERNEL_SCRIPT: &str = "#!/bin/sh\n#\n#  Mathematica 13.1.0.0 Kernel command file\n#  Copyright\n";

fn mathematica_files() -> InstallationFiles {
    InstallationFiles {
        license: FileText::Text("Wolfram Mathematica® License Agreement\nMore terms.\n".to_string()),
        kernel_script: FileText::Text(KERNEL_SCRIPT.to_string()),
    }
}

#[test]
fn linux_root_with_one_mathematica() {
    let candidates = vec![Candidate { dir: "/root/Mathematica/13.1".to_string(), files: mathematica_files() }];
    let apps = linux::discover_all(candidates, SystemID::Linux_x86_64);
    assert_eq!(apps.len(), 1);
    let app = &apps[0];
    assert_eq!(app.app_type(), WolframAppType::Mathematica);
    let v = app.app_version();
    assert_eq!((v.major(), v.minor(), v.revision()), (13, 1, 0));
    // The fourth component of a four-part version is its build code.
    assert_eq!(v.build_code(), Some(0));
    assert_eq!(app.app_directory(), "/root/Mathematica/13.1");
    assert_eq!(app.app_executable(), None);
}

#[test]
fn linux_candidates_that_do_not_identify_are_skipped() {
    let candidates = vec![
        Candidate {
            dir: "/root/Other/1.0".to_string(),
            files: InstallationFiles { license: FileText::Missing, kernel_script: FileText::Missing },
        },
        Candidate { dir: "/root/Mathematica/13.1".to_string(), files: mathematica_files() },
        Candidate {
            dir: "/root/Tool/2.0".to_string(),
            files: InstallationFiles {
                license: FileText::Text("MIT License\n".to_string()),
                kernel_script: FileText::Text(KERNEL_SCRIPT.to_string()),
            },
        },
    ];
    assert_eq!(linux::discover_all(candidates, SystemID::Linux_ARM64).len(), 1);
}

#[test]
fn linux_file_errors() {
    let err = parse_app_info_from_files(
        "/opt/Wolfram/X/1.0",
        &InstallationFiles { license: FileText::Missing, kernel_script: FileText::Missing },
    )
    .unwrap_err();
    match err.kind() {
        ErrorKind::UnexpectedLayout { path, .. } => assert_eq!(path, "/opt/Wolfram/X/1.0/LICENSE.txt"),
        other => panic!("unexpected error: {other:?}"),
    }
    let err = parse_app_info_from_files(
        "/opt/Wolfram/X/1.0",
        &InstallationFiles {
            license: FileText::Text("Free Wolfram Engine™ for Developers: Terms and Conditions of Use".to_string()),
            kernel_script: FileText::Missing,
        },
    )
    .unwrap_err();
    match err.kind() {
        ErrorKind::UnexpectedLayout { path, .. } => {
            assert_eq!(path, "/opt/Wolfram/X/1.0/Executables/WolframKernel")
        },
        other => panic!("unexpected error: {other:?}"),
    }
    let err = parse_app_info_from_files(
        "/x",
        &InstallationFiles { license: FileText::Text(String::new()), kernel_script: FileText::Missing },
    )
    .unwrap_err();
    assert!(matches!(err.kind(), ErrorKind::Other(_)));
    let err = parse_app_info_from_files(
        "/x",
        &InstallationFiles { license: FileText::Unreadable("denied".to_string()), kernel_script: FileText::Missing },
    )
    .unwrap_err();
    assert!(matches!(err.kind(), ErrorKind::Other(_)));
    assert_eq!(license_path("/a"), "/a/LICENSE.txt");
    assert_eq!(kernel_script_path("/a"), "/a/Executables/WolframKernel");
}

#[test]
fn kernel_script_headers() {
    let v = parse_wolfram_kernel_script_contents(KERNEL_SCRIPT).unwrap().unwrap();
    assert_eq!((v.major(), v.minor(), v.revision()), (13, 1, 0));
    assert!(parse_wolfram_kernel_script_contents("#!/bin/bash\n#\n#  Mathematica 13.1.0.0 Kernel command file\n").unwrap().is_none());
    assert!(parse_wolfram_kernel_script_contents("#!/bin/sh\n#\n# Mathematica 13.1.0.0 Kernel command file\n").unwrap().is_none());
    assert!(parse_wolfram_kernel_script_contents("#!/bin/sh\n#\n").unwrap().is_none());
    assert!(parse_wolfram_kernel_script_contents("#!/bin/sh\n#\n#  Mathematica 13.x Kernel command file").is_err());
}

fn bundle(identifier: &str, version: &str, dir: &str) -> BundleInfo {
    BundleInfo {
        opened: true,
        directory: Some(dir.to_string()),
        identifier: Some(identifier.to_string()),
        executable: BundleExecutable::Path(format!("{dir}/Contents/MacOS/Mathematica")),
        short_version: Some(version.to_string()),
        name: Some("Mathematica".to_string()),
    }
}

#[test]
fn macos_bundles() {
    let info = bundle("com.wolfram.mathematica", "13.3.0", "/Applications/Mathematica.app");
    let app = macos::base_app_from_bundle(&info, None, SystemID::MacOSX_ARM64).unwrap();
    assert_eq!(app.app_type(), WolframAppType::Mathematica);
    assert_eq!(app.app_executable().unwrap(), "/Applications/Mathematica.app/Contents/MacOS/Mathematica");
    assert_eq!(app.installation_directory(), "/Applications/Mathematica.app/Contents");

    let mut unknown = info.clone();
    unknown.identifier = Some("com.example.other".to_string());
    assert!(macos::base_app_from_bundle(&unknown, None, SystemID::MacOSX_ARM64).is_err());
    let mut no_version = info.clone();
    no_version.short_version = Some("thirteen".to_string());
    assert!(macos::base_app_from_bundle(&no_version, None, SystemID::MacOSX_ARM64).is_err());
    let mut closed = info.clone();
    closed.opened = false;
    assert!(macos::base_app_from_bundle(&closed, None, SystemID::MacOSX_ARM64).is_err());

    let engine = bundle("com.wolfram.WolframEngine", "13.3.0", "/Applications/Wolfram Engine.app");
    let player_dir = macos::embedded_player_path("/Applications/Wolfram Engine.app");
    let player = bundle("com.wolfram.Mathematica.Player", "13.3.0", &player_dir);
    let found = vec![
        FoundBundle { app_type: WolframAppType::Engine, info: engine.clone(), player: Some(player) },
        FoundBundle { app_type: WolframAppType::Engine, info: engine, player: None },
        FoundBundle {
            app_type: WolframAppType::Mathematica,
            info: bundle("com.wolfram.Mathematica", "13.3.0", "/Applications/Mathematica.app"),
            player: None,
        },
    ];
    let apps = macos::discover_all(found, SystemID::MacOSX_x86_64);
    assert_eq!(apps.len(), 2);
    assert!(apps[0].installation_directory().contains("Wolfram Player.app"));
}

#[test]
fn from_app_directory_dispatches_by_platform() {
    let err = WolframApp::from_app_directory("/nonexistent/app".to_string(), SystemID::Linux_x86_64, &AppSource::Unavailable)
        .unwrap_err();
    assert!(matches!(err.kind(), ErrorKind::Other(_)));
    assert_eq!(
        WolframApp::app_directory_of_installation("/opt/Wolfram/M/13.1", SystemID::Linux_x86_64).unwrap(),
        "/opt/Wolfram/M/13.1"
    );
    assert_eq!(
        WolframApp::app_directory_of_installation("/Applications/M.app/Contents", SystemID::MacOSX_ARM64).unwrap(),
        "/Applications/M.app"
    );
    assert!(WolframApp::app_directory_of_installation("/Applications/M.app", SystemID::MacOSX_ARM64).is_err());
    assert_eq!(
        WolframApp::app_directory_of_installation("C:/W", SystemID::Windows_x86_64).unwrap(),
        "C:/W"
    );
}

fn record() -> RegistryRecord {
    RegistryRecord {
        key_name: "M-WIN-DEFAULT.13.1.0.8120617".to_string(),
        caps: Some(1),
        product_type: Some(1 << 28),
        clsid: None,
        installation_directory: Some("C:/Program Files/Wolfram Research/Mathematica/13.1".to_string()),
        installation_directory_exists: true,
        executable_path: None,
        executable_exists: false,
        language: None,
        product_name: Some("Mathematica 13.1".to_string()),
        product_version: Some("13.1.0.0".to_string()),
        packed_version: Some(0x0D02_0000),
        version_file: None,
    }
}

#[test]
fn registry_records() {
    let app = load_app_from_registry(&record(), "Windows-x86-64", SystemID::Windows_x86_64).unwrap();
    assert_eq!(app.app_type(), WolframAppType::Mathematica);
    let v = app.app_version();
    assert_eq!((v.major(), v.minor(), v.revision(), v.minor_revision()), (13, 1, 0, Some(0)));

    let mut packed = record();
    packed.product_version = None;
    let v = load_app_from_registry(&packed, "Windows", SystemID::Windows).unwrap().app_version().clone();
    assert_eq!((v.major(), v.minor()), (13, 2));

    let mut from_file = record();
    from_file.product_version = Some("garbage".to_string());
    from_file.packed_version = Some(0);
    from_file.version_file = Some("12.0.1".to_string());
    let v = load_app_from_registry(&from_file, "Windows", SystemID::Windows).unwrap().app_version().clone();
    assert_eq!((v.major(), v.minor(), v.revision()), (12, 0, 1));

    let mut no_version = from_file.clone();
    no_version.version_file = None;
    assert!(load_app_from_registry(&no_version, "Windows", SystemID::Windows).is_none());

    let mut missing = record();
    missing.installation_directory_exists = false;
    assert!(load_app_from_registry(&missing, "Windows", SystemID::Windows).is_none());

    let mut zero_build = record();
    zero_build.key_name = "0".to_string();
    assert!(load_app_from_registry(&zero_build, "Windows", SystemID::Windows).is_none());

    let mut derived = record();
    derived.installation_directory = None;
    derived.executable_path = Some("C:/W/Mathematica.exe".to_string());
    derived.executable_exists = true;
    assert_eq!(registry_installation_directory(&derived).unwrap(), "C:/W");
}

#[test]
fn package_records() {
    let rec = PackageRecord {
        full_name: "Wolfram.Engine_13.3.0.0_x64__ztr62y9da0nfr".to_string(),
        family: "Wolfram.Engine".to_string(),
        architecture: 9,
        origin: Some(3),
        path: "C:/Packages/Engine".to_string(),
        version: None,
    };
    let mut builder = WolframAppBuilder::empty();
    load_app_from_package_info(&rec, &mut builder);
    assert_eq!(builder.app_type, Some(WolframAppType::Engine));
    assert_eq!(builder.installation_directory.as_deref(), Some("C:/Packages/Engine"));
    assert_eq!(builder.system_id.as_deref(), Some("Windows-x86-64"));
    assert_eq!(builder.digitally_signed, Some(true));
    assert!(builder.clone().finish(SystemID::Windows_x86_64).is_none());
    let mut with_version = WolframAppBuilder::empty();
    with_version.app_version = Some(AppVersion::parse("13.3.0").unwrap());
    load_app_from_package_info(&rec, &mut with_version);
    assert_eq!(with_version.app_name.as_deref(), Some("Wolfram Engine 13.3"));
    assert!(with_version.finish(SystemID::Windows_x86_64).is_some());

    let versioned = PackageRecord { version: Some(AppVersion::parse("14.0.0").unwrap()), ..rec.clone() };
    let unknown = PackageRecord { family: "Wolfram.Mathematica.Documentation".to_string(), ..versioned.clone() };
    let apps = windows::discover_all(vec![record()], "Windows-x86-64", vec![rec, unknown, versioned], SystemID::Windows_x86_64);
    assert_eq!(apps.len(), 2);
    assert_eq!(apps[0].app_type(), WolframAppType::Mathematica);
    assert_eq!(apps[1].app_type(), WolframAppType::Engine);
    assert_eq!(apps[1].app_version().major(), 14);
    assert_eq!(apps[1].app_name, "Wolfram Engine 14");
}

#[test]
fn csv_header_and_properties() {
    assert_eq!(
        write_csv_header(&[Property::AppType, Property::WolframVersion]),
        "App type,Wolfram Language version\n"
    );
    assert_eq!(write_csv_header(&[]), "\n");
    assert_eq!(Property::variants().len(), 5);
    let apps = linux::discover_all(
        vec![Candidate { dir: "/root/Mathematica/13.1".to_string(), files: mathematica_files() }],
        SystemID::Linux_x86_64,
    );
    assert_eq!(property_value(&apps[0], Property::WolframVersion).unwrap(), "13.1.0");
    assert_eq!(property_value(&apps[0], Property::AppType).unwrap(), "Mathematica");
}
