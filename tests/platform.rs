use wolfram_app_discovery::app_type::WolframAppType;
use wolfram_app_discovery::error::ErrorKind;
use wolfram_app_discovery::platform::{OperatingSystem, SystemID};
use wolfram_app_discovery::error::Error;
use wolfram_app_discovery::sdk::{select_sdk, wstp_static_library_file_name, WstpSdk};
use wolfram_app_discovery::windows::{
    build_number_from_capture, parse_build_number, registry_queries, version_from_packed,
};
use wolfram_app_discovery::version::AppVersion;

#[test]
fn system_id_text_round_trip() {
    for id in SystemID::all() {
        assert_eq!(SystemID::from_text(id.as_str()), Some(id));
    }
    assert_eq!(SystemID::from_text("Solaris"), None);
    assert_eq!(SystemID::MacOSX_x86_64.as_str(), "MacOSX-x86-64");
}

#[test]
fn system_id_from_rust_target() {
    assert_eq!(SystemID::try_from_rust_target("x86_64-apple-darwin").unwrap(), SystemID::MacOSX_x86_64);
    assert_eq!(SystemID::try_from_rust_target("x86_64-pc-windows-msvc").unwrap(), SystemID::Windows_x86_64);
    assert_eq!(SystemID::try_from_rust_target("armv7-unknown-linux-gnueabihf").unwrap(), SystemID::Linux_ARM);
    let err = SystemID::try_from_rust_target("riscv64gc-unknown-linux-gnu").unwrap_err();
    assert!(matches!(err.kind(), ErrorKind::Other(_)));
}

#[test]
fn static_library_names_follow_the_sdk_platform() {
    assert_eq!(wstp_static_library_file_name(SystemID::MacOSX_ARM64.operating_system()).unwrap(), "libWSTPi4.a");
    assert_eq!(wstp_static_library_file_name(OperatingSystem::Windows).unwrap(), "wstp64i4s.lib");
    assert_eq!(wstp_static_library_file_name(OperatingSystem::Linux).unwrap(), "libWSTP64i4.a");
    let err = wstp_static_library_file_name(OperatingSystem::Other).unwrap_err();
    assert!(matches!(err.kind(), ErrorKind::UnsupportedPlatform { .. }));
}

#[test]
fn sdk_missing_static_library_names_the_path() {
    let dir = "/sdk/Linux-x86-64".to_string();
    let err = WstpSdk::from_layout(dir.clone(), SystemID::Linux_x86_64, true, true, false).unwrap_err();
    match err.kind() {
        ErrorKind::UnexpectedLayout { resource_name, dir: d, path } => {
            assert_eq!(*resource_name, "WSTP static library file");
            assert_eq!(d, &dir);
            assert_eq!(path, "/sdk/Linux-x86-64/CompilerAdditions/libWSTP64i4.a");
        },
        other => panic!("unexpected error: {other:?}"),
    }
}

#[test]
fn sdk_missing_header_names_the_path() {
    let err = WstpSdk::from_layout("/sdk/MacOSX-ARM64".to_string(), SystemID::MacOSX_ARM64, true, false, true).unwrap_err();
    match err.kind() {
        ErrorKind::UnexpectedLayout { path, .. } => {
            assert_eq!(path, "/sdk/MacOSX-ARM64/CompilerAdditions/wstp.h");
        },
        other => panic!("unexpected error: {other:?}"),
    }
    let err = WstpSdk::from_layout("/sdk/x".to_string(), SystemID::Linux, false, true, true).unwrap_err();
    assert!(matches!(err.kind(), ErrorKind::Other(_)));
}

#[test]
fn sdk_complete_layout() {
    let sdk = WstpSdk::from_layout("/k/Windows-x86-64".to_string(), SystemID::Windows_x86_64, true, true, true).unwrap();
    assert_eq!(sdk.system_id(), SystemID::Windows_x86_64);
    assert_eq!(sdk.sdk_dir(), "/k/Windows-x86-64");
    assert_eq!(sdk.wstp_compiler_additions_directory(), "/k/Windows-x86-64/CompilerAdditions");
    assert_eq!(sdk.wstp_c_header_path(), "/k/Windows-x86-64/CompilerAdditions/wstp.h");
    assert_eq!(sdk.wstp_static_library_path(), "/k/Windows-x86-64/CompilerAdditions/wstp64i4s.lib");
}

#[test]
fn sdk_directory_name_must_be_a_system_id() {
    let err = WstpSdk::try_from_directory("/nonexistent/NotASystem".to_string()).unwrap_err();
    assert!(err.message().contains("does not end in a recognized SystemID"));
    // The last component names a platform, so the lookup goes on to the disk.
    let err = WstpSdk::try_from_directory("/nonexistent/Linux-x86-64".to_string()).unwrap_err();
    assert!(err.message().contains("is not a directory"));
}

#[test]
fn product_type_tables() {
    assert_eq!(WolframAppType::from_windows_product_type(1 << 28), Some(WolframAppType::Mathematica));
    assert_eq!(WolframAppType::from_windows_product_type(1 << 15), Some(WolframAppType::Engine));
    assert_eq!(WolframAppType::from_windows_product_type(1), None);
    assert_eq!(WolframAppType::from_bundle_id("COM.WOLFRAM.mathematica"), Some(WolframAppType::Mathematica));
    assert_eq!(WolframAppType::from_bundle_id("com.wolfram.WolframEngine"), Some(WolframAppType::Engine));
    assert_eq!(WolframAppType::from_bundle_id("com.example.app"), None);
    assert_eq!(WolframAppType::from_package_family("Wolfram.AlphaNotebook"), Some(WolframAppType::WolframAlphaNotebookEdition));
    assert_eq!(WolframAppType::from_package_family("Wolfram.Mathematica.Documentation"), None);
    assert_eq!(WolframAppType::variants().len(), 8);
    assert!(WolframAppType::Desktop.ordering_value() > WolframAppType::Mathematica.ordering_value());
}

#[test]
fn license_lines_name_product_types() {
    assert_eq!(WolframAppType::from_license_line("Wolfram Mathematica® License Agreement"), Some(WolframAppType::Mathematica));
    assert_eq!(
        WolframAppType::from_license_line("Free Wolfram Engine(TM) for Developers: Terms and Conditions of Use"),
        Some(WolframAppType::Engine)
    );
    assert_eq!(
        WolframAppType::from_license_line("Free Wolfram Engine™ for Developers: Terms and Conditions of Use"),
        Some(WolframAppType::Engine)
    );
    assert_eq!(WolframAppType::from_license_line("MIT License"), None);
}

#[test]
fn build_numbers_from_registry_keys() {
    assert_eq!(parse_build_number("M-WIN-DEFAULT.13.1.0.8120617"), Some(8120617));
    assert_eq!(parse_build_number("M-WIN-L.Prototype.13.2.0.123"), Some(123));
    assert_eq!(parse_build_number("42"), Some(42));
    assert_eq!(parse_build_number("not-a-build"), None);
    assert_eq!(build_number_from_capture(Some("17".to_string()), "whatever"), Some(17));
    assert_eq!(build_number_from_capture(None, "99"), Some(99));
    assert_eq!(build_number_from_capture(None, "x"), None);
}

#[test]
fn windows_versions() {
    let v = AppVersion::parse_windows("13.1.0.1").unwrap();
    assert_eq!((v.major(), v.minor(), v.revision(), v.minor_revision()), (13, 1, 0, Some(1)));
    assert!(AppVersion::parse_windows("13.1").is_err());
    let p = version_from_packed(0x0D01_0002).unwrap();
    assert_eq!((p.major(), p.minor(), p.revision(), p.minor_revision()), (13, 1, 0, Some(2)));
    assert!(version_from_packed(0).is_none());
}

#[test]
fn registry_query_plan() {
    let single = registry_queries(true, false, "Windows-x86-64");
    assert_eq!(single.len(), 2);
    assert_eq!(single[0].system_id, "Windows");
    let emulated = registry_queries(false, true, "Windows-x86-64");
    assert_eq!(emulated.len(), 3);
    assert_eq!(emulated[0].system_id, "Windows-x86-64");
    assert_eq!(emulated[1].system_id, "Windows");
    assert!(emulated[2].current_user);
}

#[test]
fn system_id_text_from_target() {
    use_system_id_from_target();
}

fn use_system_id_from_target() {
    assert_eq!(wolfram_app_discovery::platform::system_id_from_target("aarch64-apple-darwin").unwrap(), "MacOSX-ARM64");
    assert!(wolfram_app_discovery::platform::system_id_from_target("wasm32-unknown-unknown").is_err());
    assert_eq!(wolfram_app_discovery::windows::package_system_id(12), "Windows-ARM64");
    assert_eq!(wolfram_app_discovery::windows::host_system_id(0), "Windows");
}

#[test]
fn select_sdk_picks_the_first_kit_for_the_target() {
    let linux = WstpSdk::from_layout("/k/Linux-x86-64".to_string(), SystemID::Linux_x86_64, true, true, true).unwrap();
    let mac = WstpSdk::from_layout("/k/MacOSX-ARM64".to_string(), SystemID::MacOSX_ARM64, true, true, true).unwrap();
    let second = WstpSdk::from_layout("/j/Linux-x86-64".to_string(), SystemID::Linux_x86_64, true, true, true).unwrap();
    let sdks = vec![Err(Error::other("bad".to_string())), Ok(mac), Ok(linux), Ok(second)];
    assert_eq!(select_sdk(sdks.clone(), SystemID::Linux_x86_64).unwrap().sdk_dir(), "/k/Linux-x86-64");
    let err = select_sdk(sdks, SystemID::Windows).unwrap_err();
    assert!(matches!(err.kind(), ErrorKind::Other(_)));
}
