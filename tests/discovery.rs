use wolfram_app_discovery::app::{Filter, WolframApp};
use wolfram_app_discovery::app_type::WolframAppType;
use wolfram_app_discovery::build_scripts::{
    library_link_c_includes_directory, wstp_c_header_path, wstp_compiler_additions_directory,
    wstp_static_library_path, Discovery,
};
use wolfram_app_discovery::config::{set_print_cargo_build_script_directives, Environment, Settings};
use wolfram_app_discovery::discovery::{
    discover, discover_with_filter, enumeration_choice, explicit_choice, first_default_step,
    helper_choice, DefaultStep,
};
use wolfram_app_discovery::error::{Error, ErrorKind};
use wolfram_app_discovery::platform::{OperatingSystem, SystemID};
use wolfram_app_discovery::version::AppVersion;
use std::cmp::Ordering;

fn app(app_type: WolframAppType, major: u32, minor: u32, revision: u32, dir: &str) -> WolframApp {
    WolframApp {
        app_name: "test".to_string(),
        app_type,
        app_version: AppVersion { major, minor, revision, minor_revision: None, build_code: None },
        app_directory: dir.to_string(),
        app_executable: None,
        embedded_player: None,
        host: SystemID::Linux_x86_64,
    }
}

fn dirs(apps: &[WolframApp]) -> Vec<String> {
    apps.iter().map(|a| a.app_directory()).collect()
}

#[test]
fn newer_version_ranks_first() {
    let old = app(WolframAppType::Mathematica, 13, 2, 0, "/old");
    let new = app(WolframAppType::Mathematica, 13, 2, 1, "/new");
    assert_eq!(dirs(&discover(vec![old.clone(), new.clone()])), vec!["/new", "/old"]);
    assert_eq!(dirs(&discover(vec![new, old])), vec!["/new", "/old"]);
}

#[test]
fn more_useful_type_ranks_first_on_equal_versions() {
    let engine = app(WolframAppType::Engine, 13, 3, 0, "/engine");
    let desktop = app(WolframAppType::Desktop, 13, 3, 0, "/desktop");
    let player = app(WolframAppType::Player, 13, 3, 0, "/player");
    let ranked = discover(vec![player, engine, desktop]);
    assert_eq!(dirs(&ranked), vec!["/desktop", "/engine", "/player"]);
}

#[test]
fn missing_version_ranks_last() {
    let unknown = app(WolframAppType::Desktop, 0, 0, 0, "/unknown");
    let old = app(WolframAppType::Player, 11, 0, 0, "/old");
    assert_eq!(dirs(&discover(vec![unknown, old])), vec!["/old", "/unknown"]);
    assert!(discover(Vec::new()).is_empty());
}

#[test]
fn best_order_compares_version_then_type() {
    let a = app(WolframAppType::Engine, 13, 3, 0, "/a");
    let b = app(WolframAppType::Mathematica, 13, 2, 0, "/b");
    let c = app(WolframAppType::Mathematica, 13, 3, 0, "/c");
    assert_eq!(WolframApp::best_order(&a, &b), Ordering::Greater);
    assert_eq!(WolframApp::best_order(&a, &c), Ordering::Less);
    assert_eq!(WolframApp::best_order(&c, &c), Ordering::Equal);
}

#[test]
fn filter_excludes_other_types() {
    let found = vec![
        app(WolframAppType::Engine, 13, 3, 0, "/engine"),
        app(WolframAppType::Mathematica, 13, 1, 0, "/mma"),
        app(WolframAppType::Player, 14, 0, 0, "/player"),
    ];
    let filter = Filter { app_types: Some(vec![WolframAppType::Mathematica, WolframAppType::Engine]) };
    let kept = discover_with_filter(found.clone(), &filter);
    assert_eq!(dirs(&kept), vec!["/engine", "/mma"]);
    let all = discover_with_filter(found.clone(), &Filter::allow_all());
    assert_eq!(dirs(&all), dirs(&discover(found)));
}

#[test]
fn filter_check_reports_the_type() {
    let filter = Filter { app_types: Some(vec![WolframAppType::Desktop]) };
    let engine = app(WolframAppType::Engine, 13, 0, 0, "/e");
    assert!(filter.check_app(&engine).is_err());
    assert!(Filter::allow_all().check_app(&engine).is_ok());
}

#[test]
fn app_directory_variable_wins() {
    let env = Environment { wolfram_app_directory: Some("/chosen".to_string()), ..Default::default() };
    let newer = app(WolframAppType::Desktop, 14, 0, 0, "/newer");
    let result = WolframApp::try_default(
        &env,
        |_dir: String| -> Result<WolframApp, Error> { panic!("installation directory not expected") },
        |dir: String| Ok(app(WolframAppType::Player, 12, 0, 0, &dir)),
        || -> Result<Option<String>, Error> { panic!("helper must not run") },
        || -> Vec<WolframApp> { panic!("enumeration must not run") },
    )
    .unwrap();
    assert_eq!(result.app_directory(), "/chosen");
    assert_ne!(result.app_directory(), newer.app_directory());
    assert!(matches!(first_default_step(&env), DefaultStep::ExplicitAppDirectory { .. }));
}

#[test]
fn app_directory_variable_filter_mismatch_is_fatal() {
    let env = Environment { wolfram_app_directory: Some("/chosen".to_string()), ..Default::default() };
    let filter = Filter { app_types: Some(vec![WolframAppType::Mathematica]) };
    let err = WolframApp::try_default_with_filter(
        &filter,
        &env,
        |_dir: String| -> Result<WolframApp, Error> { panic!("installation directory not expected") },
        |dir: String| Ok(app(WolframAppType::Engine, 13, 0, 0, &dir)),
        || -> Result<Option<String>, Error> { panic!("helper must not run") },
        || vec![app(WolframAppType::Mathematica, 13, 0, 0, "/mma")],
    )
    .unwrap_err();
    match err.kind() {
        ErrorKind::SpecifiedAppDoesNotMatchFilter { environment_variable, .. } => {
            assert_eq!(*environment_variable, "WOLFRAM_APP_DIRECTORY");
        },
        other => panic!("unexpected error: {other:?}"),
    }
}

#[test]
fn deprecated_variable_comes_first() {
    let env = Environment {
        rust_wolfram_location: Some("/legacy".to_string()),
        wolfram_app_directory: Some("/chosen".to_string()),
        ..Default::default()
    };
    match first_default_step(&env) {
        DefaultStep::ExplicitInstallationDirectory { variable, dir } => {
            assert_eq!(variable, "RUST_WOLFRAM_LOCATION");
            assert_eq!(dir, "/legacy");
        },
        other => panic!("unexpected step: {other:?}"),
    }
    assert!(matches!(first_default_step(&Environment::default()), DefaultStep::QueryHelper));
}

#[test]
fn helper_and_enumeration_fallbacks() {
    let env = Environment::default();
    let filter = Filter { app_types: Some(vec![WolframAppType::Mathematica]) };
    let found = WolframApp::try_default_with_filter(
        &filter,
        &env,
        |dir: String| Ok(app(WolframAppType::Engine, 14, 0, 0, &dir)),
        |_dir: String| -> Result<WolframApp, Error> { panic!("app directory not expected") },
        || Ok(Some("/helper".to_string())),
        || vec![app(WolframAppType::Mathematica, 13, 0, 0, "/mma"), app(WolframAppType::Engine, 14, 0, 0, "/e")],
    )
    .unwrap();
    assert_eq!(found.app_directory(), "/mma");

    let none = WolframApp::try_default(
        &env,
        |_dir: String| -> Result<WolframApp, Error> { panic!("no helper answer") },
        |_dir: String| -> Result<WolframApp, Error> { panic!("app directory not expected") },
        || Ok(None),
        || Vec::new(),
    )
    .unwrap_err();
    match none.kind() {
        ErrorKind::Undiscoverable { environment_variable, .. } => {
            assert_eq!(*environment_variable, Some("WOLFRAM_APP_DIRECTORY"));
        },
        other => panic!("unexpected error: {other:?}"),
    }
}

#[test]
fn helper_choice_cases() {
    let filter = Filter { app_types: Some(vec![WolframAppType::Desktop]) };
    let desktop = app(WolframAppType::Desktop, 13, 0, 0, "/d");
    assert!(matches!(helper_choice(&filter, Ok(desktop)), Some(Ok(_))));
    assert!(helper_choice(&filter, Ok(app(WolframAppType::Player, 13, 0, 0, "/p"))).is_none());
    let unsupported = Error::platform_unsupported("op", OperatingSystem::Linux);
    assert!(helper_choice(&filter, Err(unsupported)).is_none());
    assert!(matches!(helper_choice(&filter, Err(Error::other("x".to_string()))), Some(Err(_))));
    let explicit = explicit_choice(&filter, "VAR", Err(Error::other("broken".to_string())));
    assert!(matches!(explicit.unwrap_err().kind(), ErrorKind::Other(_)));
    assert!(enumeration_choice(&filter, vec![app(WolframAppType::Player, 13, 0, 0, "/p")]).is_err());
}

#[test]
fn installation_paths_on_each_platform() {
    let mut mac = app(WolframAppType::Mathematica, 13, 0, 0, "/Applications/Mathematica.app");
    mac.host = SystemID::MacOSX_ARM64;
    assert_eq!(mac.installation_directory(), "/Applications/Mathematica.app/Contents");
    let linux = app(WolframAppType::Mathematica, 13, 1, 0, "/usr/local/Wolfram/Mathematica/13.1");
    assert_eq!(linux.installation_directory(), "/usr/local/Wolfram/Mathematica/13.1");
    assert_eq!(linux.wstp_developer_kit_directory(), "/usr/local/Wolfram/Mathematica/13.1/SystemFiles/Links/WSTP/DeveloperKit");
    let err = linux.kernel_executable_path().unwrap_err();
    match err.kind() {
        ErrorKind::UnexpectedAppLayout { path, .. } => {
            assert_eq!(path, "/usr/local/Wolfram/Mathematica/13.1/Executables/WolframKernel");
        },
        other => panic!("unexpected error: {other:?}"),
    }
    let err = linux.wolframscript_executable_path().unwrap_err();
    match err.kind() {
        ErrorKind::UnexpectedAppLayout { path, .. } => {
            assert_eq!(path, "/usr/local/Wolfram/Mathematica/13.1/SystemFiles/Kernel/Binaries/Linux-x86-64/wolframscript");
        },
        other => panic!("unexpected error: {other:?}"),
    }
    assert!(linux.library_link_c_includes_directory().is_err());
    assert!(linux.wstp_sdks(Vec::new()).is_err());
}

#[test]
fn engine_delegates_to_its_embedded_player() {
    let mut engine = app(WolframAppType::Engine, 13, 3, 0, "/Applications/Wolfram Engine.app");
    engine.host = SystemID::MacOSX_x86_64;
    let location = engine.embedded_player_location().unwrap();
    assert_eq!(location, "/Applications/Wolfram Engine.app/Contents/Resources/Wolfram Player.app");
    let mut player = app(WolframAppType::Player, 13, 3, 0, &location);
    player.host = SystemID::MacOSX_x86_64;
    let engine = engine.with_embedded_player(Ok(player)).unwrap();
    assert!(engine.installation_directory().contains("Wolfram Player.app"));
    let err = engine.wolframscript_executable_path().unwrap_err();
    match err.kind() {
        ErrorKind::UnexpectedAppLayout { path, .. } => assert!(path.ends_with("MacOS/wolframscript")),
        other => panic!("unexpected error: {other:?}"),
    }
    let broken = app(WolframAppType::Engine, 13, 3, 0, "/e").with_embedded_player(Err(Error::other("gone".to_string())));
    assert!(matches!(broken.unwrap_err().kind(), ErrorKind::Other(_)));
}

#[test]
fn wolfram_version_needs_a_major_number() {
    assert_eq!(app(WolframAppType::Engine, 13, 2, 1, "/e").wolfram_version().unwrap().patch(), 1);
    assert!(app(WolframAppType::Engine, 0, 2, 1, "/e").wolfram_version().is_err());
}

#[test]
fn build_script_lookups() {
    let env = Environment::default();
    let err = wstp_c_header_path(None, &env, Vec::new(), SystemID::Linux_x86_64).unwrap_err();
    assert_eq!(
        err.kind(),
        &ErrorKind::Undiscoverable {
            resource: "WSTP CompilerAdditions directory".into(),
            environment_variable: Some("WSTP_COMPILER_ADDITIONS_DIRECTORY"),
        }
    );

    let env = Environment {
        wstp_compiler_additions_directory: Some("/nonexistent-additions".to_string()),
        ..Default::default()
    };
    let err = wstp_c_header_path(None, &env, Vec::new(), SystemID::Linux_x86_64).unwrap_err();
    assert_eq!(
        err.kind(),
        &ErrorKind::UnexpectedEnvironmentValueLayout {
            resource_name: "wstp.h C header file",
            env_var: "WSTP_COMPILER_ADDITIONS_DIRECTORY",
            env_value: "/nonexistent-additions".to_string(),
            derived_path: "/nonexistent-additions/wstp.h".to_string(),
        }
    );
    let err = wstp_static_library_path(None, &env, Vec::new(), SystemID::Linux_x86_64).unwrap_err();
    match err.kind() {
        ErrorKind::UnexpectedEnvironmentValueLayout { derived_path, .. } => {
            assert_eq!(derived_path, "/nonexistent-additions/libWSTP64i4.a");
        },
        other => panic!("unexpected error: {other:?}"),
    }
    let found = wstp_compiler_additions_directory(None, &env, Vec::new(), SystemID::Linux_x86_64).unwrap();
    assert_eq!(
        found,
        Discovery::Env { variable: "WSTP_COMPILER_ADDITIONS_DIRECTORY", path: "/nonexistent-additions".to_string() }
    );
    assert_eq!(found.into_path_buf(), "/nonexistent-additions");

    let env = Environment { wolfram_c_includes: Some("/inc".to_string()), ..Default::default() };
    let found = library_link_c_includes_directory(None, &env).unwrap();
    assert_eq!(found, Discovery::Env { variable: "WOLFRAM_C_INCLUDES", path: "/inc".to_string() });
    assert!(library_link_c_includes_directory(None, &Environment::default()).is_err());
    let err = wstp_static_library_path(None, &Environment::default(), Vec::new(), SystemID::Android).unwrap_err();
    assert!(matches!(err.kind(), ErrorKind::UnsupportedPlatform { .. }));
}

#[test]
fn print_directive_setting_swaps() {
    let mut settings = Settings::default();
    assert!(!set_print_cargo_build_script_directives(&mut settings, true));
    assert!(set_print_cargo_build_script_directives(&mut settings, false));
    assert!(!settings.print_cargo_build_script_directives);
}

#[test]
fn error_messages() {
    let e = Error::undiscoverable("thing".to_string(), Some("VAR"));
    assert_eq!(e.message(), "Wolfram app error: unable to locate thing. Hint: try setting VAR");
    let e = Error::unexpected_layout("wstp.h C header file", "/d".to_string(), "/d/x".to_string());
    assert_eq!(
        e.message(),
        "Wolfram app error: in component at '/d', wstp.h C header file does not exist at the expected location: /d/x"
    );
    let e = Error::platform_unsupported("op()", OperatingSystem::Other);
    assert_eq!(e.message(), "Wolfram app error: operation 'op()' is not yet implemented for this platform: Other");
    assert_eq!(Error::io("disk".to_string()).message(), "Wolfram app error: IO error during discovery: disk");
}
