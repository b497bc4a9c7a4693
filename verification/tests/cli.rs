use aur_build::cli::api::{join_strings, push_rebuild_target, rebuild_payload, select_single_package, PackageLookupError};
use aur_build::cli::args::{choose_connection, Args, Commands, ConnectionError, WorkerCommands};
use aur_build::cli::commands::{compact_line, count_statuses, decimal_string, package_row, status_summary};
use aur_build::cli::profile::{Profile, ProfileConfig, ProfileError};
use aur_build::cli::utils::{get_color_from_package_status, get_color_from_worker_status, UnifiedColor};
use aur_build::common::models::{PackageStatus, WorkerStatus};
use aur_build::common::responses::PackageResponse;

fn profile(name: &str, url: &str, key: &str) -> Profile {
    Profile { name: name.to_string(), base_url: url.to_string(), api_key: key.to_string() }
}

#[test]
fn first_profile_becomes_default() {
    let mut config = ProfileConfig::new();
    assert!(config.get_default_profile().is_none());
    config.add_profile(profile("home", "http://home", "k1")).unwrap();
    config.add_profile(profile("work", "http://work", "k2")).unwrap();
    assert_eq!("home", config.get_default_profile_name());
    assert_eq!("http://home", config.get_default_profile().unwrap().base_url);
    assert_eq!(2, config.get_profiles().len());
}

#[test]
fn duplicate_profile_is_refused() {
    let mut config = ProfileConfig::new();
    config.add_profile(profile("home", "a", "b")).unwrap();
    let err = config.add_profile(profile("home", "c", "d")).unwrap_err();
    assert_eq!(ProfileError::AlreadyExists, err);
    assert_eq!("Profile already exists with this name", err.message());
    assert_eq!("a", config.get_profile_by_name(&"home".to_string()).unwrap().base_url);
}

#[test]
fn set_default_requires_existing_profile() {
    let mut config = ProfileConfig::new();
    config.add_profile(profile("home", "a", "b")).unwrap();
    config.add_profile(profile("work", "c", "d")).unwrap();
    let err = config.set_default_profile(&"nope".to_string()).unwrap_err();
    assert_eq!("Profile does not exist", err.message());
    assert_eq!("home", config.get_default_profile_name());
    config.set_default_profile(&"work".to_string()).unwrap();
    assert_eq!("c", config.get_default_profile().unwrap().base_url);
}

#[test]
fn remove_profile_keeps_others_and_default_name() {
    let mut config = ProfileConfig::new();
    config.add_profile(profile("home", "a", "b")).unwrap();
    config.add_profile(profile("work", "c", "d")).unwrap();
    config.add_profile(profile("lab", "e", "f")).unwrap();
    config.remove_profile(&"home".to_string()).unwrap();
    assert!(config.get_profile_by_name(&"home".to_string()).is_none());
    let names: Vec<&str> = config.get_profiles().iter().map(|p| p.name.as_str()).collect();
    assert_eq!(vec!["work", "lab"], names);
    assert_eq!("home", config.get_default_profile_name());
    assert!(config.get_default_profile().is_none());
    assert_eq!("No profile exist with that name", config.remove_profile(&"home".to_string()).unwrap_err().message());
}

fn args(base_url: Option<&str>, api_key: Option<&str>, profile: Option<&str>) -> Args {
    Args {
        base_url: base_url.map(|s| s.to_string()),
        api_key: api_key.map(|s| s.to_string()),
        profile: profile.map(|s| s.to_string()),
        command: Commands::Workers { command: WorkerCommands::List {} },
    }
}

#[test]
fn connection_prefers_command_line() {
    let mut config = ProfileConfig::new();
    config.add_profile(profile("home", "http://home", "k1")).unwrap();
    let c = choose_connection(&args(Some("http://x"), Some("kx"), Some("home")), &config).ok().unwrap();
    assert_eq!("http://x", c.base_url);
    assert_eq!("kx", c.api_key);
    assert!(c.profile_name.is_none());

    let c = choose_connection(&args(Some("http://x"), None, None), &config).ok().unwrap();
    assert_eq!("http://home", c.base_url);
    assert_eq!(Some("home".to_string()), c.profile_name);

    match choose_connection(&args(None, None, Some("nope")), &config) {
        Err(ConnectionError::ProfileNotFound { name }) => assert_eq!("nope", name),
        _ => panic!("expected a missing profile"),
    }
    let empty = ProfileConfig::new();
    assert!(matches!(choose_connection(&args(None, None, None), &empty), Err(ConnectionError::NoDefaultProfile)));
}

fn response(id: i32, name: &str) -> PackageResponse {
    PackageResponse {
        id,
        name: name.to_string(),
        run_before: None,
        status: PackageStatus::PENDING,
        last_built: None,
        files: vec![],
        last_built_version: None,
        last_error: None,
    }
}

#[test]
fn package_lookup_needs_a_single_match() {
    assert_eq!(7, select_single_package(vec![response(7, "a")]).ok().unwrap().id);
    assert!(matches!(select_single_package(vec![]), Err(PackageLookupError::NotFound)));
    match select_single_package(vec![response(1, "a"), response(2, "ab")]) {
        Err(PackageLookupError::Ambiguous { names }) => assert_eq!(vec!["a".to_string(), "ab".to_string()], names),
        _ => panic!("expected an ambiguous match"),
    }
}

#[test]
fn rebuild_payload_empty_means_all() {
    let p = rebuild_payload(vec![], true);
    assert!(p.packages.is_none());
    assert_eq!(Some(true), p.force);
    let p = rebuild_payload(vec![3, 4], false);
    assert_eq!(Some(vec![3, 4]), p.packages);
    assert_eq!(Some(false), p.force);
}

#[test]
fn status_counts() {
    let c = count_statuses(&vec![
        PackageStatus::PENDING,
        PackageStatus::BUILT,
        PackageStatus::BUILT,
        PackageStatus::UNKNOWN,
        PackageStatus::FAILED,
    ]);
    assert_eq!((1, 0, 2, 1), (c.pending, c.building, c.built, c.failed));
}

#[test]
fn colors() {
    assert_eq!(UnifiedColor::Red, get_color_from_worker_status(&WorkerStatus::UNKNOWN));
    assert_eq!(UnifiedColor::Yellow, get_color_from_worker_status(&WorkerStatus::INIT));
    assert_eq!(UnifiedColor::Green, get_color_from_worker_status(&WorkerStatus::STANDBY));
    assert_eq!(UnifiedColor::Magenta, get_color_from_worker_status(&WorkerStatus::DISPATCHED));
    assert_eq!(UnifiedColor::Magenta, get_color_from_worker_status(&WorkerStatus::UPDATING));
    assert_eq!(UnifiedColor::Cyan, get_color_from_worker_status(&WorkerStatus::WORKING));
    assert_eq!(UnifiedColor::Blue, get_color_from_worker_status(&WorkerStatus::UPLOADING));
    assert_eq!(UnifiedColor::Yellow, get_color_from_worker_status(&WorkerStatus::CLEANING));
    assert_eq!(UnifiedColor::White, get_color_from_package_status(&PackageStatus::UNKNOWN));
    assert_eq!(UnifiedColor::Magenta, get_color_from_package_status(&PackageStatus::PENDING));
    assert_eq!(UnifiedColor::Yellow, get_color_from_package_status(&PackageStatus::BUILDING));
    assert_eq!(UnifiedColor::Green, get_color_from_package_status(&PackageStatus::BUILT));
    assert_eq!(UnifiedColor::Red, get_color_from_package_status(&PackageStatus::FAILED));
}

fn listed(name: &str, status: PackageStatus, version: Option<&str>, last_built: Option<i64>) -> PackageResponse {
    PackageResponse {
        id: 1,
        name: name.to_string(),
        run_before: None,
        status,
        last_built,
        files: vec![],
        last_built_version: version.map(|v| v.to_string()),
        last_error: None,
    }
}

#[test]
fn package_row_texts() {
    let (name, status, version, never) = package_row(&listed("pkg", PackageStatus::BUILT, Some("1.0-1"), Some(5)));
    assert_eq!("pkg", name);
    assert_eq!("BUILT", status);
    assert_eq!("1.0-1", version);
    assert!(!never);
    let (_, status, version, never) = package_row(&listed("x", PackageStatus::PENDING, None, None));
    assert_eq!("PENDING", status);
    assert_eq!("None", version);
    assert!(never);
}

#[test]
fn compact_line_joins_with_bars() {
    assert_eq!("a | BUILT | 1 | Never", compact_line("a", "BUILT", "1", "Never"));
}

#[test]
fn status_summary_line() {
    let counts = count_statuses(&vec![
        PackageStatus::PENDING,
        PackageStatus::BUILT,
        PackageStatus::BUILT,
        PackageStatus::FAILED,
    ]);
    assert_eq!("Pending: 1, Building: 0, Built: 2, Failed: 1", status_summary(&counts));
}

#[test]
fn decimal_strings() {
    assert_eq!("0", decimal_string(0));
    assert_eq!("7", decimal_string(7));
    assert_eq!("10", decimal_string(10));
    assert_eq!("1234567890", decimal_string(1234567890));
    assert_eq!(usize::MAX.to_string(), decimal_string(usize::MAX));
}

#[test]
fn lookup_error_messages() {
    assert_eq!("Package foo not found", PackageLookupError::NotFound.message("foo"));
    let e = select_single_package(vec![
        listed("foo-a", PackageStatus::BUILT, None, None),
        listed("foo-b", PackageStatus::BUILT, None, None),
    ])
    .err()
    .unwrap();
    assert_eq!("Package foo is not clear, found: foo-a, foo-b", e.message("foo"));
}

#[test]
fn join_strings_with_separator() {
    assert_eq!("", join_strings(&vec![], ", "));
    assert_eq!("a", join_strings(&vec!["a".to_string()], ", "));
    assert_eq!("a, b, c", join_strings(&vec!["a".to_string(), "b".to_string(), "c".to_string()], ", "));
}

#[test]
fn rebuild_targets_resolve_one_name_at_a_time() {
    let mut ids = vec![3];
    assert!(push_rebuild_target(&mut ids, vec![listed("a", PackageStatus::BUILT, None, None)]).is_ok());
    assert_eq!(vec![3, 1], ids);
    assert!(matches!(push_rebuild_target(&mut ids, vec![]), Err(PackageLookupError::NotFound)));
    assert_eq!(vec![3, 1], ids);
    let two = vec![listed("a", PackageStatus::BUILT, None, None), listed("ab", PackageStatus::BUILT, None, None)];
    assert!(matches!(push_rebuild_target(&mut ids, two), Err(PackageLookupError::Ambiguous { .. })));
    assert_eq!(vec![3, 1], ids);
}
