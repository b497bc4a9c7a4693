use aur_build::common::models::{PackageDefinition, PackageStatus};
use aur_build::server::state::{PackageBuildData, PackageState, ServerPackage, State};

fn definition(id: i32, name: &str, run_before: Option<&str>) -> PackageDefinition {
    PackageDefinition {
        package_id: id,
        name: name.to_string(),
        run_before: run_before.map(|s| s.to_string()),
        patches: None,
    }
}

fn state_of(names: &[&str]) -> State {
    let defs: Vec<PackageDefinition> =
        names.iter().enumerate().map(|(i, n)| definition(i as i32 + 1, n, None)).collect();
    State::new(&defs, "/srv/serve".to_string())
}

fn statuses(state: &State) -> Vec<(String, PackageStatus)> {
    state
        .get_packages()
        .iter()
        .map(|p| (p.get_package_name().clone(), p.get_state().status))
        .collect()
}

#[test]
fn new_state_keeps_first_definition_of_each_name() {
    let defs = vec![
        definition(1, "alpha", Some("echo first")),
        definition(2, "beta", None),
        definition(3, "alpha", Some("echo second")),
    ];
    let state = State::new(&defs, "/srv/serve".to_string());
    let packages = state.get_packages();
    assert_eq!(2, packages.len());
    assert_eq!("alpha", packages[0].get_package_name().as_str());
    assert_eq!("beta", packages[1].get_package_name().as_str());
    let response = packages[0].get_response();
    assert_eq!(1, response.id);
    assert_eq!(Some("echo first".to_string()), response.run_before);
    assert_eq!(PackageStatus::PENDING, response.status);
    assert!(response.last_built.is_none());
    assert!(response.files.is_empty());
    assert!(response.last_error.is_none());
    assert_eq!("/srv/serve", state.get_path().as_str());
}

#[test]
fn fresh_package_state_is_pending_and_unbuilt() {
    let s = PackageState::new();
    assert_eq!(PackageStatus::PENDING, s.status);
    assert!(s.last_built.is_none());
    assert!(s.files.is_empty());
    assert!(s.last_built_version.is_none());
}

#[test]
fn next_pending_package_is_first_pending_in_order() {
    let mut state = state_of(&["a", "b", "c"]);
    state.set_package_status(&"a".to_string(), PackageStatus::BUILT);
    let next = state.get_next_pending_package().unwrap();
    assert_eq!("b", next.get_package_name().as_str());

    state.set_package_status(&"b".to_string(), PackageStatus::BUILDING);
    state.set_package_status(&"c".to_string(), PackageStatus::FAILED);
    assert!(state.get_next_pending_package().is_none());
}

#[test]
fn set_all_packages_pending_spares_building() {
    let mut state = state_of(&["a", "b", "c"]);
    state.set_package_status(&"a".to_string(), PackageStatus::BUILT);
    state.set_package_status(&"b".to_string(), PackageStatus::BUILDING);
    state.set_package_status(&"c".to_string(), PackageStatus::FAILED);
    state.set_all_packages_pending();
    assert_eq!(
        vec![
            ("a".to_string(), PackageStatus::PENDING),
            ("b".to_string(), PackageStatus::BUILDING),
            ("c".to_string(), PackageStatus::PENDING),
        ],
        statuses(&state)
    );
}

#[test]
fn set_status_of_unknown_package_changes_nothing() {
    let mut state = state_of(&["a"]);
    state.set_package_status(&"zzz".to_string(), PackageStatus::FAILED);
    assert_eq!(vec![("a".to_string(), PackageStatus::PENDING)], statuses(&state));
}

#[test]
fn build_data_sets_time_version_and_files_and_keeps_status() {
    let mut state = state_of(&["a", "b"]);
    state.set_package_status(&"a".to_string(), PackageStatus::BUILT);
    state.set_package_build_data(
        &"a".to_string(),
        PackageBuildData {
            time: Some(1_700_000_000),
            version: Some("1.2.3-1".to_string()),
            package_files: vec!["a-1.2.3-1-x86_64.pkg.tar.zst".to_string()],
        },
    );
    let a = &state.get_packages()[0];
    assert_eq!(PackageStatus::BUILT, a.get_state().status);
    assert_eq!(Some(1_700_000_000), a.get_state().last_built);
    assert_eq!(Some("1.2.3-1".to_string()), a.get_state().last_built_version);
    assert_eq!(vec!["a-1.2.3-1-x86_64.pkg.tar.zst".to_string()], a.get_state().files);
    let b = &state.get_packages()[1];
    assert!(b.get_state().last_built.is_none());

    let job = a.get_package_job();
    assert_eq!(1, job.definition.package_id);
    assert_eq!("a", job.definition.name.as_str());
    assert_eq!(Some("1.2.3-1".to_string()), job.last_built_version);
}

#[test]
fn saved_states_restore_to_the_same_state() {
    let mut state = state_of(&["a", "b"]);
    state.set_package_status(&"a".to_string(), PackageStatus::FAILED);
    state.set_package_build_data(
        &"b".to_string(),
        PackageBuildData { time: Some(42), version: Some("2".to_string()), package_files: vec![] },
    );
    let saved = state.package_states();
    assert_eq!(2, saved.len());
    assert_eq!("a", saved[0].0.as_str());
    assert_eq!(PackageStatus::FAILED, saved[0].1.status);

    let mut fresh = state_of(&["a", "b"]);
    fresh.restore(saved);
    assert_eq!(statuses(&state), statuses(&fresh));
    assert_eq!(Some(42), fresh.get_packages()[1].get_state().last_built);
    assert_eq!(Some("2".to_string()), fresh.get_packages()[1].get_state().last_built_version);
}

#[test]
fn restore_drops_states_of_unknown_packages() {
    let mut state = state_of(&["a"]);
    let mut built = PackageState::new();
    built.status = PackageStatus::BUILT;
    let mut other = PackageState::new();
    other.status = PackageStatus::FAILED;
    state.restore(vec![("ghost".to_string(), other), ("a".to_string(), built)]);
    assert_eq!(vec![("a".to_string(), PackageStatus::BUILT)], statuses(&state));
}

#[test]
fn rebuild_marks_only_old_built_or_failed_packages() {
    let mut state = state_of(&["old-built", "new-built", "old-failed", "old-building", "never"]);
    let data = |t: i64| PackageBuildData { time: Some(t), version: None, package_files: vec![] };
    state.set_package_build_data(&"old-built".to_string(), data(100));
    state.set_package_status(&"old-built".to_string(), PackageStatus::BUILT);
    state.set_package_build_data(&"new-built".to_string(), data(950));
    state.set_package_status(&"new-built".to_string(), PackageStatus::BUILT);
    state.set_package_build_data(&"old-failed".to_string(), data(100));
    state.set_package_status(&"old-failed".to_string(), PackageStatus::FAILED);
    state.set_package_build_data(&"old-building".to_string(), data(100));
    state.set_package_status(&"old-building".to_string(), PackageStatus::BUILDING);
    state.set_package_status(&"never".to_string(), PackageStatus::BUILT);

    state.mark_package_for_rebuild_at(1000, 100);
    assert_eq!(
        vec![
            ("old-built".to_string(), PackageStatus::PENDING),
            ("new-built".to_string(), PackageStatus::BUILT),
            ("old-failed".to_string(), PackageStatus::PENDING),
            ("old-building".to_string(), PackageStatus::BUILDING),
            ("never".to_string(), PackageStatus::BUILT),
        ],
        statuses(&state)
    );
}

#[test]
fn rebuild_interval_is_strict() {
    let mut state = state_of(&["a"]);
    state.set_package_build_data(
        &"a".to_string(),
        PackageBuildData { time: Some(900), version: None, package_files: vec![] },
    );
    state.set_package_status(&"a".to_string(), PackageStatus::BUILT);
    state.mark_package_for_rebuild_at(1000, 100);
    assert_eq!(vec![("a".to_string(), PackageStatus::BUILT)], statuses(&state));
    state.mark_package_for_rebuild_at(1001, 100);
    assert_eq!(vec![("a".to_string(), PackageStatus::PENDING)], statuses(&state));
}

#[test]
fn rebuild_with_the_clock_spares_recent_builds() {
    let mut state = state_of(&["a"]);
    state.set_package_build_data(
        &"a".to_string(),
        PackageBuildData { time: Some(i64::MAX), version: None, package_files: vec![] },
    );
    state.set_package_status(&"a".to_string(), PackageStatus::BUILT);
    state.mark_package_for_rebuild(3600).unwrap();
    assert_eq!(vec![("a".to_string(), PackageStatus::BUILT)], statuses(&state));
}

#[test]
fn server_package_setters() {
    let mut p = ServerPackage::from_package_definition(definition(7, "pkg", None));
    p.set_status(PackageStatus::BUILDING);
    assert_eq!(PackageStatus::BUILDING, p.get_state().status);
    let mut s = PackageState::new();
    s.last_built = Some(5);
    p.set_state(s);
    assert_eq!(PackageStatus::PENDING, p.get_state().status);
    assert_eq!(Some(5), p.get_response().last_built);
    assert_eq!(7, p.get_response().id);
}
