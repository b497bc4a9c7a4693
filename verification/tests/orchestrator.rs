use aur_build::common::messages::WebsocketMessage;
use aur_build::common::models::{PackageStatus, WorkerStatus};
use aur_build::server::config::LegacyPackageDefinition;
use aur_build::server::orchestrator::Orchestrator;
use aur_build::server::package_store::{PackageInsert, PackagePatchInsert, PackageStore};
use aur_build::server::repository::Repository;

fn get_instance() -> Orchestrator {
    let mut store = PackageStore::in_memory();
    store.create_package(PackageInsert { name: "test-package".to_string(), run_before: None }).unwrap();
    Orchestrator::new(store, "api_key".to_string(), None, &vec![])
}

fn repository() -> Repository {
    Repository::new("/tmp/aur-build-server-test/repo".to_string(), "/tmp/aur-build-server-test/logs".to_string())
}

#[test]
fn handle_package_build_output_success_test() {
    let mut orchestrator = get_instance();

    let outcome = orchestrator
        .handle_package_build_output(
            &repository(),
            "test-package",
            Some("11.2.3".to_string()),
            None,
            vec!["aur-build-cli-0.10.0-1-any.pkg.tar.zst".to_string()],
            true,
        )
        .unwrap()
        .unwrap();
    assert!(outcome.version_changed);

    let package = orchestrator.get_package_store().get_package_by_name("test-package").unwrap();
    assert_eq!(PackageStatus::BUILT, package.get_status());
    assert!(package.get_last_built().is_some());
    assert_eq!("11.2.3", package.last_built_version.as_ref().unwrap().as_str());
    assert_eq!(1, package.get_files().len());
    assert_eq!("aur-build-cli-0.10.0-1-any.pkg.tar.zst", package.get_files()[0].as_str());
}

#[test]
fn handle_package_build_output_fail_test() {
    let mut orchestrator = get_instance();

    let outcome = orchestrator
        .handle_package_build_output(
            &repository(),
            "test-package",
            Some("11.2.3".to_string()),
            Some("Error test".to_string()),
            vec![],
            true,
        )
        .unwrap()
        .unwrap();
    assert!(!outcome.version_changed);

    let package = orchestrator.get_package_store().get_package_by_name("test-package").unwrap();
    assert_eq!(PackageStatus::FAILED, package.get_status());
    assert!(package.get_last_built().is_some());
    assert!(package.last_built_version.is_none());
    assert_eq!(0, package.get_files().len());
    assert_eq!(Some("Error test".to_string()), package.last_error);
}

#[test]
fn build_output_for_unknown_package_is_ignored() {
    let mut orchestrator = get_instance();
    let outcome = orchestrator.handle_package_build_output_at(&repository(), "nope", None, None, vec![], true, 10);
    assert!(outcome.is_none());
    let package = orchestrator.get_package_store().get_package_by_name("test-package").unwrap();
    assert_eq!(PackageStatus::PENDING, package.get_status());
}

#[test]
fn repository_failure_marks_package_failed() {
    let mut orchestrator = get_instance();
    let outcome = orchestrator
        .handle_package_build_output_at(
            &repository(),
            "test-package",
            Some("1.0".to_string()),
            None,
            vec!["a.pkg.tar.zst".to_string()],
            false,
            1234,
        )
        .unwrap();
    assert!(outcome.version_changed);
    let package = orchestrator.get_package_store().get_package_by_name("test-package").unwrap();
    assert_eq!(PackageStatus::FAILED, package.get_status());
    assert_eq!(Some("Failed to add package to repository".to_string()), package.last_error);
    assert_eq!(Some(1234), package.get_last_built());
    assert_eq!(Some("1.0".to_string()), package.last_built_version);
}

#[test]
fn seeding_adds_only_missing_packages() {
    let mut store = PackageStore::in_memory();
    store.create_package(PackageInsert { name: "a".to_string(), run_before: None }).unwrap();
    let defs = vec![
        LegacyPackageDefinition { name: "a".to_string(), run_before: Some("x".to_string()), patches: None },
        LegacyPackageDefinition { name: "b".to_string(), run_before: Some("y".to_string()), patches: None },
    ];
    let mut orchestrator = Orchestrator::new(store, "k".to_string(), Some(60), &defs);
    let packages = orchestrator.get_package_store().get_packages();
    assert_eq!(2, packages.len());
    assert_eq!(None, packages[0].run_before);
    assert_eq!("b", packages[1].get_name());
    assert_eq!(Some("y".to_string()), packages[1].run_before);
}

fn authenticated_worker(orchestrator: &mut Orchestrator) -> usize {
    let id = orchestrator.add_worker();
    orchestrator.handle_worker_message(id, WebsocketMessage::Authenticate { api_key: "api_key".to_string() });
    id
}

#[test]
fn dispatch_needs_an_authenticated_standby_worker() {
    let mut orchestrator = get_instance();
    assert!(orchestrator.next_dispatch().is_none());

    let id = orchestrator.add_worker();
    assert!(orchestrator.next_dispatch().is_none());

    orchestrator.handle_worker_message(id, WebsocketMessage::Authenticate { api_key: "wrong".to_string() });
    assert!(orchestrator.next_dispatch().is_none());

    orchestrator.handle_worker_message(id, WebsocketMessage::Authenticate { api_key: "api_key".to_string() });
    let dispatch = orchestrator.next_dispatch().unwrap();
    assert_eq!(id, dispatch.worker_id);
    assert_eq!(1, dispatch.package_id);
    assert_eq!("test-package", dispatch.job.definition.name);

    let workers = orchestrator.get_worker_manager().get_workers();
    assert_eq!(WorkerStatus::DISPATCHED, workers[0].status);
    assert_eq!(Some("test-package".to_string()), workers[0].current_job);

    orchestrator.confirm_dispatch(dispatch.package_id);
    let package = orchestrator.get_package_store().get_package(1).unwrap();
    assert_eq!(PackageStatus::BUILDING, package.get_status());
    assert!(orchestrator.next_dispatch().is_none());
}

#[test]
fn dispatched_job_carries_patches() {
    let mut orchestrator = get_instance();
    orchestrator
        .get_package_store()
        .create_patch(PackagePatchInsert { package_id: 1, url: "http://test.com/patch".to_string(), sha_512: None })
        .unwrap();
    authenticated_worker(&mut orchestrator);
    let dispatch = orchestrator.next_dispatch().unwrap();
    let patches = dispatch.job.definition.patches.unwrap();
    assert_eq!(1, patches.len());
    assert_eq!("http://test.com/patch", patches[0].url);
}

#[test]
fn removed_worker_job_goes_back_to_pending() {
    let mut orchestrator = get_instance();
    let id = authenticated_worker(&mut orchestrator);
    let dispatch = orchestrator.next_dispatch().unwrap();
    orchestrator.confirm_dispatch(dispatch.package_id);
    orchestrator.remove_worker(id);
    assert!(orchestrator.get_worker_manager().get_workers().is_empty());
    let package = orchestrator.get_package_store().get_package(1).unwrap();
    assert_eq!(PackageStatus::PENDING, package.get_status());
}

#[test]
fn finished_workers_are_removed_and_jobs_reverted() {
    let mut orchestrator = get_instance();
    orchestrator.get_package_store().create_package(PackageInsert { name: "second".to_string(), run_before: None }).unwrap();
    let w0 = authenticated_worker(&mut orchestrator);
    let w1 = authenticated_worker(&mut orchestrator);
    let w2 = authenticated_worker(&mut orchestrator);
    let d0 = orchestrator.next_dispatch().unwrap();
    orchestrator.confirm_dispatch(d0.package_id);
    let d1 = orchestrator.next_dispatch().unwrap();
    orchestrator.confirm_dispatch(d1.package_id);
    assert_eq!(w0, d0.worker_id);
    assert_eq!(w1, d1.worker_id);

    orchestrator.remove_finished_workers(&vec![true, false, true]);
    let ids = orchestrator.get_worker_manager().worker_ids();
    assert_eq!(vec![w1], ids);
    assert_ne!(w2, ids[0]);
    assert_eq!(PackageStatus::PENDING, orchestrator.get_package_store().get_package(1).unwrap().get_status());
    assert_eq!(PackageStatus::BUILDING, orchestrator.get_package_store().get_package(2).unwrap().get_status());
}

#[test]
fn status_update_sets_worker_state() {
    let mut orchestrator = get_instance();
    let id = authenticated_worker(&mut orchestrator);
    orchestrator.handle_worker_message(id, WebsocketMessage::WorkerStatusUpdate { status: WorkerStatus::WORKING, job: None });
    let workers = orchestrator.get_worker_manager().get_workers();
    assert_eq!(WorkerStatus::WORKING, workers[0].status);
    assert!(workers[0].is_authenticated);
    assert!(orchestrator.next_dispatch().is_none());
}

#[test]
fn schedule_rebuilds_without_interval_does_nothing() {
    let mut orchestrator = get_instance();
    assert_eq!(0, orchestrator.schedule_rebuilds().unwrap());
}

#[test]
fn build_output_with_the_clock_for_unknown_package_is_ignored() {
    let mut orchestrator = get_instance();
    let outcome = orchestrator.handle_package_build_output(&repository(), "nope", None, None, vec![], true);
    assert!(matches!(outcome, Ok(None)));
    let package = orchestrator.get_package_store().get_package_by_name("test-package").unwrap();
    assert_eq!(PackageStatus::PENDING, package.get_status());
}

#[test]
fn schedule_rebuilds_at_uses_the_interval() {
    let mut store = PackageStore::in_memory();
    store.create_package(PackageInsert { name: "a".to_string(), run_before: None }).unwrap();
    let mut p = store.get_package(1).unwrap();
    p.set_status(PackageStatus::BUILT);
    p.set_last_built(Some(1000));
    store.update_package(&p).unwrap();
    let mut orchestrator = Orchestrator::new(store, "api_key".to_string(), Some(100), &vec![]);
    assert_eq!(0, orchestrator.schedule_rebuilds_at(1100).unwrap());
    assert_eq!(PackageStatus::BUILT, orchestrator.get_package_store().get_package(1).unwrap().get_status());
    assert_eq!(1, orchestrator.schedule_rebuilds_at(1101).unwrap());
    assert_eq!(PackageStatus::PENDING, orchestrator.get_package_store().get_package(1).unwrap().get_status());
}
