use aur_build::common::models::PackageStatus;
use aur_build::server::package_store::{Package, PackageInsert, PackagePatch, PackagePatchInsert, PackageStore, StoreError};
use chrono::Utc;

fn get_instance() -> PackageStore {
    PackageStore::in_memory()
}

fn insert(name: &str, run_before: Option<&str>) -> PackageInsert {
    PackageInsert { name: name.to_string(), run_before: run_before.map(|s| s.to_string()) }
}

#[test]
fn test_create_package() {
    let mut package_repository = get_instance();

    let package = package_repository.create_package(insert("Name", Some("echo 1"))).unwrap();
    assert_eq!(1, package.get_id());
    assert_eq!("Name", package.get_name());
    assert_eq!("echo 1", package.run_before.as_ref().unwrap());
    assert_eq!(PackageStatus::PENDING, package.get_status());
}

#[test]
fn test_update_package() {
    let mut package_repository = get_instance();

    let mut package = package_repository.create_package(insert("Name", Some("echo 1"))).unwrap();
    let built_time = Utc::now().timestamp();

    package.set_status(PackageStatus::BUILT);
    package.set_last_built(Some(built_time));
    package.get_files_mut().push("first_file".to_string());
    package.get_files_mut().push("second_file".to_string());
    package.last_built_version = Some("last_version".to_string());
    package.last_error = Some("last_error".to_string());
    package_repository.update_package(&package).unwrap();

    let packages = package_repository.get_packages();

    assert_eq!(1, packages.len());
    assert_eq!(1, packages[0].get_id());
    assert_eq!("Name", packages[0].get_name());
    assert_eq!("echo 1", packages[0].run_before.as_ref().unwrap());
    assert_eq!(PackageStatus::BUILT, packages[0].get_status());
    assert_eq!(2, packages[0].get_files().len());
    assert_eq!("first_file", packages[0].get_files()[0]);
    assert_eq!("second_file", packages[0].get_files()[1]);
    assert_eq!(Some("last_version".to_string()), packages[0].last_built_version);
    assert_eq!(Some("last_error".to_string()), packages[0].last_error);
}

#[test]
fn test_update_package_status() {
    let mut package_repository = get_instance();

    let package = package_repository.create_package(insert("name", None)).unwrap();

    assert_ne!(PackageStatus::BUILT, package.get_status());

    package_repository.update_package_status(1, PackageStatus::BUILT).unwrap();
    let package = package_repository.get_package_by_name("name").unwrap();
    assert_eq!(PackageStatus::BUILT, package.get_status());
}

#[test]
fn test_set_packages_pending() {
    let mut package_repository = get_instance();

    package_repository.create_package(insert("first", None)).unwrap();
    package_repository.create_package(insert("second", None)).unwrap();

    package_repository.update_package_status(1, PackageStatus::BUILT).unwrap();
    package_repository.update_package_status(2, PackageStatus::BUILDING).unwrap();

    package_repository.set_packages_pending(Some(vec![1, 2]), false).unwrap();

    assert_eq!(
        PackageStatus::PENDING,
        package_repository.get_package_by_name("first").unwrap().get_status()
    );
    let mut second = package_repository.get_package_by_name("second").unwrap();
    assert_eq!(PackageStatus::BUILDING, second.get_status());
    second.last_built_version = Some("last_version".to_string());
    package_repository.update_package(&second).unwrap();

    package_repository.set_packages_pending(Some(vec![1, 2]), true).unwrap();

    let second = package_repository.get_package_by_name("second").unwrap();
    assert_eq!(PackageStatus::PENDING, second.get_status());
    assert!(second.last_built_version.is_none());
}

#[test]
fn test_set_packages_rebuild() {
    let mut package_repository = get_instance();

    let mut package = package_repository.create_package(insert("first", None)).unwrap();
    package.set_status(PackageStatus::BUILT);
    package.set_last_built(Some(Utc::now().timestamp()));
    package_repository.update_package(&package).unwrap();

    package_repository.set_packages_rebuild(100).unwrap();

    let mut package = package_repository.get_package_by_name("first").unwrap();
    assert_eq!(PackageStatus::BUILT, package.get_status());
    package.set_last_built(Some(Utc::now().timestamp() - 200));
    package_repository.update_package(&package).unwrap();

    package_repository.set_packages_rebuild(100).unwrap();

    let mut package = package_repository.get_package_by_name("first").unwrap();
    assert_eq!(PackageStatus::PENDING, package.get_status());
    package.set_status(PackageStatus::BUILDING);
    package.set_last_built(Some(Utc::now().timestamp() - 200));
    package_repository.update_package(&package).unwrap();

    package_repository.set_packages_rebuild(100).unwrap();

    let package = package_repository.get_package_by_name("first").unwrap();
    assert_eq!(PackageStatus::BUILDING, package.get_status());
}

#[test]
fn test_delete_package() {
    let mut package_repository = get_instance();

    package_repository.create_package(insert("first", Some("echo 1"))).unwrap();
    package_repository.create_package(insert("second", None)).unwrap();

    package_repository.delete_package(1).unwrap();

    assert_eq!(1, package_repository.get_packages().len());
    assert!(package_repository.get_package_by_name("first").is_none());
}

#[test]
fn test_get_packages() {
    let mut package_repository = get_instance();

    package_repository.create_package(insert("first", Some("echo 1"))).unwrap();
    package_repository.create_package(insert("second", None)).unwrap();

    let packages = package_repository.get_packages();
    assert_eq!(2, packages.len());
    assert_eq!("first", packages[0].get_name());
    assert_eq!(Some("echo 1".to_string()), packages[0].run_before);
    assert_eq!("second", packages[1].get_name());
    assert_eq!(None, packages[1].run_before);

    let package = package_repository.get_package_by_name("first");
    assert_eq!(1, package.unwrap().get_id());

    let package = package_repository.get_package_by_name("none");
    assert!(package.is_none());

    let package = package_repository.get_next_pending_package();
    assert_eq!("first", package.unwrap().get_name());
}

#[test]
fn test_create_list_delete_patch() {
    let mut package_repository = get_instance();

    let package = package_repository.create_package(insert("package", None)).unwrap();
    package_repository
        .create_patch(PackagePatchInsert { package_id: package.get_id(), url: "test_url".to_string(), sha_512: None })
        .unwrap();

    let patches = package_repository.get_patches_for_package(package.get_id());
    assert_eq!(1, patches.len());
    assert_eq!("test_url", patches[0].url);

    package_repository.delete_patch(patches[0].get_id()).unwrap();
    assert_eq!(0, package_repository.get_patches_for_package(package.get_id()).len());
    assert_eq!(1, package_repository.get_packages().len());
}

#[test]
fn test_update_patch() {
    let mut package_repository = get_instance();

    let package = package_repository.create_package(insert("package", None)).unwrap();
    let mut patch = package_repository
        .create_patch(PackagePatchInsert {
            package_id: package.get_id(),
            url: "test_url".to_string(),
            sha_512: Some("sha".to_string()),
        })
        .unwrap();
    patch.url = "test_url_update".to_string();
    package_repository.update_patch(&patch).unwrap();

    let patches = package_repository.get_patches_for_package(package.get_id());
    assert_eq!(1, patches.len());
    assert_eq!("test_url_update", patches[0].url);
    assert_eq!(Some("sha".to_string()), patches[0].sha_512);
}

#[test]
fn ids_are_not_reused_after_delete() {
    let mut store = get_instance();
    store.create_package(insert("a", None)).unwrap();
    store.create_package(insert("b", None)).unwrap();
    store.delete_package(2).unwrap();
    let c = store.create_package(insert("c", None)).unwrap();
    assert_eq!(3, c.get_id());
    assert!(store.get_package(2).is_none());
    assert_eq!("c", store.get_package(3).unwrap().get_name());
}

#[test]
fn update_of_missing_package_is_not_found() {
    let mut store = get_instance();
    let p = store.create_package(insert("a", None)).unwrap();
    store.delete_package(p.get_id()).unwrap();
    assert_eq!(StoreError::NotFound, store.update_package(&p).err().unwrap());
    assert!(store.get_packages().is_empty());
}

#[test]
fn pending_without_list_selects_all() {
    let mut store = get_instance();
    store.create_package(insert("a", None)).unwrap();
    store.create_package(insert("b", None)).unwrap();
    store.create_package(insert("c", None)).unwrap();
    store.update_package_status(1, PackageStatus::BUILT).unwrap();
    store.update_package_status(2, PackageStatus::FAILED).unwrap();
    store.update_package_status(3, PackageStatus::BUILDING).unwrap();
    store.set_packages_pending(None, false).unwrap();
    assert_eq!(PackageStatus::PENDING, store.get_package(1).unwrap().get_status());
    assert_eq!(PackageStatus::PENDING, store.get_package(2).unwrap().get_status());
    assert_eq!(PackageStatus::BUILDING, store.get_package(3).unwrap().get_status());
}

#[test]
fn rebuild_before_cutoff_counts_changed_rows() {
    let mut store = get_instance();
    for name in ["a", "b", "c", "d"] {
        store.create_package(insert(name, None)).unwrap();
    }
    let mut a = store.get_package(1).unwrap();
    a.set_status(PackageStatus::BUILT);
    a.set_last_built(Some(50));
    store.update_package(&a).unwrap();
    let mut b = store.get_package(2).unwrap();
    b.set_status(PackageStatus::FAILED);
    b.set_last_built(Some(99));
    store.update_package(&b).unwrap();
    let mut c = store.get_package(3).unwrap();
    c.set_status(PackageStatus::BUILT);
    c.set_last_built(Some(100));
    store.update_package(&c).unwrap();
    let mut d = store.get_package(4).unwrap();
    d.set_status(PackageStatus::BUILDING);
    d.set_last_built(Some(1));
    store.update_package(&d).unwrap();

    assert_eq!(2, store.set_packages_rebuild_before(100));
    assert_eq!(PackageStatus::PENDING, store.get_package(1).unwrap().get_status());
    assert_eq!(PackageStatus::PENDING, store.get_package(2).unwrap().get_status());
    assert_eq!(PackageStatus::BUILT, store.get_package(3).unwrap().get_status());
    assert_eq!(PackageStatus::BUILDING, store.get_package(4).unwrap().get_status());
}

#[test]
fn next_pending_is_smallest_id() {
    let mut store = get_instance();
    store.create_package(insert("a", None)).unwrap();
    store.create_package(insert("b", None)).unwrap();
    store.update_package_status(1, PackageStatus::BUILDING).unwrap();
    assert_eq!(2, store.get_next_pending_package().unwrap().get_id());
    store.update_package_status(2, PackageStatus::BUILT).unwrap();
    assert!(store.get_next_pending_package().is_none());
}

#[test]
fn search_is_like_substring_ignoring_ascii_case() {
    let mut store = get_instance();
    store.create_package(insert("aur-build-cli", None)).unwrap();
    store.create_package(insert("yay", None)).unwrap();
    store.create_package(insert("Aur-Build-Server", None)).unwrap();
    let found = store.search_packages_by_name("BUILD".to_string());
    assert_eq!(2, found.len());
    assert_eq!(1, found[0].get_id());
    assert_eq!(3, found[1].get_id());
    let found = store.search_packages_by_name("y_y".to_string());
    assert_eq!(1, found.len());
    assert_eq!("yay", found[0].get_name());
    assert_eq!(3, store.search_packages_by_name(String::new()).len());
    assert_eq!(0, store.search_packages_by_name("zzz".to_string()).len());
}

#[test]
fn from_rows_rejects_unordered_ids() {
    let p = |id: i32, name: &str| Package::from_parts(id, name.to_string(), None, 1, None, vec![], None, None);
    assert!(PackageStore::from_rows(vec![p(2, "b"), p(1, "a")], vec![]).is_none());
    assert!(PackageStore::from_rows(vec![p(0, "a")], vec![]).is_none());
    let mut store = PackageStore::from_rows(vec![p(1, "a"), p(5, "b")], vec![]).unwrap();
    assert_eq!(6, store.create_package(insert("c", None)).unwrap().get_id());
}

#[test]
fn status_code_reads_as_byte() {
    let p = Package::from_parts(1, "a".to_string(), None, 258, None, vec![], None, None);
    assert_eq!(PackageStatus::BUILDING, p.get_status());
}

#[test]
fn package_response_and_job() {
    let mut store = get_instance();
    let p = store.create_package(insert("pkg", Some("echo"))).unwrap();
    store
        .create_patch(PackagePatchInsert { package_id: p.get_id(), url: "u1".to_string(), sha_512: Some("s".to_string()) })
        .unwrap();
    let job = p.get_package_job(store.get_patches_for_package(p.get_id()));
    assert_eq!(1, job.definition.package_id);
    assert_eq!("pkg", job.definition.name);
    let patches = job.definition.patches.unwrap();
    assert_eq!(1, patches.len());
    assert_eq!("u1", patches[0].url);
    assert_eq!(Some("s".to_string()), patches[0].sha512);
    let r = p.into_package_response();
    assert_eq!(PackageStatus::PENDING, r.status);
    assert_eq!(Some("echo".to_string()), r.run_before);
}

#[test]
fn update_keeps_optional_columns_left_empty() {
    let mut store = get_instance();
    store.create_package(insert("a", Some("echo hi"))).unwrap();
    let mut p = store.get_package(1).unwrap();
    p.set_last_error(Some("boom".to_string()));
    store.update_package(&p).unwrap();

    let mut q = store.get_package(1).unwrap();
    q.set_run_before(None);
    q.set_last_error(None);
    q.set_status(PackageStatus::BUILT);
    let stored = store.update_package(&q).unwrap();
    assert_eq!(Some("echo hi".to_string()), stored.get_run_before().clone());
    assert_eq!(Some("boom".to_string()), stored.get_last_error().clone());
    let read = store.get_package(1).unwrap();
    assert_eq!(PackageStatus::BUILT, read.get_status());
    assert_eq!(Some("echo hi".to_string()), read.get_run_before().clone());
    assert_eq!(Some("boom".to_string()), read.get_last_error().clone());
}

#[test]
fn update_patch_keeps_checksum_left_empty() {
    let mut store = get_instance();
    store.create_package(insert("a", None)).unwrap();
    let patch = store
        .create_patch(PackagePatchInsert { package_id: 1, url: "http://a".to_string(), sha_512: Some("sha".to_string()) })
        .unwrap();
    let changed = PackagePatch::from_parts(patch.get_id(), 1, "http://b".to_string(), None);
    let stored = store.update_patch(&changed).unwrap();
    assert_eq!("http://b", stored.get_url().as_str());
    assert_eq!(Some("sha".to_string()), stored.get_sha_512().clone());
}

#[test]
fn rebuild_at_uses_now_minus_interval() {
    let mut store = get_instance();
    store.create_package(insert("old", None)).unwrap();
    store.create_package(insert("new", None)).unwrap();
    for (id, t) in [(1, 800i64), (2, 950i64)] {
        let mut p = store.get_package(id).unwrap();
        p.set_status(PackageStatus::BUILT);
        p.set_last_built(Some(t));
        store.update_package(&p).unwrap();
    }
    assert_eq!(1, store.set_packages_rebuild_at(1000, 100).unwrap());
    assert_eq!(PackageStatus::PENDING, store.get_package(1).unwrap().get_status());
    assert_eq!(PackageStatus::BUILT, store.get_package(2).unwrap().get_status());
    assert!(matches!(store.set_packages_rebuild_at(i64::MIN, 1), Err(StoreError::TimeOutOfRange)));
}

#[test]
fn from_rows_continues_ids() {
    let p = |id: i32, name: &str| Package::from_parts(id, name.to_string(), None, 1, None, vec![], None, None);
    let mut store = PackageStore::from_rows(vec![p(2, "a"), p(5, "b")], vec![]).unwrap();
    let created = store.create_package(insert("c", None)).unwrap();
    assert_eq!(6, created.get_id());
    let patch = store
        .create_patch(PackagePatchInsert { package_id: 6, url: "u".to_string(), sha_512: None })
        .unwrap();
    assert_eq!(1, patch.get_id());
}
