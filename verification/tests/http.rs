use aur_build::common::models::PackageStatus;
use aur_build::server::http::{has_parent_dir, log_file_name, package_log_path, parse_built_version, patch_package, Auth, HttpError, SuccessResponse};
use aur_build::server::package_store::{PackageInsert, PackagePatchInsert, PackageStore};

fn get_test_store() -> PackageStore {
    let mut store = PackageStore::in_memory();
    store.create_package(PackageInsert { name: "first".to_string(), run_before: None }).unwrap();
    let mut package = store
        .create_package(PackageInsert { name: "second".to_string(), run_before: Some("run_before_second".to_string()) })
        .unwrap();
    package.set_status(PackageStatus::BUILT);
    package.last_built_version = Some("lastver".to_string());
    package.get_files_mut().push("file1.tar".to_string());
    package.set_last_built(Some(chrono::Utc::now().timestamp()));
    store.update_package(&package).unwrap();
    store
        .create_patch(PackagePatchInsert { package_id: 1, url: "http://test.com/patch".to_string(), sha_512: Some("sha".to_string()) })
        .unwrap();
    store
}

#[test]
fn test_index_packages() {
    let store = get_test_store();
    let parsed: Vec<_> = store.get_packages().into_iter().map(|p| p.into_package_response()).collect();
    assert_eq!(parsed.len(), 2);
}

#[test]
fn test_post_packages() {
    let mut store = get_test_store();
    let parsed = store
        .create_package(PackageInsert { name: "test-insert".to_string(), run_before: Some("testrun".to_string()) })
        .unwrap()
        .into_package_response();
    assert_eq!(parsed.name, "test-insert");
    assert_eq!(parsed.run_before, Some("testrun".to_string()));
    assert_eq!(parsed.status, PackageStatus::PENDING);

    assert_eq!(store.get_packages().len(), 3);
}

#[test]
fn test_rebuild_packages() {
    let mut store = get_test_store();
    store.set_packages_pending(Some(vec![2]), true).unwrap();
    let parsed = SuccessResponse::from(true);
    assert_eq!(parsed.success, true);

    let packages = store.get_package(2).unwrap();
    assert_eq!(packages.get_status(), PackageStatus::PENDING);
    assert!(packages.last_built_version.is_none());
}

#[test]
fn test_patch_packages() {
    let mut store = get_test_store();
    let parsed = patch_package(&mut store, 1, Some("run_before_update".to_string())).ok().unwrap().into_package_response();
    assert_eq!(parsed.run_before, Some("run_before_update".to_string()));
    let package = store.get_package(1).unwrap();
    assert_eq!(package.run_before, Some("run_before_update".to_string()));
}

#[test]
fn patch_of_missing_package_is_not_found() {
    let mut store = get_test_store();
    let err: HttpError = patch_package(&mut store, 42, None).err().unwrap();
    assert_eq!(404, err.status_code);
    assert_eq!("Not Found", err.message);
}

#[test]
fn test_delete_packages() {
    let mut store = get_test_store();
    let parsed = SuccessResponse::from(store.delete_package(1).is_ok());
    assert_eq!(parsed.success, true);
    assert_eq!(store.get_packages().len(), 1);
}

#[test]
fn test_action_logs_packages() {
    let store = get_test_store();
    let base_path = "/tmp/aur-build-server-test/logs";
    let runtime = tokio::runtime::Runtime::new().unwrap();
    runtime.block_on(async {
        tokio::fs::create_dir_all(base_path).await.unwrap();
        tokio::fs::write(format!("{}/first.log", base_path), "test file content").await.unwrap();
    });

    let package = store.get_package(1);
    let name = log_file_name(package.as_ref().unwrap().get_name());
    assert_eq!("first.log", name);
    let path = package_log_path(package.as_ref().map(|p| p.get_name()), base_path).unwrap();
    assert_eq!("/tmp/aur-build-server-test/logs/first.log", path);
    let body = runtime.block_on(tokio::fs::read_to_string(&path)).unwrap();
    assert_eq!(body, "test file content");
}

#[test]
fn logs_of_missing_package_are_not_found() {
    let store = get_test_store();
    let package = store.get_package(99);
    let e = package_log_path(package.as_ref().map(|p| p.get_name()), "/tmp/logs").unwrap_err();
    assert_eq!(404, e.status_code);
    assert_eq!("Not Found", e.message);
}

#[test]
fn logs_path_climbing_up_is_refused() {
    let name = "../secret".to_string();
    let e = package_log_path(Some(&name), "/tmp/logs").unwrap_err();
    assert_eq!(400, e.status_code);
    assert_eq!("Bad request", e.message);
    assert!(has_parent_dir("/tmp/logs/../secret.log"));
}

#[test]
fn test_index_patches() {
    let store = get_test_store();
    let parsed: Vec<_> = store.get_patches_for_package(1).into_iter().map(|p| p.into_response()).collect();
    assert_eq!(parsed.len(), 1);
    assert_eq!(parsed[0].package_id, 1);
    assert_eq!(parsed[0].url, "http://test.com/patch");
    assert_eq!(parsed[0].sha_512, Some("sha".to_string()));
}

#[test]
fn test_post_patches() {
    let mut store = get_test_store();
    let parsed = store
        .create_patch(PackagePatchInsert { package_id: 1, url: "http://created.com".to_string(), sha_512: Some("sha512".to_string()) })
        .unwrap()
        .into_response();
    assert_eq!(parsed.package_id, 1);
    assert_eq!(parsed.url, "http://created.com");
    assert_eq!(parsed.sha_512, Some("sha512".to_string()));
    assert_eq!(store.get_patches_for_package(1).len(), 2);
}

#[test]
fn test_delete_patches() {
    let mut store = get_test_store();
    let parsed = SuccessResponse::from(store.delete_patch(1).is_ok());
    assert_eq!(parsed.success, true);
    assert_eq!(store.get_patches_for_package(1).len(), 0);
}

#[test]
fn parent_dir_components_are_detected() {
    assert!(has_parent_dir("logs/../secret.log"));
    assert!(has_parent_dir("../x"));
    assert!(has_parent_dir("a/.."));
    assert!(has_parent_dir(".."));
    assert!(!has_parent_dir("logs/..a.log"));
    assert!(!has_parent_dir("logs/a...log"));
    assert!(!has_parent_dir("logs/./a.log"));
    assert!(!has_parent_dir(""));
}

#[test]
fn empty_version_means_none() {
    assert_eq!(None, parse_built_version(String::new()));
    assert_eq!(Some("1.2".to_string()), parse_built_version("1.2".to_string()));
}

#[test]
fn auth_accepts_only_the_key() {
    let auth = Auth::new("secret".to_string());
    assert!(auth.is_authorized(Some(b"secret")));
    assert!(!auth.is_authorized(Some(b"Secret")));
    assert!(!auth.is_authorized(Some(b"secret ")));
    assert!(!auth.is_authorized(None));
    let middleware = auth.new_transform();
    assert!(middleware.call(Some(b"secret")));
    assert!(!middleware.call(Some(b"")));
}

#[test]
fn error_answers() {
    let e = HttpError::bad_request();
    assert_eq!(400, e.status_code);
    assert_eq!("Bad request", e.error_response().message);
    assert_eq!(500, HttpError::internal("boom".to_string()).status_code);
}
