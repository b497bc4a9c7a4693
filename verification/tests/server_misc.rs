use aur_build::standalone::{Auth as StandaloneAuth};
use aur_build::server::config::{config_file_path, Config, LegacyPackageDefinition, LogLevel, SharedConfig};
use aur_build::server::like::{like_match, search_pattern_of};
use aur_build::server::multipart::{field_from_raw, upload_build_data, parse_multipart, MultipartField};
use aur_build::server::repo::{clean_entry, filter_package_files, gpg_sign_args, join_path, repo_add_args, signature_file_name, Repo, RepositoryManager, SignStep};
use aur_build::server::clock::{current_timestamp, timestamp_from_secs};
use aur_build::server::repository::Repository;
use aur_build::server::package_store::{PackageInsert, PackageStore};
use aur_build::common::models::PackageStatus;

fn empty_shared() -> SharedConfig {
    SharedConfig {
        config_path: None,
        log_level: None,
        log_path: None,
        api_key: None,
        port: None,
        repo_name: None,
        sign_key: None,
        rebuild_time: None,
        serve_path: None,
        build_logs_path: None,
        database_path: None,
        webhooks: None,
        webhook_verify_ssl: None,
        webhook_certificate: None,
        packages: vec![],
    }
}

#[test]
fn config_defaults() {
    let mut file = empty_shared();
    file.api_key = Some("key".to_string());
    let c = Config::merge(empty_shared(), file);
    assert_eq!(LogLevel::Info, c.log_level);
    assert_eq!("./aur-build-server.log", c.log_path);
    assert_eq!("key", c.api_key);
    assert_eq!(8888, c.port);
    assert_eq!("aurbuild", c.repo_name);
    assert_eq!(None, c.sign_key);
    assert_eq!(None, c.rebuild_time);
    assert_eq!("./server/serve", c.serve_path);
    assert_eq!("./server/build_logs", c.build_logs_path);
    assert_eq!("./server/aur-build.sqlite", c.database_path);
    assert!(c.webhooks.is_empty());
    assert!(c.webhook_verify_ssl);
    assert_eq!(None, c.webhook_certificate);
    assert_eq!("./config_server.json", config_file_path(&empty_shared()));
}

#[test]
fn command_line_wins_over_file() {
    let mut cli = empty_shared();
    cli.port = Some(1);
    cli.api_key = Some("cli".to_string());
    cli.sign_key = Some("cli-sign".to_string());
    cli.log_level = Some(LogLevel::Debug);
    cli.config_path = Some("/etc/x.json".to_string());
    let mut file = empty_shared();
    file.port = Some(2);
    file.api_key = Some("file".to_string());
    file.repo_name = Some("filerepo".to_string());
    file.rebuild_time = Some(60);
    file.webhook_verify_ssl = Some(false);
    file.webhooks = Some(vec!["http://hook".to_string()]);
    file.packages = vec![LegacyPackageDefinition { name: "p".to_string(), run_before: None, patches: None }];
    assert_eq!("/etc/x.json", config_file_path(&cli));
    let c = Config::merge(cli, file);
    assert_eq!(1, c.port);
    assert_eq!("cli", c.api_key);
    assert_eq!(Some("cli-sign".to_string()), c.sign_key);
    assert_eq!(LogLevel::Debug, c.log_level);
    assert_eq!("filerepo", c.repo_name);
    assert_eq!(Some(60), c.rebuild_time);
    assert!(!c.webhook_verify_ssl);
    assert_eq!(vec!["http://hook".to_string()], c.webhooks);
    assert_eq!(1, c.packages.len());
}

fn like(p: &str, t: &str) -> bool {
    like_match(&p.chars().collect(), &t.chars().collect())
}

#[test]
fn like_patterns() {
    assert!(like("%abc%", "xxABCyy"));
    assert!(like("a_c", "abc"));
    assert!(!like("a_c", "ac"));
    assert!(like("%", ""));
    assert!(!like("abc", "abcd"));
    assert!(like("a%d", "abcd"));
    assert_eq!(vec!['%', 'x', '%'], search_pattern_of("x"));
}

#[test]
fn multipart_groups_and_upload() {
    let fields = vec![
        ("package_name".to_string(), MultipartField::Text("pkg".to_string())),
        ("error".to_string(), MultipartField::Text("e1".to_string())),
        ("files[]".to_string(), MultipartField::File("a.pkg.tar.zst".to_string(), vec![1, 2])),
        ("error".to_string(), MultipartField::Text("e2".to_string())),
        ("version".to_string(), MultipartField::Text("".to_string())),
    ];
    let groups = parse_multipart(fields);
    let names: Vec<&str> = groups.iter().map(|g| g.0.as_str()).collect();
    assert_eq!(vec!["version", "error", "files[]", "package_name"], names);
    match &groups[1].1[0] {
        MultipartField::Text(t) => assert_eq!("e2", t),
        _ => panic!("expected a text"),
    }

    let fields = vec![
        ("package_name".to_string(), MultipartField::Text("pkg".to_string())),
        ("error".to_string(), MultipartField::Text("e1".to_string())),
        ("error".to_string(), MultipartField::Text("e2".to_string())),
        ("version".to_string(), MultipartField::Text("1.0".to_string())),
        ("log_files[]".to_string(), MultipartField::File("pkg.log".to_string(), vec![])),
    ];
    let (name, data) = upload_build_data(fields).unwrap();
    assert_eq!("pkg", name);
    assert_eq!(Some("1.0".to_string()), data.version);
    assert_eq!(vec!["e2".to_string(), "e1".to_string()], data.errors);
    assert!(data.files.is_none());
    assert_eq!(1, data.log_files.unwrap().len());

    let no_name = vec![("package_name".to_string(), MultipartField::File("x".to_string(), vec![]))];
    assert!(upload_build_data(no_name).is_none());
    let empty_version = vec![
        ("package_name".to_string(), MultipartField::Text("pkg".to_string())),
        ("version".to_string(), MultipartField::Text(String::new())),
    ];
    assert_eq!(None, upload_build_data(empty_version).unwrap().1.version);
}

#[test]
fn can_add_package_to_repository_no_sign() {
    let manager = RepositoryManager::new("test".to_string(), None, "/tmp/aur-build-server-test/repo".to_string());
    let files = filter_package_files(&vec!["aur-build-cli-0.10.0-1-any.pkg.tar.zst".to_string(), "test.db".to_string()]);
    assert_eq!(1, files.len());
    let args = manager.repo_add_command(&files).unwrap();
    assert_eq!(vec!["--remove", "test.db.tar.gz", "aur-build-cli-0.10.0-1-any.pkg.tar.zst"], args);
    assert!(manager.repo_add_command(&vec![]).is_none());
}

#[test]
fn signed_repo_add_arguments() {
    let args = repo_add_args("r", &Some("KEY".to_string()), &vec!["a.pkg.tar.zst".to_string()]);
    assert_eq!(vec!["--remove", "--verify", "--sign", "--key", "KEY", "r.db.tar.gz", "a.pkg.tar.zst"], args);
    assert_eq!("a.pkg.tar.zst.sig", signature_file_name("a.pkg.tar.zst"));
}

#[test]
fn repo_cleaning_and_listing() {
    let keep = vec!["a.pkg.tar.zst".to_string()];
    assert!(clean_entry("a.pkg.tar.zst.sig", &keep));
    assert!(clean_entry("b.pkg.tar.zst", &keep));
    assert!(!clean_entry("a.pkg.tar.zst", &keep));
    assert!(!clean_entry("repo.db", &keep));
    let repo = Repo::new("r".to_string(), None, "/srv".to_string());
    let args = repo.build_repo_args(vec![], &vec!["x.pkg.tar.zst".to_string(), "r.db".to_string()]);
    assert_eq!(vec!["--remove", "r.db.tar.gz", "x.pkg.tar.zst"], args);
}

#[test]
fn build_data_records_time_and_error() {
    let repository = Repository::new("/srv".to_string(), "/logs".to_string());
    let mut store = PackageStore::in_memory();
    let mut p = store.create_package(PackageInsert { name: "a".to_string(), run_before: None }).unwrap();
    p.last_built_version = Some("0.9".to_string());
    repository.update_package_state_from_build_data_at(&mut p, vec![], Some("boom".to_string()), Some("1.0".to_string()), 77);
    assert_eq!(PackageStatus::FAILED, p.get_status());
    assert_eq!(Some(77), p.get_last_built());
    assert_eq!(Some("0.9".to_string()), p.last_built_version);
    assert_eq!(Some("boom".to_string()), p.last_error);
    repository.update_package_state_from_build_data(&mut p, vec!["f".to_string()], None, Some("1.0".to_string())).unwrap();
    assert_eq!(PackageStatus::BUILT, p.get_status());
    assert!(p.get_last_built().unwrap() > 77);
    assert_eq!(Some("1.0".to_string()), p.last_built_version);
    assert_eq!(None, p.last_error);
    assert_eq!(1, p.get_files().len());
}

#[test]
fn standalone_auth_accepts_query_or_header_key() {
    let open = StandaloneAuth { apikey: None }.new_transform();
    assert!(open.call(None, None));
    let closed = StandaloneAuth { apikey: Some("k".to_string()) }.new_transform();
    assert!(closed.call(Some("k"), None));
    assert!(closed.call(None, Some("k")));
    assert!(closed.call(Some("x"), Some("k")));
    assert!(!closed.call(Some("x"), Some("y")));
    assert!(!closed.call(None, None));
}

#[test]
fn gpg_arguments_for_a_file() {
    let args = gpg_sign_args("KEY", "/srv/repo", "a-1-x86_64.pkg.tar.zst");
    assert_eq!(
        vec![
            "--default-key",
            "KEY",
            "--yes",
            "--output",
            "/srv/repo/a-1-x86_64.pkg.tar.zst.sig",
            "--detach-sig",
            "/srv/repo/a-1-x86_64.pkg.tar.zst",
        ],
        args
    );
    assert_eq!("/srv/repo/f", join_path("/srv/repo", "f"));
}

#[test]
fn signing_steps_follow_the_key() {
    let files = vec!["a.pkg.tar.zst".to_string(), "b.pkg.tar.zst".to_string()];
    let signed = RepositoryManager::new("repo".to_string(), Some("K".to_string()), "/r".to_string());
    let steps = signed.signing_steps(&files);
    assert_eq!(2, steps.len());
    match &steps[1] {
        SignStep::Sign(args) => assert_eq!(gpg_sign_args("K", "/r", "b.pkg.tar.zst"), *args),
        SignStep::DropSignature(_) => panic!("expected a signing step"),
    }
    let unsigned = RepositoryManager::new("repo".to_string(), None, "/r".to_string());
    let steps = unsigned.signing_steps(&files);
    match &steps[0] {
        SignStep::DropSignature(path) => assert_eq!("/r/a.pkg.tar.zst.sig", path.as_str()),
        SignStep::Sign(_) => panic!("expected a dropped signature"),
    }
    assert!(unsigned.signing_steps(&vec![]).is_empty());
}

#[test]
fn raw_fields_become_text_or_files() {
    match field_from_raw(None, vec![b'o', b'k', 0xFF]) {
        MultipartField::Text(t) => assert_eq!("ok\u{FFFD}", t),
        MultipartField::File(..) => panic!("expected text"),
    }
    match field_from_raw(Some("log.txt".to_string()), vec![1, 2, 3]) {
        MultipartField::File(name, data) => {
            assert_eq!("log.txt", name);
            assert_eq!(vec![1, 2, 3], data);
        }
        MultipartField::Text(_) => panic!("expected a file"),
    }
}

#[test]
fn clock_reads_a_recent_time() {
    let t = current_timestamp().unwrap();
    assert!(t > 1_600_000_000);
}

#[test]
fn join_path_follows_path_join() {
    assert_eq!("/srv/repo/f", join_path("/srv/repo/", "f"));
    assert_eq!("/etc/f", join_path("/srv/repo", "/etc/f"));
    assert_eq!("f", join_path("", "f"));
    assert_eq!("rel/f", join_path("rel", "f"));
}

#[test]
fn timestamps_from_seconds() {
    assert_eq!(Some(0), timestamp_from_secs(Some(0)));
    assert_eq!(Some(1_700_000_000), timestamp_from_secs(Some(1_700_000_000)));
    assert_eq!(Some(i64::MAX), timestamp_from_secs(Some(i64::MAX as u64)));
    assert_eq!(None, timestamp_from_secs(Some(i64::MAX as u64 + 1)));
    assert_eq!(None, timestamp_from_secs(None));
}
