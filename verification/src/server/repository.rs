use vstd::prelude::*;
use crate::server::package_store::{Package, PackageView};
use crate::server::clock::{current_timestamp, ClockUnavailable};

verus! {

/// The message recorded when built files could not be added to the repository.
pub open spec fn repository_failure_message() -> Seq<char> {
    "Failed to add package to repository"@
}

/// A package row after a build reported its output at time `now`: a build
/// that reports an error fails and keeps its last built version; one that
/// does not is built, its error cleared and its version recorded. Either
/// way the time and the list of files are recorded.
pub open spec fn build_output_row(
    p: PackageView,
    files: Seq<Seq<char>>,
    error: Option<Seq<char>>,
    version: Option<Seq<char>>,
    now: i64,
) -> PackageView {
    match error {
        Some(e) => PackageView { last_built: Some(now), status: 4, last_error: Some(e), files, ..p },
        None => PackageView {
            last_built: Some(now),
            status: 3,
            last_error: None,
            last_built_version: version,
            files,
            ..p
        },
    }
}

/// A package row after its files could not be added to the repository.
pub open spec fn repository_failure_row(p: PackageView) -> PackageView {
    PackageView { status: 4, last_error: Some(repository_failure_message()), ..p }
}

/// Where built packages and build logs are kept.
pub struct Repository {
    pub path: String,
    pub build_logs_path: String,
}

impl Repository {
    pub fn new(path: String, build_logs_path: String) -> (r: Repository)
        ensures
            r.path == path,
            r.build_logs_path == build_logs_path,
    {
        Repository { path, build_logs_path }
    }

    /// Records a build's output on the package at time `now` (a Unix timestamp).
    pub fn update_package_state_from_build_data_at(
        &self,
        package: &mut Package,
        package_files: Vec<String>,
        error: Option<String>,
        version: Option<String>,
        now: i64,
    )
        ensures
            final(package)@ == build_output_row(old(package)@, package_files.deep_view(), error.deep_view(), version.deep_view(), now),
    {
        package.set_last_built(Some(now));
        match error {
            Some(e) => {
                package.set_status(crate::common::models::PackageStatus::FAILED);
                package.set_last_error(Some(e));
            },
            None => {
                package.set_status(crate::common::models::PackageStatus::BUILT);
                package.set_last_error(None);
                package.set_last_built_version(version);
            },
        }
        package.set_files(package_files);
    }

    /// Records a build's output on the package at the current time; when
    /// the clock cannot be read the package stays as it was.
    pub fn update_package_state_from_build_data(
        &self,
        package: &mut Package,
        package_files: Vec<String>,
        error: Option<String>,
        version: Option<String>,
    ) -> (r: Result<(), ClockUnavailable>)
        ensures
            r is Ok ==> exists|now: i64| now >= 0 && final(package)@ == #[trigger] build_output_row(
                old(package)@, package_files.deep_view(), error.deep_view(), version.deep_view(), now),
            r is Err ==> final(package)@ == old(package)@,
    {
        match current_timestamp() {
            Some(now) => {
                self.update_package_state_from_build_data_at(package, package_files, error, version, now);
                Ok(())
            },
            None => Err(ClockUnavailable),
        }
    }

    /// Records on the package that its files could not be added to the repository.
    pub fn record_repository_failure(&self, package: &mut Package)
        ensures
            final(package)@ == repository_failure_row(old(package)@),
    {
        package.set_status(crate::common::models::PackageStatus::FAILED);
        let msg = String::from_str("Failed to add package to repository");
        package.set_last_error(Some(msg));
    }
}

} // verus!
