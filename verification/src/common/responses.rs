use vstd::prelude::*;
use crate::common::models::{PackageStatus, WorkerStatus};

verus! {

/// Answer of a request that only succeeds or fails.
pub struct SuccessResponse {
    pub success: bool,
}

impl SuccessResponse {
    pub fn from(success: bool) -> (r: SuccessResponse)
        ensures
            r.success == success,
    {
        SuccessResponse { success }
    }
}

/// A package as the API shows it; `last_built` is a Unix timestamp in seconds.
pub struct PackageResponse {
    pub id: i32,
    pub name: String,
    pub run_before: Option<String>,
    pub status: PackageStatus,
    pub last_built: Option<i64>,
    pub files: Vec<String>,
    pub last_built_version: Option<String>,
    pub last_error: Option<String>,
}

/// A patch as the API shows it.
pub struct PackagePatchResponse {
    pub id: i32,
    pub package_id: i32,
    pub url: String,
    pub sha_512: Option<String>,
}

/// A worker as the API shows it.
pub struct WorkerResponse {
    pub id: usize,
    pub status: WorkerStatus,
    pub current_job: Option<String>,
    pub is_authenticated: bool,
}

} // verus!
