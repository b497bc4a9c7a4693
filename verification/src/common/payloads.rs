use vstd::prelude::*;

verus! {

/// Request to put packages back in the build queue.
pub struct PackageRebuildPayload {
    pub packages: Option<Vec<i32>>,
    pub force: Option<bool>,
}

/// Request to create a package.
pub struct CreatePackagePayload {
    pub name: String,
    pub run_before: Option<String>,
}

/// Request to change a package.
pub struct UpdatePackagePayload {
    pub run_before: Option<String>,
}

/// Request to create a patch.
pub struct CreatePackagePatchPayload {
    pub url: String,
    pub sha_512: Option<String>,
}

/// Request to change a patch.
pub struct UpdatePackagePatchPayload {
    pub url: String,
    pub sha_512: Option<String>,
}

} // verus!
