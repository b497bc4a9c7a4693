use vstd::prelude::*;
use crate::common::responses::PackageResponse;

verus! {

/// What the server posts to its webhooks.
pub enum WebhookPayload {
    /// A package was built with a new version.
    PackageUpdated(PackageResponse),
}

} // verus!
