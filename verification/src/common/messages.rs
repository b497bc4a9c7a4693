use vstd::prelude::*;
use crate::common::models::{PackageJob, WorkerStatus};

verus! {

/// Messages exchanged with a worker over its websocket.
pub enum WebsocketMessage {
    WorkerHello { version: String, status: WorkerStatus },
    Authenticate { api_key: String },
    JobSubmit { package: PackageJob },
    WorkerStatusRequest {},
    WorkerStatusUpdate { status: WorkerStatus, job: Option<PackageJob> },
    UploadArtifactRequest {},
    UploadArtifactResponse { path: String },
}

} // verus!
