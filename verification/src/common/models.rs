use vstd::prelude::*;

verus! {

/// A patch applied to a package before it is built.
pub struct PackagePatch {
    pub url: String,
    pub sha512: Option<String>,
}

/// What a worker needs to know about a package to build it.
pub struct PackageDefinition {
    pub package_id: i32,
    pub name: String,
    pub run_before: Option<String>,
    pub patches: Option<Vec<PackagePatch>>,
}

/// A build job handed to a worker.
pub struct PackageJob {
    pub definition: PackageDefinition,
    pub last_built_version: Option<String>,
}

/// Build state of a package; its numeric code is what the store keeps.
#[derive(PartialEq, Eq, Structural, Clone, Copy, Debug)]
pub enum PackageStatus {
    UNKNOWN,
    PENDING,
    BUILDING,
    BUILT,
    FAILED,
}

/// The numeric code of a status (UNKNOWN = 0 ... FAILED = 4).
pub open spec fn status_code(s: PackageStatus) -> u8 {
    match s {
        PackageStatus::UNKNOWN => 0,
        PackageStatus::PENDING => 1,
        PackageStatus::BUILDING => 2,
        PackageStatus::BUILT => 3,
        PackageStatus::FAILED => 4,
    }
}

/// The status of a numeric code; codes outside 1..=4 read as UNKNOWN.
pub open spec fn status_from_code(value: u8) -> PackageStatus {
    if value == 1 {
        PackageStatus::PENDING
    } else if value == 2 {
        PackageStatus::BUILDING
    } else if value == 3 {
        PackageStatus::BUILT
    } else if value == 4 {
        PackageStatus::FAILED
    } else {
        PackageStatus::UNKNOWN
    }
}

/// The printed name of a status, as its `Debug` form shows it.
pub open spec fn status_name(s: PackageStatus) -> Seq<char> {
    match s {
        PackageStatus::UNKNOWN => "UNKNOWN"@,
        PackageStatus::PENDING => "PENDING"@,
        PackageStatus::BUILDING => "BUILDING"@,
        PackageStatus::BUILT => "BUILT"@,
        PackageStatus::FAILED => "FAILED"@,
    }
}

impl PackageStatus {
    pub fn from_u8(value: u8) -> (s: PackageStatus)
        ensures
            s == status_from_code(value),
    {
        match value {
            1 => PackageStatus::PENDING,
            2 => PackageStatus::BUILDING,
            3 => PackageStatus::BUILT,
            4 => PackageStatus::FAILED,
            _ => PackageStatus::UNKNOWN,
        }
    }

    /// The numeric code of the status.
    pub fn code(self) -> (c: u8)
        ensures
            c == status_code(self),
    {
        match self {
            PackageStatus::UNKNOWN => 0,
            PackageStatus::PENDING => 1,
            PackageStatus::BUILDING => 2,
            PackageStatus::BUILT => 3,
            PackageStatus::FAILED => 4,
        }
    }

    /// The printed name of the status (what `to_string` gives).
    pub fn name(&self) -> (n: &'static str)
        ensures
            n@ == status_name(*self),
    {
        match self {
            PackageStatus::UNKNOWN => {
                proof { reveal_strlit("UNKNOWN"); }
                "UNKNOWN"
            },
            PackageStatus::PENDING => {
                proof { reveal_strlit("PENDING"); }
                "PENDING"
            },
            PackageStatus::BUILDING => {
                proof { reveal_strlit("BUILDING"); }
                "BUILDING"
            },
            PackageStatus::BUILT => {
                proof { reveal_strlit("BUILT"); }
                "BUILT"
            },
            PackageStatus::FAILED => {
                proof { reveal_strlit("FAILED"); }
                "FAILED"
            },
        }
    }
}

impl From<PackageStatus> for i16 {
    fn from(status: PackageStatus) -> (r: i16) {
        status.code() as i16
    }
}

impl vstd::std_specs::convert::FromSpecImpl<PackageStatus> for i16 {
    open spec fn obeys_from_spec() -> bool {
        true
    }

    open spec fn from_spec(status: PackageStatus) -> i16 {
        status_code(status) as i16
    }
}

/// Reading back the code of a status gives the status again.
pub proof fn lemma_status_code_roundtrip(s: PackageStatus)
    ensures
        status_from_code(status_code(s)) == s,
{
}

/// State of a worker as it reports it.
#[derive(PartialEq, Eq, Structural, Clone, Copy, Debug)]
pub enum WorkerStatus {
    UNKNOWN,
    STANDBY,
    DISPATCHED,
    INIT,
    UPDATING,
    WORKING,
    UPLOADING,
    CLEANING,
}

/// The printed name of a worker status, as its `Debug` form shows it.
pub open spec fn worker_status_name(s: WorkerStatus) -> Seq<char> {
    match s {
        WorkerStatus::UNKNOWN => "UNKNOWN"@,
        WorkerStatus::STANDBY => "STANDBY"@,
        WorkerStatus::DISPATCHED => "DISPATCHED"@,
        WorkerStatus::INIT => "INIT"@,
        WorkerStatus::UPDATING => "UPDATING"@,
        WorkerStatus::WORKING => "WORKING"@,
        WorkerStatus::UPLOADING => "UPLOADING"@,
        WorkerStatus::CLEANING => "CLEANING"@,
    }
}

impl WorkerStatus {
    /// The printed name of the status (what `to_string` gives).
    pub fn name(&self) -> (n: &'static str)
        ensures
            n@ == worker_status_name(*self),
    {
        match self {
            WorkerStatus::UNKNOWN => {
                proof { reveal_strlit("UNKNOWN"); }
                "UNKNOWN"
            },
            WorkerStatus::STANDBY => {
                proof { reveal_strlit("STANDBY"); }
                "STANDBY"
            },
            WorkerStatus::DISPATCHED => {
                proof { reveal_strlit("DISPATCHED"); }
                "DISPATCHED"
            },
            WorkerStatus::INIT => {
                proof { reveal_strlit("INIT"); }
                "INIT"
            },
            WorkerStatus::UPDATING => {
                proof { reveal_strlit("UPDATING"); }
                "UPDATING"
            },
            WorkerStatus::WORKING => {
                proof { reveal_strlit("WORKING"); }
                "WORKING"
            },
            WorkerStatus::UPLOADING => {
                proof { reveal_strlit("UPLOADING"); }
                "UPLOADING"
            },
            WorkerStatus::CLEANING => {
                proof { reveal_strlit("CLEANING"); }
                "CLEANING"
            },
        }
    }
}

} // verus!
