use vstd::prelude::*;
use crate::common::models::{PackageStatus, WorkerStatus};

verus! {

/// The colours the client prints statuses in.
#[derive(PartialEq, Eq, Structural, Clone, Copy, Debug)]
pub enum UnifiedColor {
    Red,
    Yellow,
    Green,
    Magenta,
    Cyan,
    Blue,
    White,
}

/// The colour of a worker status.
pub open spec fn worker_status_color(status: WorkerStatus) -> UnifiedColor {
    match status {
        WorkerStatus::UNKNOWN => UnifiedColor::Red,
        WorkerStatus::INIT => UnifiedColor::Yellow,
        WorkerStatus::STANDBY => UnifiedColor::Green,
        WorkerStatus::DISPATCHED => UnifiedColor::Magenta,
        WorkerStatus::UPDATING => UnifiedColor::Magenta,
        WorkerStatus::WORKING => UnifiedColor::Cyan,
        WorkerStatus::UPLOADING => UnifiedColor::Blue,
        WorkerStatus::CLEANING => UnifiedColor::Yellow,
    }
}

/// The colour of a package status.
pub open spec fn package_status_color(status: PackageStatus) -> UnifiedColor {
    match status {
        PackageStatus::UNKNOWN => UnifiedColor::White,
        PackageStatus::PENDING => UnifiedColor::Magenta,
        PackageStatus::BUILDING => UnifiedColor::Yellow,
        PackageStatus::BUILT => UnifiedColor::Green,
        PackageStatus::FAILED => UnifiedColor::Red,
    }
}

pub fn get_color_from_worker_status(status: &WorkerStatus) -> (c: UnifiedColor)
    ensures
        c == worker_status_color(*status),
{
    match status {
        WorkerStatus::UNKNOWN => UnifiedColor::Red,
        WorkerStatus::INIT => UnifiedColor::Yellow,
        WorkerStatus::STANDBY => UnifiedColor::Green,
        WorkerStatus::DISPATCHED => UnifiedColor::Magenta,
        WorkerStatus::UPDATING => UnifiedColor::Magenta,
        WorkerStatus::WORKING => UnifiedColor::Cyan,
        WorkerStatus::UPLOADING => UnifiedColor::Blue,
        WorkerStatus::CLEANING => UnifiedColor::Yellow,
    }
}

pub fn get_color_from_package_status(status: &PackageStatus) -> (c: UnifiedColor)
    ensures
        c == package_status_color(*status),
{
    match status {
        PackageStatus::UNKNOWN => UnifiedColor::White,
        PackageStatus::PENDING => UnifiedColor::Magenta,
        PackageStatus::BUILDING => UnifiedColor::Yellow,
        PackageStatus::BUILT => UnifiedColor::Green,
        PackageStatus::FAILED => UnifiedColor::Red,
    }
}

} // verus!
