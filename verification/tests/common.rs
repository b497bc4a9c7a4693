use aur_build::common::models::{PackageStatus, WorkerStatus};
use aur_build::common::responses::SuccessResponse;

#[test]
fn status_from_code() {
    assert_eq!(PackageStatus::UNKNOWN, PackageStatus::from_u8(0));
    assert_eq!(PackageStatus::PENDING, PackageStatus::from_u8(1));
    assert_eq!(PackageStatus::BUILDING, PackageStatus::from_u8(2));
    assert_eq!(PackageStatus::BUILT, PackageStatus::from_u8(3));
    assert_eq!(PackageStatus::FAILED, PackageStatus::from_u8(4));
    assert_eq!(PackageStatus::UNKNOWN, PackageStatus::from_u8(5));
    assert_eq!(PackageStatus::UNKNOWN, PackageStatus::from_u8(255));
}

#[test]
fn status_code_round_trip() {
    for s in [PackageStatus::UNKNOWN, PackageStatus::PENDING, PackageStatus::BUILDING, PackageStatus::BUILT, PackageStatus::FAILED] {
        let code: i16 = s.into();
        assert_eq!(s, PackageStatus::from_u8(code as u8));
        assert_eq!(code, s.code() as i16);
    }
    let code: i16 = PackageStatus::FAILED.into();
    assert_eq!(4, code);
}

#[test]
fn status_names() {
    assert_eq!("PENDING", PackageStatus::PENDING.name());
    assert_eq!("FAILED", PackageStatus::FAILED.name());
    assert_eq!("STANDBY", WorkerStatus::STANDBY.name());
    assert_eq!("CLEANING", WorkerStatus::CLEANING.name());
}

#[test]
fn success_response() {
    assert!(SuccessResponse::from(true).success);
    assert!(!SuccessResponse::from(false).success);
}
