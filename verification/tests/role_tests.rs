use winery_auth::resource::{find_active, parcel_in_vineyard, readings_open};
use winery_auth::resource::{FermentationStatus, HarvestStatus, ReadingsQuery, TankMaterial, TankStatus};
use winery_auth::error::AppError;
use winery_auth::role::UserRole;
use winery_auth::text::{decimal_text, same_text};

#[test]
fn roles_have_lower_case_names() {
    assert_eq!(UserRole::Admin.as_str(), "admin");
    assert_eq!(UserRole::Winemaker.as_str(), "winemaker");
    assert_eq!(UserRole::Worker.as_str(), "worker");
}

#[test]
fn roles_round_trip_through_their_names() {
    for role in [UserRole::Admin, UserRole::Winemaker, UserRole::Worker] {
        assert_eq!(UserRole::parse(role.as_str()), Some(role));
    }
}

#[test]
fn unknown_role_names_are_refused() {
    for name in ["", "Admin", "ADMIN", "admin ", " admin", "owner", "wine maker", "workers"] {
        assert_eq!(UserRole::parse(name), None);
    }
}

#[test]
fn harvest_states_round_trip_through_their_names() {
    let all = [
        (HarvestStatus::Planned, "planned"),
        (HarvestStatus::InProgress, "in_progress"),
        (HarvestStatus::Completed, "completed"),
        (HarvestStatus::Cancelled, "cancelled"),
    ];
    for (status, name) in all {
        assert_eq!(status.as_str(), name);
        assert_eq!(status.to_text(), name);
        assert_eq!(HarvestStatus::parse(name), Some(status));
        assert_eq!(HarvestStatus::from_request(Some(name)).unwrap(), status);
    }
}

#[test]
fn requested_status_must_be_present_and_known() {
    match HarvestStatus::from_request(None) {
        Err(AppError::ValidationError(m)) => assert_eq!(m, "status field is required"),
        other => panic!("expected a validation failure, got {:?}", other),
    }
    for name in ["", "Planned", "in progress", "inprogress", "canceled", "done"] {
        match HarvestStatus::from_request(Some(name)) {
            Err(AppError::ValidationError(m)) => {
                assert_eq!(m, "Invalid status. Use: planned, in_progress, completed, cancelled")
            }
            other => panic!("expected a validation failure for {:?}, got {:?}", name, other),
        }
        assert_eq!(HarvestStatus::parse(name), None);
    }
    assert_eq!(HarvestStatus::from_request(None).unwrap_err().status_code(), 400);
}

#[test]
fn readings_need_an_active_batch() {
    assert!(readings_open(FermentationStatus::Active).is_ok());
    for status in [FermentationStatus::Completed, FermentationStatus::Paused, FermentationStatus::Cancelled] {
        match readings_open(status) {
            Err(AppError::Conflict(m)) => assert_eq!(m, "Can only add readings to active batches"),
            other => panic!("expected a conflict, got {:?}", other),
        }
    }
    assert_eq!(readings_open(FermentationStatus::Paused).unwrap_err().status_code(), 409);
}

#[test]
fn parcel_is_found_only_in_its_vineyard() {
    assert!(parcel_in_vineyard(7, 7).is_ok());
    match parcel_in_vineyard(7, 8) {
        Err(AppError::NotFound(m)) => assert_eq!(m, "Parcel not found in this vineyard"),
        other => panic!("expected not found, got {:?}", other),
    }
    assert_eq!(parcel_in_vineyard(0, u128::MAX).unwrap_err().status_code(), 404);
}

#[test]
fn first_active_batch_is_found() {
    let (active, cancelled, completed, paused) = (
        FermentationStatus::Active,
        FermentationStatus::Cancelled,
        FermentationStatus::Completed,
        FermentationStatus::Paused,
    );
    assert_eq!(find_active(&vec![]), None);
    assert_eq!(find_active(&vec![completed, paused, cancelled]), None);
    assert_eq!(find_active(&vec![active]), Some(0));
    assert_eq!(find_active(&vec![completed, active, paused, active]), Some(1));
    assert_eq!(find_active(&vec![paused, cancelled, completed, active]), Some(3));
}

#[test]
fn resource_states_are_plain_values() {
    assert_ne!(TankStatus::Available, TankStatus::InUse);
    assert_ne!(TankStatus::Cleaning, TankStatus::Maintenance);
    assert_ne!(TankMaterial::StainlessSteel, TankMaterial::Oak);
    assert_ne!(TankMaterial::Concrete, TankMaterial::Fiberglass);
    let q = ReadingsQuery { limit: Some(50) };
    assert_eq!(q.limit, Some(50));
    assert_eq!(ReadingsQuery { limit: None }.limit, None);
}

#[test]
fn text_helpers() {
    assert!(same_text("", ""));
    assert!(same_text("abc", "abc"));
    assert!(!same_text("abc", "abd"));
    assert!(!same_text("abc", "ab"));
    assert!(!same_text("é", "e"));
    assert_eq!(decimal_text(0), "0");
    assert_eq!(decimal_text(7), "7");
    assert_eq!(decimal_text(10), "10");
    assert_eq!(decimal_text(8003), "8003");
    assert_eq!(decimal_text(65535), "65535");
    for n in [1u16, 9, 11, 99, 100, 101, 999, 1000, 4242, 9999, 10000, 60000] {
        assert_eq!(decimal_text(n), n.to_string());
    }
}

fn conflict(r: Result<(), AppError>) -> String {
    match r {
        Err(AppError::Conflict(m)) => m,
        other => panic!("expected a conflict, got {:?}", other),
    }
}

#[test]
fn batches_and_tanks_follow_their_states() {
    let others = [FermentationStatus::Completed, FermentationStatus::Paused, FermentationStatus::Cancelled];
    assert!(winery_auth::resource::iot_readings_open(FermentationStatus::Active).is_ok());
    assert!(winery_auth::resource::batch_deletable(FermentationStatus::Active).is_err());
    for status in others {
        assert_eq!(
            conflict(winery_auth::resource::iot_readings_open(status)),
            "Can only add IoT readings to active batches"
        );
        assert!(winery_auth::resource::batch_deletable(status).is_ok());
    }
    assert_eq!(
        conflict(winery_auth::resource::batch_deletable(FermentationStatus::Active)),
        "Cannot delete an active fermentation batch. Cancel it first."
    );
    assert!(winery_auth::resource::tank_deletable(false).is_ok());
    assert_eq!(
        conflict(winery_auth::resource::tank_deletable(true)),
        "Cannot delete tank with active fermentation batch"
    );
}

#[test]
fn finishing_an_active_batch_releases_its_tank() {
    let all = [
        FermentationStatus::Active,
        FermentationStatus::Completed,
        FermentationStatus::Paused,
        FermentationStatus::Cancelled,
    ];
    for current in all {
        assert!(!winery_auth::resource::releases_tank(None, current));
        for requested in all {
            let finishing =
                requested == FermentationStatus::Completed || requested == FermentationStatus::Cancelled;
            assert_eq!(
                winery_auth::resource::releases_tank(Some(requested), current),
                finishing && current == FermentationStatus::Active
            );
        }
    }
}

#[test]
fn batch_needs_an_available_tank() {
    assert!(winery_auth::resource::tank_accepts_batch(TankStatus::Available, "T1").is_ok());
    assert_eq!(
        conflict(winery_auth::resource::tank_accepts_batch(TankStatus::InUse, "T1")),
        "Tank 'T1' is not available (status: InUse)"
    );
    assert_eq!(
        conflict(winery_auth::resource::tank_accepts_batch(TankStatus::Cleaning, "Big oak")),
        "Tank 'Big oak' is not available (status: Cleaning)"
    );
    assert_eq!(
        conflict(winery_auth::resource::tank_accepts_batch(TankStatus::Maintenance, "")),
        "Tank '' is not available (status: Maintenance)"
    );
    assert_eq!(TankStatus::Available.label(), "Available");
}

#[test]
fn readings_are_limited_to_a_hundred_by_default() {
    assert_eq!(ReadingsQuery { limit: None }.effective_limit(), 100);
    assert_eq!(ReadingsQuery { limit: Some(5) }.effective_limit(), 5);
    assert_eq!(ReadingsQuery { limit: Some(0) }.effective_limit(), 0);
    assert_eq!(ReadingsQuery { limit: Some(-3) }.effective_limit(), -3);
}
