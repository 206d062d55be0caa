//! Exercises each ledger operation: creation, revocation, access requests,
//! and the defaults the views return for ids that were never touched.

use health_ledger::ledger::HealthcareDataContract;
use health_ledger::types::{Admincontrol, LedgerError};

#[test]
fn view_never_created_returns_sentinel() {
    let ledger = HealthcareDataContract::new();
    for id in [0u64, 1, 5, 999, u64::MAX] {
        let record = ledger.view_data(id);
        assert_eq!(record.record_id, 0);
        assert_eq!(record.patient_id, "Not Found");
        assert_eq!(record.data_hash, "Not Found");
        assert_eq!(record.timestamp, 0);
        assert!(record.is_revoked);
    }
}

#[test]
fn view_beyond_created_ids_returns_sentinel() {
    let mut ledger = HealthcareDataContract::new();
    ledger.create_data("p1".to_string(), "hash1".to_string(), 7).unwrap();
    let record = ledger.view_data(2);
    assert_eq!(record.record_id, 0);
    assert_eq!(record.patient_id, "Not Found");
    assert!(record.is_revoked);
}

#[test]
fn create_stores_record_and_steps_counts() {
    let mut ledger = HealthcareDataContract::new();
    let id = ledger.create_data("patient-7".to_string(), "digest-a".to_string(), 1234).unwrap();
    assert_eq!(id, 1);
    let record = ledger.view_data(id);
    assert_eq!(record.record_id, 1);
    assert_eq!(record.patient_id, "patient-7");
    assert_eq!(record.data_hash, "digest-a");
    assert_eq!(record.timestamp, 1234);
    assert!(!record.is_revoked);
    let status = ledger.view_all_data_status();
    assert_eq!(status.total, 1);
    assert_eq!(status.pending, 1);
    assert_eq!(status.granted, 0);
    assert_eq!(status.revoked, 0);
}

#[test]
fn create_assigns_consecutive_ids() {
    let mut ledger = HealthcareDataContract::new();
    let first = ledger.create_data("p1".to_string(), "h1".to_string(), 1).unwrap();
    let second = ledger.create_data("p2".to_string(), "h2".to_string(), 2).unwrap();
    assert_eq!(first, 1);
    assert_eq!(second, 2);
    let status = ledger.view_all_data_status();
    assert_eq!(status.total, 2);
    assert_eq!(status.pending, 2);
    assert_eq!(ledger.view_data(1).patient_id, "p1");
    assert_eq!(ledger.view_data(2).patient_id, "p2");
}

#[test]
fn create_succeeds_after_a_revocation() {
    let mut ledger = HealthcareDataContract::new();
    ledger.create_data("p1".to_string(), "h1".to_string(), 1).unwrap();
    ledger.revoke_access(1).unwrap();
    let id = ledger.create_data("p2".to_string(), "h2".to_string(), 2).unwrap();
    assert_eq!(id, 2);
    let status = ledger.view_all_data_status();
    assert_eq!(status.total, 2);
    assert_eq!(status.revoked, 1);
}

#[test]
fn revoke_marks_record_and_steps_count() {
    let mut ledger = HealthcareDataContract::new();
    let id = ledger.create_data("p1".to_string(), "h1".to_string(), 10).unwrap();
    assert_eq!(ledger.revoke_access(id), Ok(()));
    let record = ledger.view_data(id);
    assert!(record.is_revoked);
    assert_eq!(record.patient_id, "p1");
    let status = ledger.view_all_data_status();
    assert_eq!(status.revoked, 1);
    assert_eq!(status.pending, 1);
    assert_eq!(status.total, 1);
}

#[test]
fn second_revoke_fails_and_changes_nothing() {
    let mut ledger = HealthcareDataContract::new();
    let id = ledger.create_data("p1".to_string(), "h1".to_string(), 10).unwrap();
    ledger.revoke_access(id).unwrap();
    let status_before = ledger.view_all_data_status();
    let record_before = ledger.view_data(id);
    assert_eq!(ledger.revoke_access(id), Err(LedgerError::AlreadyRevokedOrNotFound));
    assert_eq!(ledger.view_all_data_status(), status_before);
    assert_eq!(ledger.view_data(id), record_before);
}

#[test]
fn revoke_never_created_id_fails() {
    let mut ledger = HealthcareDataContract::new();
    assert_eq!(ledger.revoke_access(999), Err(LedgerError::AlreadyRevokedOrNotFound));
    let status = ledger.view_all_data_status();
    assert_eq!(status.total, 0);
    assert_eq!(status.pending, 0);
    assert_eq!(status.granted, 0);
    assert_eq!(status.revoked, 0);
}

#[test]
fn request_grants_access_and_steps_counts() {
    let mut ledger = HealthcareDataContract::new();
    let id = ledger.create_data("p1".to_string(), "h1".to_string(), 10).unwrap();
    assert_eq!(ledger.request_access(id), Ok(()));
    let grant = ledger.view_admin_control(id);
    assert_eq!(grant, Admincontrol { record_id: id, access_granted: true });
    let status = ledger.view_all_data_status();
    assert_eq!(status.granted, 1);
    assert_eq!(status.pending, 0);
}

#[test]
fn second_request_fails_and_changes_nothing() {
    let mut ledger = HealthcareDataContract::new();
    let id = ledger.create_data("p1".to_string(), "h1".to_string(), 10).unwrap();
    ledger.request_access(id).unwrap();
    let status_before = ledger.view_all_data_status();
    let grant_before = ledger.view_admin_control(id);
    assert_eq!(ledger.request_access(id), Err(LedgerError::AlreadyGranted));
    assert_eq!(ledger.view_all_data_status(), status_before);
    assert_eq!(ledger.view_admin_control(id), grant_before);
}

#[test]
fn grant_for_untouched_id_is_default() {
    let ledger = HealthcareDataContract::new();
    let grant = ledger.view_admin_control(3);
    assert_eq!(grant, Admincontrol { record_id: 0, access_granted: false });
}

#[test]
fn request_with_pending_at_zero_wraps_the_count() {
    let mut ledger = HealthcareDataContract::new();
    assert_eq!(ledger.request_access(7), Ok(()));
    let status = ledger.view_all_data_status();
    assert_eq!(status.granted, 1);
    assert_eq!(status.pending, u64::MAX);
    assert_eq!(status.total, 0);
    assert_eq!(ledger.view_admin_control(7).access_granted, true);
}

#[test]
fn views_are_idempotent() {
    let mut ledger = HealthcareDataContract::new();
    ledger.create_data("p1".to_string(), "h1".to_string(), 5).unwrap();
    ledger.create_data("p2".to_string(), "h2".to_string(), 6).unwrap();
    ledger.request_access(1).unwrap();
    ledger.revoke_access(2).unwrap();
    assert_eq!(ledger.view_data(1), ledger.view_data(1));
    assert_eq!(ledger.view_data(2), ledger.view_data(2));
    assert_eq!(ledger.view_data(99), ledger.view_data(99));
    assert_eq!(ledger.view_admin_control(1), ledger.view_admin_control(1));
    assert_eq!(ledger.view_admin_control(99), ledger.view_admin_control(99));
    assert_eq!(ledger.view_all_data_status(), ledger.view_all_data_status());
}
