use request_tracker::merge::Field;
use request_tracker::models::{ReqStatus, UpdateRequest};
use request_tracker::repo::{
    delete_outcome, parse_record_id, plan_update, update_outcome, DeleteOutcome, RepoError,
    UpdateOutcome, UpdatePlan,
};

fn empty_patch() -> UpdateRequest {
    UpdateRequest {
        name: None,
        email: None,
        start_date: None,
        end_date: None,
        start_time: None,
        end_time: None,
        charge_against: None,
        manager: None,
        status: None,
    }
}

#[test]
fn id_text_decodes_to_bytes() {
    let id = parse_record_id("507f1f77bcf86cd799439011").unwrap();
    assert_eq!(
        id.bytes,
        [0x50, 0x7f, 0x1f, 0x77, 0xbc, 0xf8, 0x6c, 0xd7, 0x99, 0x43, 0x90, 0x11]
    );
    let upper = parse_record_id("507F1F77BCF86CD799439011").unwrap();
    assert_eq!(upper.bytes, id.bytes);
}

#[test]
fn malformed_ids_are_refused() {
    assert_eq!(parse_record_id("").unwrap_err(), RepoError::MalformedId);
    assert_eq!(parse_record_id("507f1f77bcf86cd79943901").unwrap_err(), RepoError::MalformedId);
    assert_eq!(parse_record_id("507f1f77bcf86cd7994390111").unwrap_err(), RepoError::MalformedId);
    assert_eq!(parse_record_id("zzzf1f77bcf86cd799439011").unwrap_err(), RepoError::MalformedId);
}

#[test]
fn update_with_bad_id_is_refused() {
    let mut p = empty_patch();
    p.status = Some(ReqStatus::Approved);
    assert!(matches!(plan_update("nope", &p), Err(RepoError::MalformedId)));
}

#[test]
fn empty_update_writes_nothing() {
    assert!(matches!(
        plan_update("507f1f77bcf86cd799439011", &empty_patch()),
        Ok(UpdatePlan::NoChange(_))
    ));
}

#[test]
fn status_update_writes_status() {
    let mut p = empty_patch();
    p.status = Some(ReqStatus::Approved);
    match plan_update("507f1f77bcf86cd799439011", &p) {
        Ok(UpdatePlan::Write(id, ws)) => {
            assert_eq!(id.bytes[0], 0x50);
            assert_eq!(ws.entries, vec![(Field::Status, "Approved".to_string())]);
        }
        _ => panic!("expected a write"),
    }
}

#[test]
fn update_outcomes_are_told_apart() {
    assert_eq!(update_outcome(0, 0), UpdateOutcome::NotFound);
    assert_eq!(update_outcome(1, 0), UpdateOutcome::Unchanged);
    assert_eq!(update_outcome(1, 1), UpdateOutcome::Updated);
}

#[test]
fn deleting_missing_record_is_not_found() {
    assert_eq!(delete_outcome(0), DeleteOutcome::NotFound);
    assert_eq!(delete_outcome(1), DeleteOutcome::Deleted);
}
