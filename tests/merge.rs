use request_tracker::merge::{merge_patch, Field};
use request_tracker::models::{ReqCharge, ReqStatus, Request, UpdateRequest};

fn empty_patch() -> UpdateRequest {
    UpdateRequest {
        name: None,
        email: None,
        start_date: None,
        end_date: None,
        start_time: None,
        end_time: None,
        charge_against: None,
        manager: None,
        status: None,
    }
}

fn stored() -> Request {
    Request {
        id: None,
        name: "Ada".to_string(),
        email: "ada@example.com".to_string(),
        start_date: "03/04/2024".to_string(),
        end_date: "03/08/2024".to_string(),
        start_time: "09:00".to_string(),
        end_time: "17:00".to_string(),
        charge_against: ReqCharge::Vacation,
        manager: "Grace".to_string(),
        status: ReqStatus::Pending,
    }
}

fn pairs(p: &UpdateRequest) -> Vec<(&'static str, String)> {
    merge_patch(p)
        .entries
        .iter()
        .map(|(f, v)| (f.key(), v.clone()))
        .collect()
}

#[test]
fn status_only_patch_writes_status_only() {
    let mut p = empty_patch();
    p.status = Some(ReqStatus::Approved);
    assert_eq!(pairs(&p), vec![("status", "Approved".to_string())]);
}

#[test]
fn empty_patch_writes_nothing() {
    let ws = merge_patch(&empty_patch());
    assert!(ws.is_empty());
    assert!(ws.entries.is_empty());
}

#[test]
fn full_patch_writes_every_field_once() {
    let p = UpdateRequest {
        name: Some("Bob".to_string()),
        email: Some("bob@example.com".to_string()),
        start_date: Some("01/02/2024".to_string()),
        end_date: Some("01/05/2024".to_string()),
        start_time: Some("08:00".to_string()),
        end_time: Some("12:00".to_string()),
        charge_against: Some(ReqCharge::BankedStatTime),
        manager: Some("Carol".to_string()),
        status: Some(ReqStatus::Processed),
    };
    assert_eq!(
        pairs(&p),
        vec![
            ("charge_against", "BankedStatTime".to_string()),
            ("status", "Processed".to_string()),
            ("name", "Bob".to_string()),
            ("email", "bob@example.com".to_string()),
            ("start_date", "01/02/2024".to_string()),
            ("end_date", "01/05/2024".to_string()),
            ("start_time", "08:00".to_string()),
            ("end_time", "12:00".to_string()),
            ("manager", "Carol".to_string()),
        ]
    );
}

#[test]
fn enumerated_fields_use_variant_names() {
    let mut p = empty_patch();
    p.charge_against = Some(ReqCharge::UnPaidTime);
    p.email = Some("x@y.z".to_string());
    let ws = merge_patch(&p);
    assert_eq!(ws.entries.len(), 2);
    assert_eq!(ws.entries[0].0, Field::ChargeAgainst);
    assert_eq!(ws.entries[0].1, "UnPaidTime");
    assert_eq!(ws.entries[1].0, Field::Email);
    assert_eq!(ReqCharge::BankedTime.as_str(), "BankedTime");
    assert_eq!(ReqCharge::Other.as_str(), "Other");
    assert_eq!(ReqStatus::Completed.as_str(), "Completed");
    assert_eq!(Field::StartTime.key(), "start_time");
}

#[test]
fn patch_changes_only_present_fields() {
    let mut r = stored();
    let mut p = empty_patch();
    p.manager = Some("Dan".to_string());
    p.status = Some(ReqStatus::Approved);
    r.apply_patch(&p);
    assert_eq!(r.manager, "Dan");
    assert_eq!(r.status, ReqStatus::Approved);
    assert_eq!(r.name, "Ada");
    assert_eq!(r.end_date, "03/08/2024");
    assert_eq!(r.charge_against, ReqCharge::Vacation);
}

#[test]
fn empty_patch_leaves_record_unchanged() {
    let mut r = stored();
    r.apply_patch(&empty_patch());
    let s = stored();
    assert_eq!(r.name, s.name);
    assert_eq!(r.email, s.email);
    assert_eq!(r.start_date, s.start_date);
    assert_eq!(r.end_date, s.end_date);
    assert_eq!(r.start_time, s.start_time);
    assert_eq!(r.end_time, s.end_time);
    assert_eq!(r.manager, s.manager);
    assert_eq!(r.charge_against, s.charge_against);
    assert_eq!(r.status, s.status);
}

#[test]
fn new_requests_default_to_pending() {
    assert_eq!(ReqStatus::default(), ReqStatus::Pending);
}
