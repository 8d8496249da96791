use isitonline::{
    change_needed, check_succeeded, monitor_event_name, plan_probe_outcome, stored_http_code,
    ChangeRecord, LastChange, ResponseTimeRecord, Status,
};

#[test]
fn success_by_status_class() {
    assert!(check_succeeded(Some(200)));
    assert!(check_succeeded(Some(101)));
    assert!(check_succeeded(Some(301)));
    assert!(check_succeeded(Some(399)));
    assert!(!check_succeeded(Some(400)));
    assert!(!check_succeeded(Some(404)));
    assert!(!check_succeeded(Some(499)));
    assert!(!check_succeeded(Some(500)));
    assert!(!check_succeeded(Some(599)));
    assert!(check_succeeded(Some(600)));
    assert!(!check_succeeded(None));
}

#[test]
fn stored_code_of_answer() {
    assert_eq!(stored_http_code(Some(404)), Some(404));
    assert_eq!(stored_http_code(None), None);
}

#[test]
fn change_detection() {
    assert!(change_needed(&LastChange::Absent, true, Some(200)));
    assert!(!change_needed(&LastChange::Unavailable, false, None));
    let last = LastChange::Recorded { success: true, http_code: Some(200) };
    assert!(!change_needed(&last, true, Some(200)));
    assert!(change_needed(&last, false, Some(200)));
    assert!(change_needed(&last, true, Some(204)));
    assert!(change_needed(&last, true, None));
    let down = LastChange::Recorded { success: false, http_code: None };
    assert!(!change_needed(&down, false, None));
    assert!(change_needed(&down, false, Some(500)));
}

#[test]
fn event_names() {
    assert_eq!(monitor_event_name(7), "monitor-7");
    assert_eq!(monitor_event_name(1234), "monitor-1234");
    assert_eq!(monitor_event_name(-3), "monitor--3");
}

#[test]
fn first_probe_records_its_outcome() {
    let outcome = plan_probe_outcome(9, "site".to_string(), Some(200), 35, &LastChange::Absent);
    assert_eq!(
        outcome.change,
        Some(ChangeRecord { monitor_id: 9, success: true, http_code: Some(200) })
    );
    assert_eq!(outcome.response_time, ResponseTimeRecord { monitor_id: 9, time_ms: 35 });
    assert_eq!(outcome.update.id, 9);
    assert_eq!(outcome.update.name, "site");
    assert_eq!(outcome.update.status, Status::Online);
    assert_eq!(outcome.update.timestamp.as_deref(), Some("Just Now"));
    assert_eq!(outcome.update.response_time, Some(35));
    assert_eq!(outcome.update.http_code, Some(200));
    assert_eq!(outcome.event_name, "monitor-9");
}

#[test]
fn repeated_outcome_records_nothing() {
    let first = plan_probe_outcome(4, "a".to_string(), Some(503), 80, &LastChange::Absent);
    let recorded = first.change.unwrap();
    let last = LastChange::Recorded { success: recorded.success, http_code: recorded.http_code };
    let second = plan_probe_outcome(4, "a".to_string(), Some(503), 95, &last);
    assert_eq!(second.change, None);
    assert_eq!(second.update.status, Status::Offline);
    assert_eq!(second.response_time.time_ms, 95);
    let third = plan_probe_outcome(4, "a".to_string(), Some(200), 20, &last);
    assert_eq!(
        third.change,
        Some(ChangeRecord { monitor_id: 4, success: true, http_code: Some(200) })
    );
}

#[test]
fn unreachable_target_is_offline_without_code() {
    let last = LastChange::Recorded { success: true, http_code: Some(200) };
    let outcome = plan_probe_outcome(2, "b".to_string(), None, 5000, &last);
    assert_eq!(outcome.change, Some(ChangeRecord { monitor_id: 2, success: false, http_code: None }));
    assert_eq!(outcome.update.status, Status::Offline);
    assert_eq!(outcome.update.http_code, None);
}

#[test]
fn failed_lookup_records_nothing() {
    let outcome = plan_probe_outcome(2, "b".to_string(), Some(500), 10, &LastChange::Unavailable);
    assert_eq!(outcome.change, None);
    assert_eq!(outcome.update.status, Status::Offline);
}
