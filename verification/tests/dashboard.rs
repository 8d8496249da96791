use chrono::TimeDelta;
use isitonline::{
    count_with_status, created_monitor_page, decimal_string, describe_elapsed, format_duration,
    index_page, issue_view, monitor_from_summary, pending_monitor, sort_newest_first,
    status_from_last_success, IssueRecord, IssueTemplate, MonitorTemplate, Status,
    WARNINGS_SHOWN,
};

fn card(id: i64, status: Status) -> MonitorTemplate {
    MonitorTemplate {
        id,
        name: format!("monitor {id}"),
        status,
        timestamp: None,
        response_time: None,
        http_code: None,
    }
}

fn record(secs: i64, nanos: u32, name: &str) -> IssueRecord {
    IssueRecord {
        occurred_secs: secs,
        occurred_nanos: nanos,
        success: false,
        http_code: Some(503),
        name: name.to_string(),
        target: format!("https://{name}.example"),
    }
}

#[test]
fn decimal_matches_display() {
    for n in [0i64, 7, 10, 42, 1000, -1, -7, -120, i64::MAX, i64::MIN] {
        assert_eq!(decimal_string(n), n.to_string());
    }
}

#[test]
fn elapsed_phrases_at_each_threshold() {
    assert_eq!(describe_elapsed(0), "Just now");
    assert_eq!(describe_elapsed(1), "1 second ago");
    assert_eq!(describe_elapsed(2), "2 seconds ago");
    assert_eq!(describe_elapsed(59), "59 seconds ago");
    assert_eq!(describe_elapsed(60), "1 minute ago");
    assert_eq!(describe_elapsed(119), "1 minute ago");
    assert_eq!(describe_elapsed(120), "2 minutes ago");
    assert_eq!(describe_elapsed(3599), "59 minutes ago");
    assert_eq!(describe_elapsed(86_400), "yesterday");
    assert_eq!(describe_elapsed(172_799), "yesterday");
    assert_eq!(describe_elapsed(172_800), "2 days ago");
}

#[test]
fn elapsed_between_an_hour_and_a_day_reads_zero_days() {
    assert_eq!(describe_elapsed(3600), "0 days ago");
    assert_eq!(describe_elapsed(86_399), "0 days ago");
}

#[test]
fn elapsed_in_the_future_reads_as_seconds() {
    assert_eq!(describe_elapsed(-1), "-1 seconds ago");
    assert_eq!(describe_elapsed(-3600), "-3600 seconds ago");
}

#[test]
fn format_duration_uses_whole_seconds() {
    assert_eq!(format_duration(&TimeDelta::seconds(90)), "1 minute ago");
    assert_eq!(format_duration(&TimeDelta::milliseconds(999)), "Just now");
    assert_eq!(format_duration(&TimeDelta::milliseconds(-1500)), "-1 seconds ago");
    assert_eq!(format_duration(&TimeDelta::days(3)), "3 days ago");
    for secs in [-100_000i64, -61, -1, 0, 1, 59, 60, 3599, 3600, 86_400, 200_000] {
        let d = TimeDelta::seconds(secs);
        assert_eq!(format_duration(&d), describe_elapsed(d.num_seconds()));
    }
}

#[test]
fn summary_status_by_last_outcome() {
    assert_eq!(status_from_last_success(Some(true)), Status::Online);
    assert_eq!(status_from_last_success(Some(false)), Status::Offline);
    assert_eq!(status_from_last_success(None), Status::Pending);
}

#[test]
fn monitor_card_from_summary_row() {
    let card = monitor_from_summary(
        3,
        "api".to_string(),
        Some(false),
        &TimeDelta::minutes(5),
        Some(120),
        Some(502),
    );
    assert_eq!(card.id, 3);
    assert_eq!(card.name, "api");
    assert_eq!(card.status, Status::Offline);
    assert_eq!(card.timestamp.as_deref(), Some("5 minutes ago"));
    assert_eq!(card.response_time, Some(120));
    assert_eq!(card.http_code, Some(502));
}

#[test]
fn created_monitor_is_pending() {
    let page = created_monitor_page(11, "blog".to_string());
    assert_eq!(page.monitors.len(), 1);
    let card = &page.monitors[0];
    assert_eq!(card.id, 11);
    assert_eq!(card.name, "blog");
    assert_eq!(card.status, Status::Pending);
    assert!(card.timestamp.is_none());
    assert!(card.response_time.is_none());
    assert!(card.http_code.is_none());
    let alone = pending_monitor(12, "shop".to_string());
    assert_eq!(alone.status, Status::Pending);
}

#[test]
fn overview_counts_online_and_offline() {
    let monitors = vec![
        card(1, Status::Online),
        card(2, Status::Offline),
        card(3, Status::Pending),
        card(4, Status::Online),
        card(5, Status::Online),
    ];
    assert_eq!(count_with_status(&monitors, Status::Pending), 1);
    let issues: Vec<IssueTemplate> = Vec::new();
    let page = index_page(monitors, issues, "98.4".to_string());
    assert_eq!(page.online_monitors, 3);
    assert_eq!(page.offline_monitors, 1);
    assert_eq!(page.warnings, 404);
    assert_eq!(WARNINGS_SHOWN, 404);
    assert_eq!(page.average_uptime, "98.4");
    assert_eq!(page.monitors.len(), 5);
    assert!(page.issues.is_empty());
}

#[test]
fn overview_of_no_monitors() {
    let page = index_page(Vec::new(), Vec::new(), String::new());
    assert_eq!(page.online_monitors, 0);
    assert_eq!(page.offline_monitors, 0);
}

#[test]
fn issues_sorted_newest_first_and_stable() {
    let issues = vec![
        record(100, 0, "a"),
        record(300, 0, "b"),
        record(200, 5, "c"),
        record(300, 0, "d"),
        record(200, 7, "e"),
        record(100, 0, "f"),
    ];
    let sorted = sort_newest_first(issues);
    let names: Vec<&str> = sorted.iter().map(|r| r.name.as_str()).collect();
    assert_eq!(names, vec!["b", "d", "e", "c", "a", "f"]);
}

#[test]
fn sorting_no_issues() {
    assert!(sort_newest_first(Vec::new()).is_empty());
}

#[test]
fn issue_line_keeps_fields_and_truncates_code() {
    let line = issue_view(record(5, 0, "db"), "Jan, 01 2024 • 10:00:00 AM".to_string());
    assert_eq!(line.timestamp, "Jan, 01 2024 • 10:00:00 AM");
    assert!(!line.success);
    assert_eq!(line.http_code, Some(503));
    assert_eq!(line.name, "db");
    assert_eq!(line.target, "https://db.example");
    let mut odd = record(5, 0, "x");
    odd.http_code = Some(70_000);
    assert_eq!(issue_view(odd, String::new()).http_code, Some(70_000i64 as u16));
    let mut none = record(5, 0, "y");
    none.http_code = None;
    assert_eq!(issue_view(none, String::new()).http_code, None);
}
