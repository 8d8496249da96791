//! Verified core of a self-hosted service monitor: the decisions taken after
//! each probe of a monitored target, the texts shown on the dashboard, the
//! ordering of reported issues, the registry of scheduled probe jobs and the
//! list of live update subscribers.

mod decimal;

pub use decimal::{decimal_digits, decimal_string, decimal_text, digit_char};
mod elapsed;
pub use elapsed::{
    describe_elapsed, elapsed_phrase, format_duration, lemma_elapsed_phrase_by_range, seconds_of,
};
mod pages;
pub use pages::{
    count_with_status, created_monitor_page, index_page, lemma_status_count_bounds,
    lemma_status_count_empty, lemma_status_count_push, lemma_tallies_cover_all,
    monitor_from_summary, pending_monitor,
    status_count, status_from_last_success, summary_status, IndexTemplate, IssueTemplate,
    MonitorTemplate, MonitorsTemplate, Status, WARNINGS_SHOWN,
};
mod probe;
pub use probe::{
    change_due, change_needed, check_succeeded, event_name_of, is_client_error_code,
    is_server_error_code, lemma_answered_code_is_stored, lemma_consecutive_probes,
    lemma_event_name_identifies_monitor, lemma_first_probe_records_change,
    lemma_repeated_outcome_records_nothing, lemma_success_by_code,
    lemma_unavailable_history_records_nothing, live_card, monitor_event_name,
    plan_probe_outcome, probe_http_code, probe_status, probe_succeeded, stored_http_code,
    ChangeRecord, LastChange, ProbeOutcome, ResponseTimeRecord,
};
mod jobs;
pub use jobs::{
    after_take, cron_expression_accepted, cron_parse_of, lemma_empty_registry_refuses,
    lemma_other_monitors_untouched, lemma_second_take_refused, lemma_take_returns_registered,
    schedule_error_text, schedule_for, schedule_from_parsed, take_result, JobRegistry,
    ScheduleError,
};
mod issues;
pub use issues::{
    is_permutation, issue_view, lemma_issue_shows_recorded_code, newest_first, same_instant, shown_http_code, sort_newest_first,
    stable_newest_first_by, strictly_newer, IssueRecord,
};
mod clients;
pub use clients::{
    count_true, keep_responsive, lemma_all_responsive_keeps_all, lemma_kept_answered,
    lemma_kept_count, lemma_none_responsive_keeps_none, lemma_prune_keeps_later_registration, responsive_only, ClientList,
};
mod config;
pub use config::{
    all_digits, digits_value, is_digit, lemma_decimal_text_injective,
    lemma_decimal_text_reads_back, lemma_port_text_round_trip, parse_port, port_digits, port_from_setting,
    port_number, port_setting, ConfigError, DEFAULT_PORT,
};
