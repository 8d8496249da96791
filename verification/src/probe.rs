//! The decisions taken after each probe of a monitored target: whether it
//! counts as up, whether a change of state is to be recorded, what is
//! measured, and what live update subscribers are sent.

use vstd::prelude::*;
use vstd::string::*;

use crate::config::{
    all_digits, digits_value, lemma_decimal_text_injective, lemma_decimal_text_reads_back,
};
use crate::decimal::{decimal_string, decimal_text};
use crate::pages::{MonitorTemplate, Status};

verus! {

/// What the store answered when asked for the last recorded change of a
/// monitor.
pub enum LastChange {
    /// The lookup itself failed.
    Unavailable,
    /// No change has been recorded for the monitor yet.
    Absent,
    /// The last recorded change.
    Recorded { success: bool, http_code: Option<i64> },
}

/// A change of state to be stored for a monitor.
#[derive(PartialEq, Eq, Structural, Clone, Copy, Debug)]
pub struct ChangeRecord {
    pub monitor_id: i64,
    pub success: bool,
    pub http_code: Option<i64>,
}

/// A response time to be stored for a monitor, in milliseconds.
#[derive(PartialEq, Eq, Structural, Clone, Copy, Debug)]
pub struct ResponseTimeRecord {
    pub monitor_id: i64,
    pub time_ms: i64,
}

/// Everything a probe leads to: the change to record if any, the response
/// time to record, and the card sent to live update subscribers under the
/// event name.
pub struct ProbeOutcome {
    pub change: Option<ChangeRecord>,
    pub response_time: ResponseTimeRecord,
    pub update: MonitorTemplate,
    pub event_name: String,
}

/// A status code in the client error class (400 to 499).
pub open spec fn is_client_error_code(code: u16) -> bool {
    400 <= code < 500
}

/// A status code in the server error class (500 to 599).
pub open spec fn is_server_error_code(code: u16) -> bool {
    500 <= code < 600
}

/// A probe succeeds when the target answered with a status that is neither
/// a client nor a server error; a request that got no answer fails.
pub open spec fn probe_succeeded(status: Option<u16>) -> bool {
    match status {
        Some(code) => !is_client_error_code(code) && !is_server_error_code(code),
        None => false,
    }
}

/// The status code of the answer, if there was one, as it is stored.
pub open spec fn probe_http_code(status: Option<u16>) -> Option<i64> {
    match status {
        Some(code) => Some(code as i64),
        None => None,
    }
}

/// A change is recorded on the first probe of a monitor and whenever the
/// outcome or the status code differs from the last recorded change; never
/// when the last change could not be looked up.
pub open spec fn change_due(last: LastChange, success: bool, http_code: Option<i64>) -> bool {
    match last {
        LastChange::Unavailable => false,
        LastChange::Absent => true,
        LastChange::Recorded { success: last_success, http_code: last_code } => {
            last_success != success || last_code != http_code
        },
    }
}

/// The status a monitor shows right after a probe.
pub open spec fn probe_status(success: bool) -> Status {
    if success {
        Status::Online
    } else {
        Status::Offline
    }
}

/// The name of the live update event that carries a monitor's card.
pub open spec fn event_name_of(id: i64) -> Seq<char> {
    "monitor-"@ + decimal_text(id as int)
}

/// Whether a probe succeeded, from the status code of the answer if there
/// was one.
pub fn check_succeeded(status: Option<u16>) -> (success: bool)
    ensures
        success == probe_succeeded(status),
{
    match status {
        Some(code) => !(400 <= code && code < 500) && !(500 <= code && code < 600),
        None => false,
    }
}

/// The status code of the answer as it is stored.
pub fn stored_http_code(status: Option<u16>) -> (code: Option<i64>)
    ensures
        code == probe_http_code(status),
        status matches Some(c) ==> code == Some(c as i64),
        status is None ==> code is None,
{
    match status {
        Some(code) => Some(code as i64),
        None => None,
    }
}

/// Whether the probe's outcome is to be recorded as a change.
pub fn change_needed(last: &LastChange, success: bool, http_code: Option<i64>) -> (due: bool)
    ensures
        due == change_due(*last, success, http_code),
{
    match last {
        LastChange::Unavailable => false,
        LastChange::Absent => true,
        LastChange::Recorded { success: last_success, http_code: last_code } => {
            if *last_success != success {
                true
            } else {
                match (last_code, http_code) {
                    (Some(a), Some(b)) => *a != b,
                    (None, None) => false,
                    _ => true,
                }
            }
        },
    }
}

/// The name of the live update event for a monitor: `monitor-` and its id.
pub fn monitor_event_name(id: i64) -> (name: String)
    ensures
        name@ == event_name_of(id),
{
    let digits = decimal_string(id);
    String::from_str("monitor-").concat(digits.as_str())
}

/// The card sent to subscribers right after a probe.
pub fn live_card(
    id: i64,
    name: String,
    success: bool,
    response_time_ms: i64,
    http_code: Option<i64>,
) -> (card: MonitorTemplate)
    ensures
        card.id == id,
        card.name == name,
        card.status == probe_status(success),
        card.timestamp is Some,
        card.timestamp->0@ == "Just Now"@,
        card.response_time == Some(response_time_ms),
        card.http_code == http_code,
{
    let status = if success {
        Status::Online
    } else {
        Status::Offline
    };
    MonitorTemplate {
        id,
        name,
        status,
        timestamp: Some(String::from_str("Just Now")),
        response_time: Some(response_time_ms),
        http_code,
    }
}

/// Decides what a probe of monitor `id` leads to, from the status code of
/// the answer (none when the request failed), the measured round trip and
/// what the store knows of the monitor's last change.
pub fn plan_probe_outcome(
    id: i64,
    name: String,
    status: Option<u16>,
    response_time_ms: i64,
    last: &LastChange,
) -> (outcome: ProbeOutcome)
    ensures
        change_due(*last, probe_succeeded(status), probe_http_code(status)) ==> outcome.change
            == Some(
            ChangeRecord {
                monitor_id: id,
                success: probe_succeeded(status),
                http_code: probe_http_code(status),
            },
        ),
        !change_due(*last, probe_succeeded(status), probe_http_code(status))
            ==> outcome.change is None,
        outcome.response_time == (ResponseTimeRecord { monitor_id: id, time_ms: response_time_ms }),
        outcome.update.id == id,
        outcome.update.name == name,
        outcome.update.status == probe_status(probe_succeeded(status)),
        outcome.update.timestamp is Some,
        outcome.update.timestamp->0@ == "Just Now"@,
        outcome.update.response_time == Some(response_time_ms),
        outcome.update.http_code == probe_http_code(status),
        outcome.event_name@ == event_name_of(id),
        status matches Some(c) ==> outcome.update.http_code == Some(c as i64),
        status matches Some(c) ==> (outcome.change matches Some(r) ==> r.http_code == Some(
            c as i64,
        )),
        status is None ==> outcome.update.http_code is None,
        status is None ==> (outcome.change matches Some(r) ==> r.http_code is None),
{
    let success = check_succeeded(status);
    let http_code = stored_http_code(status);
    let change = if change_needed(last, success, http_code) {
        Some(ChangeRecord { monitor_id: id, success, http_code })
    } else {
        None
    };
    ProbeOutcome {
        change,
        response_time: ResponseTimeRecord { monitor_id: id, time_ms: response_time_ms },
        update: live_card(id, name, success, response_time_ms, http_code),
        event_name: monitor_event_name(id),
    }
}

/// A probe whose outcome and status code equal those of the last recorded
/// change records nothing: repeating the same result adds no change.
pub proof fn lemma_repeated_outcome_records_nothing(success: bool, http_code: Option<i64>)
    ensures
        !change_due(LastChange::Recorded { success, http_code }, success, http_code),
{
}

/// The first probe of a monitor always records a change.
pub proof fn lemma_first_probe_records_change(success: bool, http_code: Option<i64>)
    ensures
        change_due(LastChange::Absent, success, http_code),
{
}

/// When the last change could not be looked up, no change is recorded.
pub proof fn lemma_unavailable_history_records_nothing(success: bool, http_code: Option<i64>)
    ensures
        !change_due(LastChange::Unavailable, success, http_code),
{
}

/// Two probes in a row: once the first one's change has been recorded, the
/// second records a change exactly when its outcome or status code differs.
pub proof fn lemma_consecutive_probes(first: Option<u16>, second: Option<u16>)
    ensures
        change_due(
            LastChange::Recorded {
                success: probe_succeeded(first),
                http_code: probe_http_code(first),
            },
            probe_succeeded(second),
            probe_http_code(second),
        ) <==> (probe_succeeded(first) != probe_succeeded(second) || probe_http_code(first)
            != probe_http_code(second)),
        probe_http_code(first) == probe_http_code(second) ==> !change_due(
            LastChange::Recorded {
                success: probe_succeeded(first),
                http_code: probe_http_code(first),
            },
            probe_succeeded(second),
            probe_http_code(second),
        ),
{
}

/// A probe counts as up exactly when an answer came whose status code is
/// below 400 or at least 600.
pub proof fn lemma_success_by_code(status: Option<u16>)
    ensures
        probe_succeeded(status) <==> (status matches Some(code) && (code < 400 || code >= 600)),
{
}


/// The stored status code is the code the target answered with; only a
/// request that got no answer stores none.
pub proof fn lemma_answered_code_is_stored(code: u16)
    ensures
        probe_http_code(Some(code)) == Some(code as i64),
        probe_http_code(Some(code)) is Some,
        probe_http_code(None) is None,
{
}

/// The event name of a monitor is `monitor-` followed by its id in decimal,
/// and that part reads back as the id; so different monitors never share an
/// event name.
pub proof fn lemma_event_name_identifies_monitor(a: i64, b: i64)
    ensures
        event_name_of(a) == "monitor-"@ + decimal_text(a as int),
        event_name_of(a).skip("monitor-"@.len() as int) == decimal_text(a as int),
        a >= 0 ==> all_digits(event_name_of(a).skip("monitor-"@.len() as int)),
        a >= 0 ==> digits_value(event_name_of(a).skip("monitor-"@.len() as int)) == a,
        event_name_of(a) == event_name_of(b) ==> a == b,
{
    let p = "monitor-"@;
    assert((p + decimal_text(a as int)).skip(p.len() as int) =~= decimal_text(a as int));
    assert((p + decimal_text(b as int)).skip(p.len() as int) =~= decimal_text(b as int));
    lemma_decimal_text_reads_back(a as int);
    if event_name_of(a) == event_name_of(b) {
        lemma_decimal_text_injective(a as int, b as int);
    }
}

} // verus!
