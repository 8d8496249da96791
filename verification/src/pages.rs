//! What the dashboard pages show: a monitor's card, an issue line and the
//! overview with its tallies.

use vstd::prelude::*;
use chrono::TimeDelta;

use crate::elapsed::{elapsed_phrase, format_duration, seconds_of};

verus! {

/// Where a monitor stands: its last probe failed, succeeded, or it has not
/// been probed yet.
#[derive(PartialEq, Eq, Structural, Clone, Copy, Debug)]
pub enum Status {
    Offline,
    Online,
    Pending,
}

/// One monitor as a card on the dashboard.
pub struct MonitorTemplate {
    pub id: i64,
    pub name: String,
    pub status: Status,
    pub timestamp: Option<String>,
    pub response_time: Option<i64>,
    pub http_code: Option<i64>,
}

/// A list of monitor cards.
pub struct MonitorsTemplate {
    pub monitors: Vec<MonitorTemplate>,
}

/// One open issue: a monitor whose latest recorded change is a failure.
pub struct IssueTemplate {
    pub timestamp: String,
    pub success: bool,
    pub http_code: Option<u16>,
    pub name: String,
    pub target: String,
}

/// The overview page.
pub struct IndexTemplate {
    pub online_monitors: usize,
    pub offline_monitors: usize,
    pub warnings: usize,
    pub average_uptime: String,
    pub monitors: Vec<MonitorTemplate>,
    pub issues: Vec<IssueTemplate>,
}

/// The figure the overview shows under "warnings".
pub const WARNINGS_SHOWN: usize = 404;

/// The status a monitor has by the outcome of its last recorded change, if
/// there is one.
pub open spec fn summary_status(last_success: Option<bool>) -> Status {
    match last_success {
        Some(false) => Status::Offline,
        Some(true) => Status::Online,
        None => Status::Pending,
    }
}

/// How many of the monitors have the given status.
pub open spec fn status_count(monitors: Seq<MonitorTemplate>, status: Status) -> nat
    decreases monitors.len(),
{
    if monitors.len() == 0 {
        0
    } else {
        status_count(monitors.drop_last(), status) + (if monitors.last().status == status {
            1nat
        } else {
            0nat
        })
    }
}

/// The status of a monitor by the outcome of its last recorded change.
pub fn status_from_last_success(last_success: Option<bool>) -> (status: Status)
    ensures
        status == summary_status(last_success),
{
    match last_success {
        Some(false) => Status::Offline,
        Some(true) => Status::Online,
        None => Status::Pending,
    }
}

/// The card of a monitor from its summary row: its status by the last
/// recorded outcome, and how long ago that was.
pub fn monitor_from_summary(
    id: i64,
    name: String,
    last_success: Option<bool>,
    since: &TimeDelta,
    response_time: Option<i64>,
    http_code: Option<i64>,
) -> (card: MonitorTemplate)
    ensures
        card.id == id,
        card.name == name,
        card.status == summary_status(last_success),
        card.timestamp is Some,
        card.timestamp->0@ == elapsed_phrase(seconds_of(*since) as int),
        card.response_time == response_time,
        card.http_code == http_code,
{
    let timestamp = format_duration(since);
    MonitorTemplate {
        id,
        name,
        status: status_from_last_success(last_success),
        timestamp: Some(timestamp),
        response_time,
        http_code,
    }
}

/// The card of a monitor that was just created: pending, with nothing
/// measured yet.
pub fn pending_monitor(id: i64, name: String) -> (card: MonitorTemplate)
    ensures
        card.id == id,
        card.name == name,
        card.status == Status::Pending,
        card.timestamp is None,
        card.response_time is None,
        card.http_code is None,
{
    MonitorTemplate {
        id,
        name,
        status: Status::Pending,
        timestamp: None,
        response_time: None,
        http_code: None,
    }
}

/// The answer to the creation of a monitor: a list holding its pending card
/// alone.
pub fn created_monitor_page(id: i64, name: String) -> (page: MonitorsTemplate)
    ensures
        page.monitors@.len() == 1,
        page.monitors@[0].id == id,
        page.monitors@[0].name == name,
        page.monitors@[0].status == Status::Pending,
        page.monitors@[0].timestamp is None,
        page.monitors@[0].response_time is None,
        page.monitors@[0].http_code is None,
{
    let mut monitors: Vec<MonitorTemplate> = Vec::new();
    monitors.push(pending_monitor(id, name));
    MonitorsTemplate { monitors }
}

/// Counts the monitors that have the given status.
pub fn count_with_status(monitors: &Vec<MonitorTemplate>, status: Status) -> (count: usize)
    ensures
        count == status_count(monitors@, status),
{
    let mut count: usize = 0;
    let mut i: usize = 0;
    while i < monitors.len()
        invariant
            i <= monitors.len(),
            count == status_count(monitors@.take(i as int), status),
            count <= i,
        decreases monitors.len() - i,
    {
        assert(monitors@.take(i + 1).drop_last() =~= monitors@.take(i as int));
        if monitors[i].status == status {
            count = count + 1;
        }
        i = i + 1;
    }
    assert(monitors@.take(monitors.len() as int) =~= monitors@);
    count
}

/// The overview page: the monitors with the tallies of those online and
/// offline, and the open issues.
pub fn index_page(
    monitors: Vec<MonitorTemplate>,
    issues: Vec<IssueTemplate>,
    average_uptime: String,
) -> (page: IndexTemplate)
    ensures
        page.online_monitors == status_count(monitors@, Status::Online),
        page.offline_monitors == status_count(monitors@, Status::Offline),
        page.warnings == WARNINGS_SHOWN,
        page.average_uptime == average_uptime,
        page.monitors@ == monitors@,
        page.issues@ == issues@,
{
    let online_monitors = count_with_status(&monitors, Status::Online);
    let offline_monitors = count_with_status(&monitors, Status::Offline);
    IndexTemplate {
        online_monitors,
        offline_monitors,
        warnings: WARNINGS_SHOWN,
        average_uptime,
        monitors,
        issues,
    }
}

/// Every monitor is online, offline or pending: the three tallies add up to
/// the number of monitors.
pub proof fn lemma_tallies_cover_all(monitors: Seq<MonitorTemplate>)
    ensures
        status_count(monitors, Status::Online) + status_count(monitors, Status::Offline)
            + status_count(monitors, Status::Pending) == monitors.len(),
    decreases monitors.len(),
{
    if monitors.len() > 0 {
        lemma_tallies_cover_all(monitors.drop_last());
    }
}


/// No monitor, no tally.
pub proof fn lemma_status_count_empty(status: Status)
    ensures
        status_count(Seq::<MonitorTemplate>::empty(), status) == 0,
{
}

/// Adding a monitor adds one to the tally of its own status and nothing to
/// the others.
pub proof fn lemma_status_count_push(
    monitors: Seq<MonitorTemplate>,
    added: MonitorTemplate,
    status: Status,
)
    ensures
        status_count(monitors.push(added), status) == status_count(monitors, status) + (if added.status
            == status {
            1int
        } else {
            0int
        }),
        added.status == status ==> status_count(monitors.push(added), status) == status_count(
            monitors,
            status,
        ) + 1,
        added.status != status ==> status_count(monitors.push(added), status) == status_count(
            monitors,
            status,
        ),
{
    assert(monitors.push(added).drop_last() =~= monitors);
}

/// A tally never exceeds the number of monitors, and when every monitor has
/// the status, the tally is all of them.
pub proof fn lemma_status_count_bounds(monitors: Seq<MonitorTemplate>, status: Status)
    ensures
        status_count(monitors, status) <= monitors.len(),
        (forall|k: int| 0 <= k < monitors.len() ==> #[trigger] monitors[k].status == status)
            ==> status_count(monitors, status) == monitors.len(),
    decreases monitors.len(),
{
    if monitors.len() > 0 {
        lemma_status_count_bounds(monitors.drop_last(), status);
        if forall|k: int| 0 <= k < monitors.len() ==> #[trigger] monitors[k].status == status {
            assert forall|k: int| 0 <= k < monitors.drop_last().len() implies #[trigger] monitors.drop_last()[k].status == status by {
                assert(monitors.drop_last()[k] == monitors[k]);
            }
            assert(monitors.last().status == status);
        }
    }
}

} // verus!
