//! The registry of scheduled probe jobs, by monitor id, and the cron
//! expressions that drive them.

use vstd::prelude::*;
use vstd::string::*;
use std::collections::BTreeMap;
use async_cron_scheduler::cron::Schedule;

verus! {

broadcast use vstd::laws_cmp::group_laws_cmp;

/// Why a scheduling request was refused.
#[derive(PartialEq, Eq, Structural, Clone, Copy, Debug)]
pub enum ScheduleError {
    /// No job is registered for the monitor with this id.
    JobNotFound(i64),
    /// The cron expression does not parse.
    InvalidCron,
}

/// The text a refused request is answered with.
pub open spec fn schedule_error_text(error: ScheduleError) -> Seq<char> {
    match error {
        ScheduleError::JobNotFound(_) => "Failed to remove monitor job from schedule"@,
        ScheduleError::InvalidCron => "Invalid cron expression."@,
    }
}

impl ScheduleError {
    /// The text a refused request is answered with.
    pub fn message(&self) -> (text: String)
        ensures
            text@ == schedule_error_text(*self),
    {
        match self {
            ScheduleError::JobNotFound(_) => String::from_str(
                "Failed to remove monitor job from schedule",
            ),
            ScheduleError::InvalidCron => String::from_str("Invalid cron expression."),
        }
    }
}

/// What taking the job of monitor `id` out of a registry holding `jobs`
/// hands back.
pub open spec fn take_result<J>(jobs: Map<i64, J>, id: i64) -> Result<J, ScheduleError> {
    if jobs.contains_key(id) {
        Ok(jobs[id])
    } else {
        Err(ScheduleError::JobNotFound(id))
    }
}

/// The jobs left after taking the job of monitor `id`.
pub open spec fn after_take<J>(jobs: Map<i64, J>, id: i64) -> Map<i64, J> {
    jobs.remove(id)
}

/// The scheduled job of each monitor, by monitor id.
pub struct JobRegistry<J> {
    jobs: BTreeMap<i64, J>,
}

impl<J> View for JobRegistry<J> {
    type V = Map<i64, J>;

    closed spec fn view(&self) -> Map<i64, J> {
        self.jobs@
    }
}

impl<J> JobRegistry<J> {
    /// A registry with no job.
    pub fn new() -> (registry: Self)
        ensures
            registry@ == Map::<i64, J>::empty(),
    {
        JobRegistry { jobs: BTreeMap::new() }
    }

    /// Registers `job` as the job of monitor `id`, in place of any earlier one.
    pub fn register(&mut self, id: i64, job: J)
        ensures
            final(self)@ == old(self)@.insert(id, job),
    {
        let _previous = self.jobs.insert(id, job);
    }

    /// Whether monitor `id` has a registered job.
    pub fn contains(&self, id: i64) -> (found: bool)
        ensures
            found == self@.contains_key(id),
    {
        self.jobs.contains_key(&id)
    }

    /// Takes the job of monitor `id` out of the registry; refused when there
    /// is none.
    pub fn take(&mut self, id: i64) -> (taken: Result<J, ScheduleError>)
        ensures
            taken == take_result(old(self)@, id),
            final(self)@ == after_take(old(self)@, id),
    {
        match self.jobs.remove(&id) {
            Some(job) => Ok(job),
            None => {
                assert(old(self)@.remove(id) =~= old(self)@);
                Err(ScheduleError::JobNotFound(id))
            },
        }
    }
}

/// What is registered for a monitor is what taking it hands back, and it is
/// gone afterwards.
pub proof fn lemma_take_returns_registered<J>(jobs: Map<i64, J>, id: i64, job: J)
    ensures
        take_result(jobs.insert(id, job), id) == Ok::<J, ScheduleError>(job),
        !after_take(jobs.insert(id, job), id).contains_key(id),
        after_take(jobs.insert(id, job), id) == jobs.remove(id),
{
    assert(jobs.insert(id, job).remove(id) =~= jobs.remove(id));
}

/// A job can be taken once: taking it again is refused.
pub proof fn lemma_second_take_refused<J>(jobs: Map<i64, J>, id: i64)
    ensures
        take_result(after_take(jobs, id), id) == Err::<J, ScheduleError>(
            ScheduleError::JobNotFound(id),
        ),
{
}

/// Registering or taking the job of one monitor leaves what the registry
/// holds for every other monitor as it was.
pub proof fn lemma_other_monitors_untouched<J>(jobs: Map<i64, J>, id: i64, other: i64, job: J)
    requires
        id != other,
    ensures
        take_result(jobs.insert(id, job), other) == take_result(jobs, other),
        take_result(after_take(jobs, id), other) == take_result(jobs, other),
{
}

/// A fresh registry refuses to hand out any job.
pub proof fn lemma_empty_registry_refuses<J>(id: i64)
    ensures
        take_result(Map::<i64, J>::empty(), id) == Err::<J, ScheduleError>(
            ScheduleError::JobNotFound(id),
        ),
{
}

/// `cron::Schedule`, a parsed cron expression, carried through opaquely.
#[verifier::external_type_specification]
#[verifier::external_body]
pub struct ExSchedule(Schedule);

/// `cron::error::Error`, what the cron parser refuses an expression with.
#[verifier::external_type_specification]
#[verifier::external_body]
pub struct ExCronError(async_cron_scheduler::cron::error::Error);

/// What the `cron` crate parses `expression` into: the schedule it
/// describes, or none when the expression is refused.
pub uninterp spec fn cron_parse_of(expression: Seq<char>) -> Option<Schedule>;

/// Whether the `cron` crate accepts `expression` as a cron schedule.
pub open spec fn cron_expression_accepted(expression: Seq<char>) -> bool {
    cron_parse_of(expression) is Some
}

/// `cron::Schedule::from_str` (what `Job::cron` parses with): the schedule
/// named `cron_parse_of` the expression when it is accepted, an error
/// otherwise. Which expressions the parser accepts, and the schedule it
/// builds, are named, not restated.
#[verifier::external_body]
fn parse_cron(expression: &str) -> (parsed: Result<
    Schedule,
    async_cron_scheduler::cron::error::Error,
>)
    ensures
        parsed is Ok <==> cron_parse_of(expression@) is Some,
        parsed matches Ok(s) ==> cron_parse_of(expression@) == Some(s),
{
    expression.parse::<Schedule>()
}

/// Turns what the cron parser answered into the schedule of a monitor, or
/// refuses the expression.
pub fn schedule_from_parsed(
    parsed: Result<Schedule, async_cron_scheduler::cron::error::Error>,
) -> (schedule: Result<Schedule, ScheduleError>)
    ensures
        parsed is Ok <==> schedule is Ok,
        schedule matches Ok(s) ==> parsed matches Ok(p) && s == p,
        schedule is Err ==> schedule == Err::<Schedule, ScheduleError>(ScheduleError::InvalidCron),
{
    match parsed {
        Ok(s) => Ok(s),
        Err(_) => Err(ScheduleError::InvalidCron),
    }
}

/// The schedule a monitor's cron expression describes; refused when the
/// expression does not parse.
pub fn schedule_for(expression: &str) -> (schedule: Result<Schedule, ScheduleError>)
    ensures
        schedule is Ok <==> cron_expression_accepted(expression@),
        schedule matches Ok(s) ==> cron_parse_of(expression@) == Some(s),
        schedule is Err ==> schedule == Err::<Schedule, ScheduleError>(ScheduleError::InvalidCron),
{
    schedule_from_parsed(parse_cron(expression))
}

} // verus!
