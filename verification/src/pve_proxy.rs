//! The `/backups` status of the Proxmox proxy: the most recent `vzdump`
//! task must have started within the last day.

use vstd::prelude::*;
use crate::clock::nanos_per_second;
use crate::clock::Timestamp;
use crate::text::status_body;
use crate::text::status_json;

verus! {

/// A `vzdump` task as `pvesh` lists it: when it started.
pub struct Job {
    pub start: Timestamp,
}

/// Outcome of the backup check.
#[derive(Debug, Clone, Copy, PartialEq, Eq)]
pub enum Status {
    Bad,
    Good,
}

/// Length of a day in nanoseconds.
pub open spec fn day_nanos() -> int {
    86400 * nanos_per_second()
}

/// A backup that started at the instant `start` counts as recent at the
/// instant `now` (both in nanoseconds since the Unix epoch) when it started
/// within the last day: not after `now`, and at most 24 hours before it.
pub open spec fn backup_is_recent(start: int, now: int) -> bool {
    0 <= now - start <= day_nanos()
}

/// The status reported for a task list when the clock reads the instant
/// `now`: OK when its newest (first) task started within the last day, BAD
/// otherwise, an empty list included.
pub open spec fn backup_status(jobs: Seq<Job>, now: int) -> Status {
    if jobs.len() > 0 && backup_is_recent(jobs[0].start.instant(), now) {
        Status::Good
    } else {
        Status::Bad
    }
}

/// The text reported for a status.
pub open spec fn status_text(status: Status) -> Seq<char> {
    match status {
        Status::Bad => "BAD"@,
        Status::Good => "OK"@,
    }
}

impl Status {
    /// `"BAD"` or `"OK"`.
    pub fn text(&self) -> (text: &'static str)
        ensures
            text@ == status_text(*self),
    {
        match self {
            Status::Bad => "BAD",
            Status::Good => "OK",
        }
    }

    /// The JSON body `{"status":"BAD"}` or `{"status":"OK"}`.
    pub fn json_body(&self) -> (body: String)
        ensures
            body@ == status_json(status_text(*self)),
    {
        status_body(self.text())
    }
}

/// Judges the newest of `jobs` (the first one `pvesh` lists) against the
/// time `now`.
pub fn latest_backup_job(jobs: &Vec<Job>, now: &Timestamp) -> (status: Status)
    ensures
        status == backup_status(jobs@, now.instant()),
{
    if jobs.len() == 0 {
        return Status::Bad;
    }
    let age = now.nanos_since(&jobs[0].start);
    if 0 <= age && age <= 86_400_000_000_000 {
        Status::Good
    } else {
        Status::Bad
    }
}

/// A task dated after the clock reading never counts as recent.
pub proof fn lemma_future_task_is_stale(start: int, now: int)
    requires
        start > now,
    ensures
        !backup_is_recent(start, now),
{
}

/// A task that started within the last day counts as recent; one that
/// started earlier than that does not.
pub proof fn lemma_recent_means_within_a_day(start: int, now: int)
    requires
        start <= now,
    ensures
        backup_is_recent(start, now) <==> now - start <= 86400 * 1_000_000_000,
{
}

/// The proxy reports `OK` exactly when there is a newest task and it is
/// recent; an empty task list is reported `BAD`.
pub proof fn lemma_status_good_iff_recent(jobs: Seq<Job>, now: int)
    ensures
        (backup_status(jobs, now) == Status::Good) <==> (jobs.len() > 0 && backup_is_recent(
            jobs[0].start.instant(),
            now,
        )),
        jobs.len() == 0 ==> backup_status(jobs, now) == Status::Bad,
{
}

/// The proxy reports `OK` exactly when the task list is non-empty and its
/// first task started at most 86400 seconds (in nanoseconds,
/// 86 400 000 000 000) before the clock reading, and not after it.
pub proof fn lemma_status_good_iff_started_within_a_day(jobs: Seq<Job>, now: int)
    ensures
        (backup_status(jobs, now) == Status::Good) <==> (jobs.len() > 0 && 0 <= now
            - jobs[0].start.instant() <= 86_400_000_000_000),
{
}

} // verus!
