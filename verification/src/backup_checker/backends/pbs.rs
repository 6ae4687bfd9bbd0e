//! Proxmox Backup Server: the newest `vzdump` task that the local node
//! lists must have started within the last 24 hours.

use vstd::prelude::*;
use crate::pve_proxy::backup_status;
use crate::pve_proxy::Status;
use super::push_arg;
use super::texts;
use super::CheckError;
use super::CommandOutcome;
use super::CommandRequest;
use crate::clock::Timestamp;
use crate::pve_proxy::backup_is_recent;
use crate::pve_proxy::Job;

verus! {

/// The arguments of `pvesh` that list the local node's `vzdump` tasks as
/// JSON, newest first.
pub open spec fn vzdump_tasks_args() -> Seq<Seq<char>> {
    seq![
        "get"@,
        "/nodes/pve/tasks"@,
        "--typefilter"@,
        "vzdump"@,
        "--output-format"@,
        "json"@,
    ]
}

/// How the task listing is judged when the clock reads `now`. A listing
/// that `pvesh` printed but that does not decode as a list of jobs is
/// `Succeeded(None)`.
pub open spec fn tasks_verdict(
    outcome: CommandOutcome<Option<Vec<Job>>>,
    now: int,
) -> Result<(), CheckError> {
    match outcome {
        CommandOutcome::NotRun => Err(CheckError::TasksUnavailable),
        CommandOutcome::Failed => Err(CheckError::CommandFailed),
        CommandOutcome::Succeeded(None) => Err(CheckError::MalformedTaskList),
        CommandOutcome::Succeeded(Some(jobs)) => if jobs@.len() == 0 {
            Err(CheckError::NoJobs)
        } else if backup_is_recent(jobs@[0].start.instant(), now) {
            Ok(())
        } else {
            Err(CheckError::StaleBackup)
        },
    }
}

/// The `pvesh` query for the local node's `vzdump` tasks.
pub fn request() -> (request: CommandRequest)
    ensures
        request.program@ == "pvesh"@,
        texts(request.args@) == vzdump_tasks_args(),
{
    let mut args: Vec<String> = Vec::new();
    push_arg(&mut args, "get");
    push_arg(&mut args, "/nodes/pve/tasks");
    push_arg(&mut args, "--typefilter");
    push_arg(&mut args, "vzdump");
    push_arg(&mut args, "--output-format");
    push_arg(&mut args, "json");
    assert(texts(args@) =~= vzdump_tasks_args());
    CommandRequest { program: String::from_str("pvesh"), args }
}

/// Judges the task listing against the time `now`: the newest task must
/// have started within the last 24 hours.
pub fn check(outcome: &CommandOutcome<Option<Vec<Job>>>, now: &Timestamp) -> (verdict: Result<
    (),
    CheckError,
>)
    ensures
        verdict == tasks_verdict(*outcome, now.instant()),
{
    match outcome {
        CommandOutcome::NotRun => Err(CheckError::TasksUnavailable),
        CommandOutcome::Failed => Err(CheckError::CommandFailed),
        CommandOutcome::Succeeded(None) => Err(CheckError::MalformedTaskList),
        CommandOutcome::Succeeded(Some(jobs)) => {
            if jobs.len() == 0 {
                return Err(CheckError::NoJobs);
            }
            let age = now.nanos_since(&jobs[0].start);
            if 0 <= age && age <= 86_400_000_000_000 {
                Ok(())
            } else {
                Err(CheckError::StaleBackup)
            }
        },
    }
}

/// The backup checker's Proxmox check and the Proxmox proxy judge a task
/// listing alike: the check passes exactly when the proxy reports `OK`, an
/// empty listing failing both.
pub proof fn lemma_check_agrees_with_proxy(jobs: Vec<Job>, now: int)
    ensures
        (tasks_verdict(CommandOutcome::Succeeded(Some(jobs)), now) == Ok::<(), CheckError>(()))
            <==> (backup_status(jobs@, now) == Status::Good),
{
}

/// The Proxmox check fails with the error of the first step that went
/// wrong, and passes exactly when the listing holds a first task that started
/// at most 86400 seconds before the clock reading, and not after it.
pub proof fn lemma_check_steps(outcome: CommandOutcome<Option<Vec<Job>>>, now: int)
    ensures
        outcome is NotRun ==> tasks_verdict(outcome, now) == Err::<(), CheckError>(
            CheckError::TasksUnavailable,
        ),
        outcome is Failed ==> tasks_verdict(outcome, now) == Err::<(), CheckError>(
            CheckError::CommandFailed,
        ),
        outcome == CommandOutcome::<Option<Vec<Job>>>::Succeeded(None) ==> tasks_verdict(outcome, now)
            == Err::<(), CheckError>(CheckError::MalformedTaskList),
        outcome matches CommandOutcome::Succeeded(Some(jobs)) ==> {
            &&& jobs@.len() == 0 ==> tasks_verdict(outcome, now) == Err::<(), CheckError>(
                CheckError::NoJobs,
            )
            &&& jobs@.len() > 0 ==> (tasks_verdict(outcome, now) == if 0 <= now
                - jobs@[0].start.instant() <= 86_400_000_000_000 {
                Ok::<(), CheckError>(())
            } else {
                Err(CheckError::StaleBackup)
            })
        },
{
}

} // verus!
