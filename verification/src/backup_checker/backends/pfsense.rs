//! pfSense: today's config backup is pulled off the firewall by an `scp`
//! cron job, so that job must have a journal entry for today.

use vstd::prelude::*;
use super::cron_journal_args;
use super::cron_request;
use super::cron_verdict;
use super::parse_cron;
use super::texts;
use super::CheckError;
use super::CommandOutcome;
use super::CommandRequest;

verus! {

/// The journal query for today's `scp` cron runs.
pub fn request() -> (request: CommandRequest)
    ensures
        request.program@ == "journalctl"@,
        texts(request.args@) == cron_journal_args("scp"@),
{
    cron_request("scp")
}

/// Judges the journal query of `request()`.
pub fn check(outcome: &CommandOutcome<Vec<u8>>) -> (verdict: Result<(), CheckError>)
    ensures
        verdict == cron_verdict(*outcome),
{
    parse_cron(outcome)
}

} // verus!
