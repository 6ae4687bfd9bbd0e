//! Pi-hole: the `pihole-FTL` cron job must have a journal entry for today.

use vstd::prelude::*;
use super::cron_journal_args;
use super::cron_request;
use super::cron_verdict;
use super::parse_cron;
use super::texts;
use super::CheckError;
use super::CommandOutcome;
use super::CommandRequest;

verus! {

/// The journal query for today's `pihole-FTL` cron runs.
pub fn request() -> (request: CommandRequest)
    ensures
        request.program@ == "journalctl"@,
        texts(request.args@) == cron_journal_args("pihole-FTL"@),
{
    cron_request("pihole-FTL")
}

/// Judges the journal query of `request()`.
pub fn check(outcome: &CommandOutcome<Vec<u8>>) -> (verdict: Result<(), CheckError>)
    ensures
        verdict == cron_verdict(*outcome),
{
    parse_cron(outcome)
}

} // verus!
