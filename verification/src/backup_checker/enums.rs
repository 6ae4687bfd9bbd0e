//! The services that are checked, and the status reported for each.

use vstd::prelude::*;
use super::backends::cron_journal_args;
use super::backends::cron_verdict;
use super::backends::error_message;
use super::backends::pbs;
use super::backends::pbs::tasks_verdict;
use super::backends::pbs::vzdump_tasks_args;
use super::backends::pfsense;
use super::backends::pihole;
use super::backends::texts;
use super::backends::CheckError;
use super::backends::CommandOutcome;
use super::backends::CommandRequest;
use crate::clock::Timestamp;
use crate::pve_proxy::Job;
use crate::text::status_body;
use crate::text::status_json;

verus! {

/// Services that are checked.
#[derive(Debug, Clone, Copy, PartialEq, Eq)]
pub enum Backend {
    /// Proxmox Backup Server
    Pbs,
    PiHole,
    PfSense,
}

/// Request parameters: which back-end to check.
pub struct Query {
    pub kind: Backend,
}

/// The outcome of a check: good, or bad with the reason.
#[derive(Debug, Clone, PartialEq, Eq)]
pub enum Status {
    Bad { message: String },
    Good,
}

/// What the command of a back-end produced, in the form its check reads.
pub enum Probe {
    /// The `pvesh` task listing, decoded into jobs where it could be.
    Tasks(CommandOutcome<Option<Vec<Job>>>),
    /// The bytes that `journalctl` printed.
    Journal(CommandOutcome<Vec<u8>>),
}

/// Whether `status` reports `verdict`: good for `Ok(())`, bad with the
/// error's message otherwise.
pub open spec fn reports(status: Status, verdict: Result<(), CheckError>) -> bool {
    match (status, verdict) {
        (Status::Good, Ok(())) => true,
        (Status::Bad { message }, Err(e)) => message@ == error_message(e),
        _ => false,
    }
}

/// The text of a status: `OK`, or `BAD: ` followed by the message.
pub open spec fn status_text(status: Status) -> Seq<char> {
    match status {
        Status::Bad { message } => "BAD: "@ + message@,
        Status::Good => "OK"@,
    }
}

impl Status {
    /// `"OK"`, or `"BAD: "` followed by the message.
    pub fn text(&self) -> (text: String)
        ensures
            text@ == status_text(*self),
    {
        match self {
            Status::Bad { message } => {
                let mut text = String::from_str("BAD: ");
                text.append(message.as_str());
                text
            },
            Status::Good => String::from_str("OK"),
        }
    }

    /// The HTTP status code answered with this status: 200 (OK) when good,
    /// 500 (Internal Server Error) when bad.
    pub fn http_status(&self) -> (code: u16)
        ensures
            code == (if *self is Good {
                200u16
            } else {
                500u16
            }),
    {
        match self {
            Status::Good => 200,
            Status::Bad { .. } => 500,
        }
    }

    /// The JSON body `{"status": <text>}`.
    pub fn json_body(&self) -> (body: String)
        ensures
            body@ == status_json(status_text(*self)),
    {
        let text = self.text();
        status_body(text.as_str())
    }
}

impl Backend {
    /// Whether `probe` has the form that this back-end's check reads.
    pub open spec fn reads(self, probe: Probe) -> bool {
        match self {
            Backend::Pbs => probe is Tasks,
            _ => probe is Journal,
        }
    }

    /// The program this back-end's check runs.
    pub open spec fn program(self) -> Seq<char> {
        match self {
            Backend::Pbs => "pvesh"@,
            _ => "journalctl"@,
        }
    }

    /// The arguments this back-end's check passes.
    pub open spec fn arguments(self) -> Seq<Seq<char>> {
        match self {
            Backend::Pbs => vzdump_tasks_args(),
            Backend::PiHole => cron_journal_args("pihole-FTL"@),
            Backend::PfSense => cron_journal_args("scp"@),
        }
    }

    /// The command whose outcome this back-end's check judges.
    pub fn request(&self) -> (request: CommandRequest)
        ensures
            request.program@ == self.program(),
            texts(request.args@) == self.arguments(),
    {
        match self {
            Backend::Pbs => pbs::request(),
            Backend::PiHole => pihole::request(),
            Backend::PfSense => pfsense::request(),
        }
    }

    /// Runs the check for this back-end on what its command produced, with
    /// the clock reading `now`.
    pub fn status(&self, probe: &Probe, now: &Timestamp) -> (status: Status)
        requires
            self.reads(*probe),
        ensures
            match (*self, *probe) {
                (Backend::Pbs, Probe::Tasks(outcome)) => reports(
                    status,
                    tasks_verdict(outcome, now.instant()),
                ),
                (_, Probe::Journal(outcome)) => reports(status, cron_verdict(outcome)),
                _ => false,
            },
    {
        let verdict = match (self, probe) {
            (Backend::Pbs, Probe::Tasks(outcome)) => pbs::check(outcome, now),
            (Backend::PiHole, Probe::Journal(outcome)) => pihole::check(outcome),
            (_, Probe::Journal(outcome)) => pfsense::check(outcome),
            (_, Probe::Tasks(_)) => {
                assert(false);
                Ok(())
            },
        };
        status_of(&verdict)
    }
}

/// The status that reports a check's verdict.
pub fn status_of(verdict: &Result<(), CheckError>) -> (status: Status)
    ensures
        reports(status, *verdict),
{
    match verdict {
        Ok(()) => Status::Good,
        Err(e) => Status::Bad { message: e.message() },
    }
}

/// A status is good exactly when the check passed, and a bad status
/// carries the message of the check's error.
pub proof fn lemma_status_mirrors_verdict(status: Status, verdict: Result<(), CheckError>)
    requires
        reports(status, verdict),
    ensures
        (status is Good) <==> (verdict is Ok),
        verdict matches Err(e) ==> status_text(status) == "BAD: "@ + error_message(e),
{
}

/// Each back-end runs its own command: `pvesh` listing the node's `vzdump`
/// tasks as JSON for PBS, and for Pi-hole and pfSense the `journalctl`
/// query of today's `CRON` entries for `pihole-FTL` and `scp`.
pub proof fn lemma_backend_commands(b: Backend)
    ensures
        b is Pbs ==> b.program() == "pvesh"@ && b.arguments() == seq![
            "get"@,
            "/nodes/pve/tasks"@,
            "--typefilter"@,
            "vzdump"@,
            "--output-format"@,
            "json"@,
        ],
        b is PiHole ==> b.program() == "journalctl"@ && b.arguments() == seq![
            "-t"@,
            "CRON"@,
            "--since"@,
            "today"@,
            "-g"@,
            "pihole-FTL"@,
            "-o"@,
            "short-iso"@,
        ],
        b is PfSense ==> b.program() == "journalctl"@ && b.arguments() == seq![
            "-t"@,
            "CRON"@,
            "--since"@,
            "today"@,
            "-g"@,
            "scp"@,
            "-o"@,
            "short-iso"@,
        ],
{
}

} // verus!
