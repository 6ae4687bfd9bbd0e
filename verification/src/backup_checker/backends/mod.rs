//! What each back-end runs, and how its output is judged.
//!
//! Each submodule offers a `request()` naming the command to run and a
//! `check()` that turns that command's outcome into `Ok(())` when the
//! service's most recent backup ran, and an error otherwise.

pub mod pbs;
pub mod pfsense;
pub mod pihole;

use vstd::prelude::*;
use crate::text::skip_white_space;
use crate::text::skip_word;
use crate::text::unicode_white_space;
use crate::text::lemma_first_word_shape;
use vstd::utf8::decode_utf8;
use vstd::utf8::valid_utf8;
use crate::text::chars_of;
use crate::text::decode_utf8_chars;
use crate::text::first_word;
use crate::text::first_word_of;
use crate::text::string_of_chars;

verus! {

/// What became of a command that a check asked for.
pub enum CommandOutcome<T> {
    /// The command could not be started.
    NotRun,
    /// It ran and exited unsuccessfully.
    Failed,
    /// It ran and exited successfully; what it printed, as the check needs it.
    Succeeded(T),
}

/// A command to run: the program and its arguments.
pub struct CommandRequest {
    pub program: String,
    pub args: Vec<String>,
}

/// The texts of a list of strings.
pub open spec fn texts(items: Seq<String>) -> Seq<Seq<char>> {
    items.map_values(|s: String| s@)
}

/// Why a check failed.
#[derive(Debug, Clone, Copy, PartialEq, Eq)]
pub enum CheckError {
    JournalUnavailable,
    CommandFailed,
    OutputNotUtf8,
    NoTimestamp,
    MalformedTimestamp,
    TasksUnavailable,
    MalformedTaskList,
    NoJobs,
    StaleBackup,
}

/// The message that a failed check reports.
pub open spec fn error_message(e: CheckError) -> Seq<char> {
    match e {
        CheckError::JournalUnavailable => "Failed to get `journalctl` output"@,
        CheckError::CommandFailed => "Command failed"@,
        CheckError::OutputNotUtf8 => "Failed to convert standard out into a string"@,
        CheckError::NoTimestamp => "Failed to get the timestamp from cron output"@,
        CheckError::MalformedTimestamp => "Failed to parse the datetime string"@,
        CheckError::TasksUnavailable => "Failed to get `pvesh` output"@,
        CheckError::MalformedTaskList => "Failed to deserialize `pvesh` output"@,
        CheckError::NoJobs => "Failed to get first job"@,
        CheckError::StaleBackup => "Last job did not run successfully"@,
    }
}

impl CheckError {
    /// The message reported for this error.
    pub fn message(&self) -> (m: String)
        ensures
            m@ == error_message(*self),
    {
        match self {
            CheckError::JournalUnavailable => String::from_str("Failed to get `journalctl` output"),
            CheckError::CommandFailed => String::from_str("Command failed"),
            CheckError::OutputNotUtf8 => String::from_str(
                "Failed to convert standard out into a string",
            ),
            CheckError::NoTimestamp => String::from_str(
                "Failed to get the timestamp from cron output",
            ),
            CheckError::MalformedTimestamp => String::from_str(
                "Failed to parse the datetime string",
            ),
            CheckError::TasksUnavailable => String::from_str("Failed to get `pvesh` output"),
            CheckError::MalformedTaskList => String::from_str(
                "Failed to deserialize `pvesh` output",
            ),
            CheckError::NoJobs => String::from_str("Failed to get first job"),
            CheckError::StaleBackup => String::from_str("Last job did not run successfully"),
        }
    }
}

/// Whether chrono's `DateTime::parse_from_str` accepts `text` under
/// `format`.
pub uninterp spec fn datetime_parses(text: Seq<char>, format: Seq<char>) -> bool;

/// Calls `chrono::DateTime::parse_from_str(text, format)` and reports
/// whether it succeeded. Its result is named `datetime_parses` of the two
/// texts.
#[verifier::external_body]
fn chrono_parse_from_str_ok(text: &str, format: &str) -> (ok: bool)
    ensures
        ok == datetime_parses(text@, format@),
{
    chrono::DateTime::parse_from_str(text, format).is_ok()
}

/// The layout of a `journalctl -o short-iso` timestamp.
pub open spec fn cron_timestamp_format() -> Seq<char> {
    "%Y-%m-%dT%H:%M:%S%z"@
}

/// The journal query for the `CRON` entries of today that mention
/// `command`, one line each, timestamps in ISO 8601.
pub open spec fn cron_journal_args(command: Seq<char>) -> Seq<Seq<char>> {
    seq![
        "-t"@,
        "CRON"@,
        "--since"@,
        "today"@,
        "-g"@,
        command,
        "-o"@,
        "short-iso"@,
    ]
}

/// How a journal listing is judged: it must decode as UTF-8, and its first
/// word, the timestamp of the first matching line, must parse.
pub open spec fn journal_verdict(listing: Seq<u8>) -> Result<(), CheckError> {
    if !valid_utf8(listing) {
        Err(CheckError::OutputNotUtf8)
    } else {
        match first_word(decode_utf8(listing)) {
            None => Err(CheckError::NoTimestamp),
            Some(word) => if datetime_parses(word, cron_timestamp_format()) {
                Ok(())
            } else {
                Err(CheckError::MalformedTimestamp)
            },
        }
    }
}

/// How the outcome of the journal query is judged.
pub open spec fn cron_verdict(outcome: CommandOutcome<Vec<u8>>) -> Result<(), CheckError> {
    match outcome {
        CommandOutcome::NotRun => Err(CheckError::JournalUnavailable),
        CommandOutcome::Failed => Err(CheckError::CommandFailed),
        CommandOutcome::Succeeded(listing) => journal_verdict(listing@),
    }
}

pub(crate) fn push_arg(args: &mut Vec<String>, arg: &str)
    ensures
        texts(final(args)@) == texts(old(args)@).push(arg@),
{
    let ghost before = args@;
    args.push(String::from_str(arg));
    assert(texts(args@) =~= texts(before).push(arg@));
}

/// The `journalctl` query that finds today's cron runs of `command`.
pub fn cron_request(command: &str) -> (request: CommandRequest)
    ensures
        request.program@ == "journalctl"@,
        texts(request.args@) == cron_journal_args(command@),
{
    let mut args: Vec<String> = Vec::new();
    push_arg(&mut args, "-t");
    push_arg(&mut args, "CRON");
    push_arg(&mut args, "--since");
    push_arg(&mut args, "today");
    push_arg(&mut args, "-g");
    push_arg(&mut args, command);
    push_arg(&mut args, "-o");
    push_arg(&mut args, "short-iso");
    assert(texts(args@) =~= cron_journal_args(command@));
    CommandRequest { program: String::from_str("journalctl"), args }
}

/// Judges what `journalctl` printed for a cron query: `Ok(())` when it
/// names a run today whose timestamp parses.
pub fn parse_cron(outcome: &CommandOutcome<Vec<u8>>) -> (verdict: Result<(), CheckError>)
    ensures
        verdict == cron_verdict(*outcome),
{
    match outcome {
        CommandOutcome::NotRun => Err(CheckError::JournalUnavailable),
        CommandOutcome::Failed => Err(CheckError::CommandFailed),
        CommandOutcome::Succeeded(listing) => {
            let text = match decode_utf8_chars(listing) {
                Some(text) => text,
                None => return Err(CheckError::OutputNotUtf8),
            };
            match first_word_of(&text) {
                None => Err(CheckError::NoTimestamp),
                Some(word) => timestamp_verdict(&word),
            }
        },
    }
}

/// Judges the first word of a journal listing.
pub fn timestamp_verdict(word: &Vec<char>) -> (verdict: Result<(), CheckError>)
    ensures
        verdict == (if datetime_parses(word@, cron_timestamp_format()) {
            Ok(())
        } else {
            Err(CheckError::MalformedTimestamp)
        }),
{
    let token = string_of_chars(word);
    if chrono_parse_from_str_ok(token.as_str(), "%Y-%m-%dT%H:%M:%S%z") {
        Ok(())
    } else {
        Err(CheckError::MalformedTimestamp)
    }
}

/// A cron check passes only when `journalctl` ran and exited successfully.
pub proof fn lemma_cron_pass_needs_success(outcome: CommandOutcome<Vec<u8>>)
    ensures
        cron_verdict(outcome) is Ok ==> outcome is Succeeded,
{
}

/// Whether `text[start..end]` is the first whitespace-separated word of
/// `text`: only whitespace before it, none in it, and whitespace or the end
/// of the text after it.
pub open spec fn is_first_word_at(text: Seq<char>, start: int, end: int) -> bool {
    &&& 0 <= start < end <= text.len()
    &&& forall|k: int| 0 <= k < start ==> unicode_white_space(#[trigger] text[k])
    &&& forall|k: int| start <= k < end ==> !unicode_white_space(#[trigger] text[k])
    &&& (end == text.len() || unicode_white_space(text[end]))
}

proof fn lemma_skip_white_space_reaches(s: Seq<char>, i: int, j: int)
    requires
        0 <= i <= j <= s.len(),
        forall|k: int| i <= k < j ==> unicode_white_space(#[trigger] s[k]),
        j < s.len() ==> !unicode_white_space(s[j]),
    ensures
        skip_white_space(s, i) == j,
    decreases j - i,
{
    if i < j {
        lemma_skip_white_space_reaches(s, i + 1, j);
    }
}

proof fn lemma_skip_word_reaches(s: Seq<char>, i: int, j: int)
    requires
        0 <= i <= j <= s.len(),
        forall|k: int| i <= k < j ==> !unicode_white_space(#[trigger] s[k]),
        j < s.len() ==> unicode_white_space(s[j]),
    ensures
        skip_word(s, i) == j,
    decreases j - i,
{
    if i < j {
        lemma_skip_word_reaches(s, i + 1, j);
    }
}

/// A cron check on a listing passes exactly when the listing is UTF-8 and
/// its first whitespace-separated word parses as a
/// `%Y-%m-%dT%H:%M:%S%z` timestamp.
pub proof fn lemma_cron_pass_needs_parsed_timestamp(listing: Vec<u8>)
    ensures
        (cron_verdict(CommandOutcome::Succeeded(listing)) is Ok) <==> (valid_utf8(listing@)
            && exists|start: int, end: int|
            is_first_word_at(decode_utf8(listing@), start, end) && datetime_parses(
                #[trigger] decode_utf8(listing@).subrange(start, end),
                "%Y-%m-%dT%H:%M:%S%z"@,
            )),
{
    let text = decode_utf8(listing@);
    if valid_utf8(listing@) {
        lemma_first_word_shape(text);
        if let Some(w) = first_word(text) {
            let start = skip_white_space(text, 0);
            let end = start + w.len();
            assert(w.len() > 0);
            assert(end <= text.len());
            assert(w == text.subrange(start, end));
            assert forall|k: int| start <= k < end implies !unicode_white_space(#[trigger] text[k]) by {
                assert(text[k] == w[k - start]);
            }
            assert(is_first_word_at(text, start, end));
            assert(text.subrange(start, end) == w);
        }
        assert forall|start: int, end: int|
            is_first_word_at(text, start, end) implies first_word(text) == Some(
            #[trigger] text.subrange(start, end),
        ) by {
            lemma_skip_white_space_reaches(text, 0, start);
            lemma_skip_word_reaches(text, start, end);
        }
    }
}

/// The journal query of a cron check lists today's `CRON` entries that
/// mention the command, one line each with an ISO 8601 timestamp.
pub proof fn lemma_cron_query_is_today(command: Seq<char>)
    ensures
        cron_journal_args(command) == seq![
            "-t"@,
            "CRON"@,
            "--since"@,
            "today"@,
            "-g"@,
            command,
            "-o"@,
            "short-iso"@,
        ],
{
}

/// A failed cron check names the first step that went wrong: the query
/// could not run, it failed, its output is not UTF-8, the output is blank
/// (whitespace only), or its first word is not a timestamp.
pub proof fn lemma_cron_failure_steps(outcome: CommandOutcome<Vec<u8>>)
    ensures
        outcome is NotRun ==> cron_verdict(outcome) == Err::<(), CheckError>(
            CheckError::JournalUnavailable,
        ),
        outcome is Failed ==> cron_verdict(outcome) == Err::<(), CheckError>(
            CheckError::CommandFailed,
        ),
        outcome matches CommandOutcome::Succeeded(listing) ==> {
            &&& (cron_verdict(outcome) == Err::<(), CheckError>(CheckError::OutputNotUtf8))
                <==> !valid_utf8(listing@)
            &&& (cron_verdict(outcome) == Err::<(), CheckError>(CheckError::NoTimestamp)) <==> (
            valid_utf8(listing@) && forall|k: int|
                0 <= k < decode_utf8(listing@).len() ==> unicode_white_space(
                    #[trigger] decode_utf8(listing@)[k],
                ))
            &&& cron_verdict(outcome) is Ok || cron_verdict(outcome) == Err::<(), CheckError>(
                CheckError::OutputNotUtf8,
            ) || cron_verdict(outcome) == Err::<(), CheckError>(CheckError::NoTimestamp)
                || cron_verdict(outcome) == Err::<(), CheckError>(CheckError::MalformedTimestamp)
        },
{
    if let CommandOutcome::Succeeded(listing) = outcome {
        if valid_utf8(listing@) {
            let text = decode_utf8(listing@);
            lemma_first_word_shape(text);
            if first_word(text) is Some {
                let start = skip_white_space(text, 0);
                let w = first_word(text)->0;
                assert(text[start] == w[0]);
            }
        }
    }
}

} // verus!
