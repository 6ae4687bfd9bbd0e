//! The layout of a log record: `[<level>][<time>][<target>] <message>`.

use vstd::prelude::*;

verus! {

/// A log line for the given level, RFC 3339 time, target and message.
pub open spec fn record_line(
    level: Seq<char>,
    now: Seq<char>,
    target: Seq<char>,
    message: Seq<char>,
) -> Seq<char> {
    "["@ + level + "]["@ + now + "]["@ + target + "] "@ + message
}

/// Lays out one log record.
pub fn format_record(level: &str, now: &str, target: &str, message: &str) -> (line: String)
    ensures
        line@ == record_line(level@, now@, target@, message@),
{
    let mut line = String::from_str("[");
    line.append(level);
    line.append("][");
    line.append(now);
    line.append("][");
    line.append(target);
    line.append("] ");
    line.append(message);
    line
}

/// The message is appended unchanged after the header, whatever the level:
/// a record line is the line of an empty message followed by the message,
/// and that header is `[<level>][<time>][<target>] `.
pub proof fn lemma_record_ends_with_message(
    level: Seq<char>,
    now: Seq<char>,
    target: Seq<char>,
    message: Seq<char>,
)
    ensures
        record_line(level, now, target, message) == record_line(level, now, target, Seq::empty())
            + message,
        record_line(level, now, target, Seq::empty()) == seq!['['] + level + seq![']', '['] + now
            + seq![']', '['] + target + seq![']', ' '],
        record_line(level, now, target, message).len() == level.len() + now.len() + target.len()
            + message.len() + 7,
{
    reveal_strlit("[");
    reveal_strlit("][");
    reveal_strlit("] ");
    assert("["@.len() == 1 && "]["@.len() == 2 && "] "@.len() == 2);
    assert(record_line(level, now, target, message) =~= record_line(
        level,
        now,
        target,
        Seq::empty(),
    ) + message);
    assert(record_line(level, now, target, Seq::empty()) =~= seq!['['] + level + seq![']', '[']
        + now + seq![']', '['] + target + seq![']', ' ']);
    assert(record_line(level, now, target, Seq::empty()).len() == level.len() + now.len()
        + target.len() + 7);
}

} // verus!
