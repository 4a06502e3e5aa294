//! What the server's log looks like: the level it filters at, the name of its
//! log file, and the form of one line.

use vstd::prelude::*;
use vstd::string::*;

verus! {

/// The most verbose level that is written.
#[derive(Clone, Copy, Debug, PartialEq, Eq, Structural)]
pub enum LogLevel {
    Debug,
    Info,
}

/// Timestamps from this many seconds after the Unix epoch on, the year
/// 10000, cannot be formatted.
pub const TIMESTAMP_LIMIT: u64 = 253_402_300_800;

/// The RFC 3339 text, to the second and in UTC, of the instant `seconds`
/// after the Unix epoch, as `humantime` formats it.
pub uninterp spec fn rfc3339_seconds(seconds: u64) -> Seq<char>;

/// The name of the log file opened at the instant written as `stamp`.
pub open spec fn log_file_text(stamp: Seq<char>) -> Seq<char> {
    "ferric_log_"@ + stamp + ".log"@
}

/// One log line.
pub open spec fn record_text(
    stamp: Seq<char>,
    level: Seq<char>,
    target: Seq<char>,
    message: Seq<char>,
) -> Seq<char> {
    "("@ + stamp + " "@ + level + ") ["@ + target + "] "@ + message
}

/// The level to filter at: debug records are written only when asked for.
pub fn level_for(debug_logs: bool) -> (level: LogLevel)
    ensures
        level == if debug_logs { LogLevel::Debug } else { LogLevel::Info },
{
    if debug_logs {
        LogLevel::Debug
    } else {
        LogLevel::Info
    }
}

/// Formats the instant `seconds` after the Unix epoch with
/// `humantime::format_rfc3339_seconds`. Trusted: the text is a function of
/// `seconds` alone, named `rfc3339_seconds`. The formatter fails from
/// `TIMESTAMP_LIMIT` on, so such instants are excluded.
#[verifier::external_body]
pub(crate) fn format_timestamp(seconds: u64) -> (text: String)
    requires
        seconds < TIMESTAMP_LIMIT,
    ensures
        text@ == rfc3339_seconds(seconds),
{
    let instant = std::time::UNIX_EPOCH + std::time::Duration::from_secs(seconds);
    humantime::format_rfc3339_seconds(instant).to_string()
}

/// The log file's name for a timestamp already written as text.
pub fn log_file_name_for(stamp: &str) -> (name: String)
    ensures
        name@ == log_file_text(stamp@),
{
    let mut name = String::from_str("ferric_log_");
    name.append(stamp);
    name.append(".log");
    name
}

/// The timestamp of the instant `seconds` after the Unix epoch, or `None`
/// where that instant is too late to be formatted.
pub fn timestamp(seconds: u64) -> (stamp: Option<String>)
    ensures
        seconds < TIMESTAMP_LIMIT ==> stamp is Some && stamp->0@ == rfc3339_seconds(seconds),
        seconds >= TIMESTAMP_LIMIT ==> stamp is None,
{
    if seconds < TIMESTAMP_LIMIT {
        Some(format_timestamp(seconds))
    } else {
        None
    }
}

/// The name of the log file opened `seconds` after the Unix epoch, or `None`
/// where that instant is too late to be formatted.
pub fn log_file_name(seconds: u64) -> (name: Option<String>)
    ensures
        seconds < TIMESTAMP_LIMIT ==> name is Some && name->0@ == log_file_text(
            rfc3339_seconds(seconds),
        ),
        seconds >= TIMESTAMP_LIMIT ==> name is None,
{
    match timestamp(seconds) {
        Some(stamp) => Some(log_file_name_for(stamp.as_str())),
        None => None,
    }
}

/// One log line: the timestamp and level in parentheses, the target in
/// brackets, then the message.
pub fn format_record(stamp: &str, level: &str, target: &str, message: &str) -> (line: String)
    ensures
        line@ == record_text(stamp@, level@, target@, message@),
{
    let mut line = String::from_str("(");
    line.append(stamp);
    line.append(" ");
    line.append(level);
    line.append(") [");
    line.append(target);
    line.append("] ");
    line.append(message);
    line
}

} // verus!
