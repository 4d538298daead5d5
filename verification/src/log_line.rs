//! The text of one captured log line.

use crate::clock::{is_utc_timestamp, utc_timestamp};
use vstd::prelude::*;

verus! {

/// Severity of a log event.
#[derive(Clone, Copy, Debug, PartialEq, Eq, Structural)]
pub enum LogLevel {
    Trace,
    Debug,
    Info,
    Warn,
    Error,
}

/// The level's name in upper case.
pub open spec fn level_name(level: LogLevel) -> Seq<char> {
    match level {
        LogLevel::Trace => "TRACE"@,
        LogLevel::Debug => "DEBUG"@,
        LogLevel::Info => "INFO"@,
        LogLevel::Warn => "WARN"@,
        LogLevel::Error => "ERROR"@,
    }
}

/// `s` right-aligned in a field of `width` characters, padded with spaces.
pub open spec fn pad_left(s: Seq<char>, width: nat) -> Seq<char> {
    if s.len() >= width {
        s
    } else {
        Seq::new((width - s.len()) as nat, |i: int| ' ') + s
    }
}

/// A log line: the timestamp, the level right-aligned in five columns, the
/// target and the message, separated by single spaces.
pub open spec fn log_line_spec(
    timestamp: Seq<char>,
    level: LogLevel,
    target: Seq<char>,
    message: Seq<char>,
) -> Seq<char> {
    timestamp + " "@ + pad_left(level_name(level), 5) + " "@ + target + " "@ + message
}

/// The level's name right-aligned in five columns.
pub fn padded_level(level: LogLevel) -> (text: &'static str)
    ensures
        text@ == pad_left(level_name(level), 5),
{
    proof {
        reveal_strlit("TRACE");
        reveal_strlit("DEBUG");
        reveal_strlit("INFO");
        reveal_strlit("WARN");
        reveal_strlit("ERROR");
        reveal_strlit(" INFO");
        reveal_strlit(" WARN");
    }
    match level {
        LogLevel::Trace => "TRACE",
        LogLevel::Debug => "DEBUG",
        LogLevel::Info => {
            assert(pad_left(level_name(level), 5) =~= " INFO"@);
            " INFO"
        },
        LogLevel::Warn => {
            assert(pad_left(level_name(level), 5) =~= " WARN"@);
            " WARN"
        },
        LogLevel::Error => "ERROR",
    }
}

/// Formats one captured log event.
pub fn format_log_line(timestamp: &str, level: LogLevel, target: &str, message: &str) -> (line:
    String)
    ensures
        line@ == log_line_spec(timestamp@, level, target@, message@),
{
    let mut line = String::from_str(timestamp);
    line.append(" ");
    line.append(padded_level(level));
    line.append(" ");
    line.append(target);
    line.append(" ");
    line.append(message);
    line
}

/// Formats a log event that happens now: the line carries the current UTC
/// time of the enclave's clock; nothing when the clock cannot be read.
pub fn timestamped_log_line(level: LogLevel, target: &str, message: &str) -> (line: Option<String>)
    ensures
        line matches Some(line) ==> exists|timestamp: Seq<char>|
            is_utc_timestamp(timestamp) && line@ == #[trigger] log_line_spec(
                timestamp,
                level,
                target@,
                message@,
            ),
{
    match utc_timestamp() {
        Some(timestamp) => Some(format_log_line(timestamp.as_str(), level, target, message)),
        None => None,
    }
}

/// The message after one more field of an event is recorded: the field
/// named `message` replaces it; any other field is appended as
/// `name=value`, after a space when the message is not empty.
pub open spec fn record_spec(message: Seq<char>, name: Seq<char>, value: Seq<char>) -> Seq<char> {
    if name == "message"@ {
        value
    } else if message.len() > 0 {
        message + " "@ + name + "="@ + value
    } else {
        name + "="@ + value
    }
}

/// Collects the fields of one log event into its message text.
pub struct LogVisitor {
    pub message: String,
}

impl LogVisitor {
    /// A visitor with an empty message.
    pub fn new() -> (visitor: Self)
        ensures
            visitor.message@ == Seq::<char>::empty(),
    {
        LogVisitor { message: String::new() }
    }

    /// Records the field `name`, whose value has already been rendered as
    /// text.
    pub fn record(&mut self, name: &str, value: &str)
        ensures
            final(self).message@ == record_spec(old(self).message@, name@, value@),
    {
        let field = String::from_str(name);
        let message_field = String::from_str("message");
        if field == message_field {
            self.message = String::from_str(value);
        } else if !self.message.as_str().is_empty() {
            self.message.append(" ");
            self.message.append(name);
            self.message.append("=");
            self.message.append(value);
        } else {
            let mut text = String::from_str(name);
            text.append("=");
            text.append(value);
            self.message = text;
        }
    }
}

} // verus!
