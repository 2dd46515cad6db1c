use vstd::prelude::*;
use chrono::{DateTime, FixedOffset, Local};

verus! {

/// How serious a log entry is.
#[derive(Debug, Clone, Copy, PartialEq, Eq, Hash, Structural)]
pub enum LogLevel {
    Info,
    Warning,
    Success,
    Error,
}

/// A moment, as seconds and nanoseconds since the Unix epoch and the offset
/// from UTC (in seconds) of the time zone it was taken in.
#[derive(Debug, Clone, Copy, PartialEq, Eq, Hash, Structural)]
pub struct Timestamp {
    pub secs: i64,
    pub nanos: u32,
    pub offset_secs: i32,
}

/// A log entry.
#[derive(Debug, Clone, PartialEq, Eq)]
pub struct Log {
    pub level: LogLevel,
    pub message: String,
    pub created_at: Timestamp,
}

/// The current local time, read with `chrono::Local::now`. Nothing is stated
/// of it: it depends on the clock and the time zone.
#[verifier::external_body]
fn now() -> (r: Timestamp) {
    let t = Local::now();
    Timestamp {
        secs: t.timestamp(),
        nanos: t.timestamp_subsec_nanos(),
        offset_secs: t.offset().local_minus_utc(),
    }
}

/// The text that chrono's `Display` gives for the moment `(secs, nanos)` seen
/// at the UTC offset `offset_secs`, or the empty text when chrono cannot
/// represent that moment or offset.
pub uninterp spec fn timestamp_display(secs: i64, nanos: u32, offset_secs: i32) -> Seq<char>;

/// Formats a moment with chrono (`DateTime<FixedOffset>` displayed); the
/// text is named [`timestamp_display`].
#[verifier::external_body]
fn timestamp_text(t: Timestamp) -> (r: String)
    ensures
        r@ == timestamp_display(t.secs, t.nanos, t.offset_secs),
{
    let offset = FixedOffset::east_opt(t.offset_secs);
    let utc = DateTime::from_timestamp(t.secs, t.nanos);
    match (offset, utc) {
        (Some(o), Some(u)) => format!("{}", u.with_timezone(&o)),
        _ => String::new(),
    }
}

/// The fixed-width label of a level in a log line.
pub open spec fn level_label(level: LogLevel) -> Seq<char> {
    match level {
        LogLevel::Info => seq!['I', 'N', 'F', 'O', ' ', ' ', ' '],
        LogLevel::Warning => seq!['W', 'A', 'R', 'N', 'I', 'N', 'G'],
        LogLevel::Success => seq!['S', 'U', 'C', 'C', 'E', 'S', 'S'],
        LogLevel::Error => seq!['E', 'R', 'R', 'O', 'R', ' ', ' '],
    }
}

/// The label of a level (see [`level_label`]).
pub fn level_text(level: LogLevel) -> (r: &'static str)
    ensures
        r@ == level_label(level),
{
    match level {
        LogLevel::Info => {
            proof {
                reveal_strlit("INFO   ");
            }
            "INFO   "
        },
        LogLevel::Warning => {
            proof {
                reveal_strlit("WARNING");
            }
            "WARNING"
        },
        LogLevel::Success => {
            proof {
                reveal_strlit("SUCCESS");
            }
            "SUCCESS"
        },
        LogLevel::Error => {
            proof {
                reveal_strlit("ERROR  ");
            }
            "ERROR  "
        },
    }
}

/// The line of a log entry: `[<time>] <LEVEL> <message>`.
pub open spec fn log_line(t: Seq<char>, level: LogLevel, message: Seq<char>) -> Seq<char> {
    seq!['['] + t + seq![']', ' '] + level_label(level) + seq![' '] + message
}

impl Log {
    /// A new entry, stamped with the current local time.
    pub fn new(level: LogLevel, message: String) -> (r: Self)
        ensures
            r.level == level,
            r.message == message,
    {
        Log { level, message, created_at: now() }
    }

    /// The entry as a line of text (see [`log_line`]).
    pub fn to_text(&self) -> (r: String)
        ensures
            r@ == log_line(
                timestamp_display(self.created_at.secs, self.created_at.nanos, self.created_at.offset_secs),
                self.level,
                self.message@,
            ),
    {
        let mut s = String::from_str("[");
        let t = timestamp_text(self.created_at);
        s.append(t.as_str());
        s.append("] ");
        s.append(level_text(self.level));
        s.append(" ");
        s.append(self.message.as_str());
        proof {
            reveal_strlit("[");
            reveal_strlit("] ");
            reveal_strlit(" ");
            assert(s@ =~= log_line(
                timestamp_display(self.created_at.secs, self.created_at.nanos, self.created_at.offset_secs),
                self.level,
                self.message@,
            ));
        }
        s
    }

    /// A copy of the entry.
    pub fn copy(&self) -> (r: Self)
        ensures
            r.level == self.level,
            r.message@ == self.message@,
            r.created_at == self.created_at,
    {
        Log { level: self.level, message: self.message.clone(), created_at: self.created_at }
    }
}

} // verus!
