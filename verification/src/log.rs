//! Logging configuration and the decisions of the file logger: which
//! lines to write, when to rotate the file, and the time stamp of a line.
//!
//! The logger itself (the file and the global state) is platform code.

use vstd::prelude::*;
use crate::text::str_eq_ignore_case;
use crate::text::eq_ignore_case;

verus! {

broadcast use vstd::string::group_string_axioms;

/// Logging configuration.
#[derive(Debug, Clone)]
pub struct LogConfig {
    /// Whether file logging is enabled. Defaults to `false`.
    pub enabled: bool,
    /// Minimum log level: "debug", "info", "warn", or "error".
    pub level: String,
    /// Maximum log file size in megabytes before rotation.
    pub max_file_mb: u64,
}

impl Default for LogConfig {
    fn default() -> (c: Self)
        ensures
            !c.enabled,
            c.level@ == "info"@,
            c.max_file_mb == 10,
    {
        LogConfig { enabled: false, level: "info".to_string(), max_file_mb: 10 }
    }
}

/// Log severity levels, from least to most severe.
#[derive(Debug, Clone, Copy, PartialEq, Eq, Structural)]
pub enum Level {
    Debug,
    Info,
    Warn,
    Error,
}

impl Level {
    /// Position in the order of severity.
    pub open spec fn rank(self) -> int {
        match self {
            Level::Debug => 0,
            Level::Info => 1,
            Level::Warn => 2,
            Level::Error => 3,
        }
    }

    pub open spec fn spec_as_str(self) -> Seq<char> {
        match self {
            Level::Debug => "DEBUG"@,
            Level::Info => "INFO"@,
            Level::Warn => "WARN"@,
            Level::Error => "ERROR"@,
        }
    }

    /// The level a configured name selects (case-insensitive); unknown
    /// names select Info.
    pub open spec fn spec_parse(s: Seq<char>) -> Level {
        if eq_ignore_case(s, "debug"@) {
            Level::Debug
        } else if eq_ignore_case(s, "warn"@) {
            Level::Warn
        } else if eq_ignore_case(s, "error"@) {
            Level::Error
        } else {
            Level::Info
        }
    }

    /// The upper-case label of the level in log lines.
    pub fn as_str(self) -> (s: &'static str)
        ensures
            s@ == self.spec_as_str(),
    {
        match self {
            Level::Debug => "DEBUG",
            Level::Info => "INFO",
            Level::Warn => "WARN",
            Level::Error => "ERROR",
        }
    }

    /// Parses a configured level name.
    pub fn parse(s: &str) -> (l: Level)
        ensures
            l == Level::spec_parse(s@),
    {
        if str_eq_ignore_case(s, "debug") {
            Level::Debug
        } else if str_eq_ignore_case(s, "warn") {
            Level::Warn
        } else if str_eq_ignore_case(s, "error") {
            Level::Error
        } else {
            Level::Info
        }
    }

    /// Whether a message of this level is at least as severe as `min`.
    pub fn at_least(self, min: Level) -> (b: bool)
        ensures
            b == (self.rank() >= min.rank()),
    {
        let a: u8 = match self {
            Level::Debug => 0,
            Level::Info => 1,
            Level::Warn => 2,
            Level::Error => 3,
        };
        let b: u8 = match min {
            Level::Debug => 0,
            Level::Info => 1,
            Level::Warn => 2,
            Level::Error => 3,
        };
        a >= b
    }
}

/// The size in bytes after which the log file is rotated.
pub fn max_log_bytes(max_file_mb: u64) -> (b: u64)
    requires
        max_file_mb * 1024 * 1024 <= u64::MAX,
    ensures
        b == max_file_mb * 1024 * 1024,
{
    max_file_mb * 1024 * 1024
}

/// Whether the log file must be rotated after `written` bytes; a limit of
/// zero means never.
pub fn needs_rotation(max_bytes: u64, written: u64) -> (b: bool)
    ensures
        b == (max_bytes > 0 && written >= max_bytes),
{
    max_bytes > 0 && written >= max_bytes
}

/// Two-digit, zero-padded decimal text of `n < 100`.
pub open spec fn two_digits(n: nat) -> Seq<char> {
    seq![((n / 10 + 48) as int) as char, ((n % 10 + 48) as int) as char]
}

fn digit(d: u64) -> (s: &'static str)
    requires
        d < 10,
    ensures
        s@ == seq![((d + 48) as int) as char],
{
    proof {
        reveal_strlit("0");
        reveal_strlit("1");
        reveal_strlit("2");
        reveal_strlit("3");
        reveal_strlit("4");
        reveal_strlit("5");
        reveal_strlit("6");
        reveal_strlit("7");
        reveal_strlit("8");
        reveal_strlit("9");
    }
    match d {
        0 => "0",
        1 => "1",
        2 => "2",
        3 => "3",
        4 => "4",
        5 => "5",
        6 => "6",
        7 => "7",
        8 => "8",
        _ => "9",
    }
}

/// The `HH:MM:SS` time of day (UTC) of `secs` seconds since the epoch.
pub open spec fn clock_text(secs: nat) -> Seq<char> {
    two_digits(secs / 3600 % 24) + ":"@ + two_digits(secs / 60 % 60) + ":"@ + two_digits(secs % 60)
}

/// Formats the `HH:MM:SS` time of day (UTC) of `secs` seconds since the
/// epoch, as log lines are stamped.
pub fn clock_timestamp(secs: u64) -> (s: String)
    ensures
        s@ == clock_text(secs as nat),
{
    let h = secs / 3600 % 24;
    let m = secs / 60 % 60;
    let sec = secs % 60;
    let mut s = digit(h / 10).to_string();
    s.append(digit(h % 10));
    s.append(":");
    s.append(digit(m / 10));
    s.append(digit(m % 10));
    s.append(":");
    s.append(digit(sec / 10));
    s.append(digit(sec % 10));
    assert(s@ =~= clock_text(secs as nat));
    s
}

/// One line of the log file: the time stamp, the level in brackets, the
/// message, and a newline.
pub open spec fn log_line_text(timestamp: Seq<char>, level: Level, message: Seq<char>) -> Seq<char> {
    timestamp + " ["@ + level.spec_as_str() + "] "@ + message + "\n"@
}

/// Formats one line of the log file.
pub fn log_line(timestamp: &str, level: Level, message: &str) -> (s: String)
    ensures
        s@ == log_line_text(timestamp@, level, message@),
{
    let mut s = timestamp.to_string();
    s.append(" [");
    s.append(level.as_str());
    s.append("] ");
    s.append(message);
    s.append("\n");
    s
}

} // verus!
