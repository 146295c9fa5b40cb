//! Logging: the levels, the once-only choice of verbosity, the filter that
//! decides which records are written, and the line a record is written as.
//!
//! Nothing here prints or reads a clock. The caller hands in the time and
//! gets back the line to write.

use crate::text::{push_fixed, starts_with};
use std::str::FromStr;
use vstd::prelude::*;
use vstd::string::*;

verus! {

/// How severe a record is, the most severe first.
#[derive(Debug, Clone, Copy, PartialEq, Eq, Structural)]
pub enum Level {
    Error,
    Warn,
    Info,
    Debug,
    Trace,
}

/// The least severe level that is still written; `Off` writes nothing.
#[derive(Debug, Clone, Copy, PartialEq, Eq, Structural)]
pub enum LevelFilter {
    Off,
    Error,
    Warn,
    Info,
    Debug,
    Trace,
}

/// The lower-case form of an ASCII capital; any other character is itself.
pub open spec fn ascii_lower(c: char) -> char {
    if 'A' <= c && c <= 'Z' {
        ((c as u8) + 32) as char
    } else {
        c
    }
}

/// The two texts are equal but for the case of ASCII letters.
pub open spec fn same_ignoring_case(a: Seq<char>, b: Seq<char>) -> bool {
    &&& a.len() == b.len()
    &&& forall|i: int| 0 <= i < a.len() ==> ascii_lower(a[i]) == ascii_lower(b[i])
}

/// The filter that a name stands for: one of the six names, in any case.
pub open spec fn level_filter_named(name: Seq<char>) -> Option<LevelFilter> {
    if same_ignoring_case(name, "OFF"@) {
        Some(LevelFilter::Off)
    } else if same_ignoring_case(name, "ERROR"@) {
        Some(LevelFilter::Error)
    } else if same_ignoring_case(name, "WARN"@) {
        Some(LevelFilter::Warn)
    } else if same_ignoring_case(name, "INFO"@) {
        Some(LevelFilter::Info)
    } else if same_ignoring_case(name, "DEBUG"@) {
        Some(LevelFilter::Debug)
    } else if same_ignoring_case(name, "TRACE"@) {
        Some(LevelFilter::Trace)
    } else {
        None
    }
}

/// Calls `log::LevelFilter::from_str`, which compares the name with "OFF",
/// "ERROR", "WARN", "INFO", "DEBUG" and "TRACE" in that order, ignoring the
/// case of ASCII letters, and fails on any other name.
#[verifier::external_body]
fn parse_level_filter(name: &str) -> (r: Option<LevelFilter>)
    ensures
        r == level_filter_named(name@),
{
    match log::LevelFilter::from_str(name) {
        Ok(log::LevelFilter::Off) => Some(LevelFilter::Off),
        Ok(log::LevelFilter::Error) => Some(LevelFilter::Error),
        Ok(log::LevelFilter::Warn) => Some(LevelFilter::Warn),
        Ok(log::LevelFilter::Info) => Some(LevelFilter::Info),
        Ok(log::LevelFilter::Debug) => Some(LevelFilter::Debug),
        Ok(log::LevelFilter::Trace) => Some(LevelFilter::Trace),
        Err(_) => None,
    }
}

impl Level {
    /// The place of the level in the order of severity, from 1 for `Error`
    /// to 5 for `Trace`.
    pub open spec fn rank_spec(self) -> nat {
        match self {
            Level::Error => 1,
            Level::Warn => 2,
            Level::Info => 3,
            Level::Debug => 4,
            Level::Trace => 5,
        }
    }

    /// The name that a record of this level is written with.
    pub open spec fn name_spec(self) -> Seq<char> {
        match self {
            Level::Error => "ERROR"@,
            Level::Warn => "WARN"@,
            Level::Info => "INFO"@,
            Level::Debug => "DEBUG"@,
            Level::Trace => "TRACE"@,
        }
    }

    /// The place of the level in the order of severity.
    pub fn rank(self) -> (r: u8)
        ensures
            r == self.rank_spec(),
    {
        match self {
            Level::Error => 1,
            Level::Warn => 2,
            Level::Info => 3,
            Level::Debug => 4,
            Level::Trace => 5,
        }
    }

    /// The name that a record of this level is written with.
    pub fn as_str(self) -> (r: &'static str)
        ensures
            r@ == self.name_spec(),
    {
        match self {
            Level::Error => "ERROR",
            Level::Warn => "WARN",
            Level::Info => "INFO",
            Level::Debug => "DEBUG",
            Level::Trace => "TRACE",
        }
    }
}

impl LevelFilter {
    /// The place of the filter in the order of verbosity: 0 for `Off`, then
    /// the rank of the level of the same name.
    pub open spec fn rank_spec(self) -> nat {
        match self {
            LevelFilter::Off => 0,
            LevelFilter::Error => 1,
            LevelFilter::Warn => 2,
            LevelFilter::Info => 3,
            LevelFilter::Debug => 4,
            LevelFilter::Trace => 5,
        }
    }

    /// The place of the filter in the order of verbosity.
    pub fn rank(self) -> (r: u8)
        ensures
            r == self.rank_spec(),
    {
        match self {
            LevelFilter::Off => 0,
            LevelFilter::Error => 1,
            LevelFilter::Warn => 2,
            LevelFilter::Info => 3,
            LevelFilter::Debug => 4,
            LevelFilter::Trace => 5,
        }
    }

    /// The filter that `name` stands for, or `Off` where it stands for none.
    pub fn from_name_or_off(name: &str) -> (r: LevelFilter)
        ensures
            r == match level_filter_named(name@) {
                Some(filter) => filter,
                None => LevelFilter::Off,
            },
    {
        match parse_level_filter(name) {
            Some(filter) => filter,
            None => LevelFilter::Off,
        }
    }
}

/// The verbosity of the process: chosen at most once, and `Off` until then.
pub struct LoggerState {
    chosen: Option<LevelFilter>,
}

impl View for LoggerState {
    type V = Option<LevelFilter>;

    /// The filter that was chosen, if one was.
    closed spec fn view(&self) -> Option<LevelFilter> {
        self.chosen
    }
}

impl LoggerState {
    /// The state of a process in which logging was not initialised yet.
    pub fn new() -> (r: LoggerState)
        ensures
            r@ is None,
    {
        LoggerState { chosen: None }
    }

    /// The filter that was chosen, if one was.
    pub fn chosen(&self) -> (r: Option<LevelFilter>)
        ensures
            r == self@,
    {
        self.chosen
    }

    /// The filter in force: the one chosen, or `Off` while none was.
    pub open spec fn max_level_spec(&self) -> LevelFilter {
        match self@ {
            Some(filter) => filter,
            None => LevelFilter::Off,
        }
    }

    /// The filter in force.
    pub fn max_level(&self) -> (r: LevelFilter)
        ensures
            r == self.max_level_spec(),
    {
        match self.chosen {
            Some(filter) => filter,
            None => LevelFilter::Off,
        }
    }
}

/// Initialises logging. The first call chooses the filter and returns
/// `true`; every later call changes nothing and returns `false`.
pub fn init_logging(state: &mut LoggerState, level: LevelFilter) -> (first: bool)
    ensures
        first == (old(state)@ is None),
        final(state)@ == match old(state)@ {
            Some(chosen) => Some(chosen),
            None => Some(level),
        },
{
    match state.chosen {
        Some(_) => false,
        None => {
            state.chosen = Some(level);
            true
        },
    }
}

/// Whether a target belongs to one of the two transport libraries: it
/// begins with "rustls" or with "electrum_client".
pub open spec fn is_transport_target(target: Seq<char>) -> bool {
    "rustls"@.is_prefix_of(target) || "electrum_client"@.is_prefix_of(target)
}

/// Whether a record is written. A record passes if its level is within the
/// filter. Of the two transport libraries only what is more severe than
/// `Debug` passes: their `Debug` and `Trace` records are dropped, whatever
/// the filter.
pub open spec fn enabled_spec(level: Level, target: Seq<char>, max_level: LevelFilter) -> bool {
    &&& level.rank_spec() <= max_level.rank_spec()
    &&& (level.rank_spec() < Level::Debug.rank_spec() || !is_transport_target(target))
}

/// The line that a record is written as: the second within the minute in
/// two digits, a dot, the millisecond in three digits, the level's name,
/// a dash, the message. `now_millis` counts milliseconds since the epoch.
pub open spec fn line_spec(now_millis: nat, level: Level, message: Seq<char>) -> Seq<char> {
    crate::text::fixed_digits((now_millis / 1000) % 60, 2) + "."@ + crate::text::fixed_digits(
        now_millis % 1000,
        3,
    ) + " "@ + level.name_spec() + " - "@ + message
}

/// The logger of the process: writes one line per record, keeps nothing.
pub struct SimpleLogger;

impl SimpleLogger {
    /// Whether a record of this level and target is written under the
    /// filter `max_level`.
    pub fn enabled(&self, level: Level, target: &str, max_level: LevelFilter) -> (r: bool)
        ensures
            r == enabled_spec(level, target@, max_level),
    {
        if level.rank() < Level::Debug.rank() {
            level.rank() <= max_level.rank()
        } else {
            level.rank() <= max_level.rank() && !starts_with(target, "rustls") && !starts_with(
                target,
                "electrum_client",
            )
        }
    }

    /// The line to write for a record, or `None` where the record is
    /// filtered out.
    pub fn log(
        &self,
        level: Level,
        target: &str,
        max_level: LevelFilter,
        now_millis: u64,
        message: &str,
    ) -> (r: Option<String>)
        ensures
            r is Some <==> enabled_spec(level, target@, max_level),
            r matches Some(line) ==> line@ == line_spec(now_millis as nat, level, message@),
    {
        if !self.enabled(level, target, max_level) {
            return None;
        }
        let mut line = String::new();
        push_fixed(&mut line, (now_millis / 1000) % 60, 2);
        line.append(".");
        push_fixed(&mut line, now_millis % 1000, 3);
        line.append(" ");
        line.append(level.as_str());
        line.append(" - ");
        line.append(message);
        assert(line@ == line_spec(now_millis as nat, level, message@));
        Some(line)
    }
}

} // verus!
