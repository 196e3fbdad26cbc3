//! Log levels of the daemon.
//!
//! Levels:
//!   info  – errors + important state transitions
//!   warn  – retries, unexpected but non-fatal events
//!   full  – protocol-level details, raw packets
use crate::text::{lowercase, to_lowercase};
use vstd::prelude::*;
use vstd::string::*;

verus! {

/// How much the daemon logs.
#[derive(Debug, Clone, Copy, PartialEq, Eq, PartialOrd, Ord, Structural)]
pub enum LogLevel {
    Info,
    Warn,
    Full,
}

/// The rank of a level: Info 0, Warn 1, Full 2.
pub open spec fn level_rank(l: LogLevel) -> u8 {
    match l {
        LogLevel::Info => 0,
        LogLevel::Warn => 1,
        LogLevel::Full => 2,
    }
}

/// The level a stored rank stands for; anything above 1 is Full.
pub open spec fn level_of_rank(v: u8) -> LogLevel {
    if v == 0 {
        LogLevel::Info
    } else if v == 1 {
        LogLevel::Warn
    } else {
        LogLevel::Full
    }
}

/// The level a command-line word names, ignoring case: `full`, `warn`,
/// anything else Info.
pub open spec fn level_named(lower: Seq<char>) -> LogLevel {
    if lower == "full"@ {
        LogLevel::Full
    } else if lower == "warn"@ {
        LogLevel::Warn
    } else {
        LogLevel::Info
    }
}

impl LogLevel {
    /// Parses a level name, ignoring case; unknown names give Info.
    pub fn from_str(s: &str) -> (l: Self)
        ensures
            l == level_named(lowercase(s@)),
    {
        let lower = to_lowercase(s);
        if lower == String::from_str("full") {
            LogLevel::Full
        } else if lower == String::from_str("warn") {
            LogLevel::Warn
        } else {
            LogLevel::Info
        }
    }

    /// The rank stored for this level.
    pub fn as_u8(self) -> (v: u8)
        ensures
            v == level_rank(self),
    {
        match self {
            LogLevel::Info => 0,
            LogLevel::Warn => 1,
            LogLevel::Full => 2,
        }
    }

    /// The level a stored rank stands for.
    pub fn from_rank(v: u8) -> (l: Self)
        ensures
            l == level_of_rank(v),
    {
        match v {
            0 => LogLevel::Info,
            1 => LogLevel::Warn,
            _ => LogLevel::Full,
        }
    }

    /// Whether a message of level `needed` is shown at this level.
    pub fn shows(self, needed: LogLevel) -> (r: bool)
        ensures
            r == (level_rank(self) >= level_rank(needed)),
    {
        self.as_u8() >= needed.as_u8()
    }
}

/// The daemon's log level, stored as its rank as the daemon keeps it.
#[derive(Debug, Clone, Copy)]
pub struct LogState {
    rank: u8,
}

impl LogState {
    /// The level this state stands for.
    pub closed spec fn current(self) -> LogLevel {
        level_of_rank(self.rank)
    }

    /// The state at start: Info.
    pub fn new() -> (s: Self)
        ensures
            s.current() == LogLevel::Info,
    {
        LogState { rank: 0 }
    }

    /// Sets the level.
    pub fn set_log_level(&mut self, level: LogLevel)
        ensures
            final(self).current() == level,
    {
        self.rank = level.as_u8();
    }

    /// The level set last.
    pub fn level(&self) -> (l: LogLevel)
        ensures
            l == self.current(),
    {
        LogLevel::from_rank(self.rank)
    }

    /// Whether a message of level `needed` is printed: warnings from Warn
    /// on, protocol details only at Full; Info messages always.
    pub fn shows(&self, needed: LogLevel) -> (r: bool)
        ensures
            r == (level_rank(self.current()) >= level_rank(needed)),
    {
        self.level().shows(needed)
    }
}

/// A level survives being stored as its rank.
pub proof fn lemma_rank_roundtrip(l: LogLevel)
    ensures
        level_of_rank(level_rank(l)) == l,
{
}

} // verus!
