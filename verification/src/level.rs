//! Severity levels, their order and their names.

use vstd::prelude::*;
use crate::text::{eq_ignoring_case, same_ignoring_case};

verus! {

/// How severe a record is. `Error` is the most severe.
#[derive(Clone, Copy, Debug, PartialEq, Eq, Structural)]
pub enum Level {
    Trace,
    Debug,
    Info,
    Warn,
    Error,
}

impl Level {
    /// Position in the order of severity, from 0 for `Trace` to 4 for `Error`.
    pub open spec fn rank(self) -> nat {
        match self {
            Level::Trace => 0,
            Level::Debug => 1,
            Level::Info => 2,
            Level::Warn => 3,
            Level::Error => 4,
        }
    }

    /// The name a record shows for the level.
    pub open spec fn label(self) -> Seq<char> {
        match self {
            Level::Trace => "TRACE"@,
            Level::Debug => "DEBUG"@,
            Level::Info => "INFO"@,
            Level::Warn => "WARN"@,
            Level::Error => "ERROR"@,
        }
    }

    /// The level that a text names, whatever the case of its letters.
    pub open spec fn named_by(text: Seq<char>) -> Option<Level> {
        if same_ignoring_case(text, "trace"@) {
            Some(Level::Trace)
        } else if same_ignoring_case(text, "debug"@) {
            Some(Level::Debug)
        } else if same_ignoring_case(text, "info"@) {
            Some(Level::Info)
        } else if same_ignoring_case(text, "warn"@) {
            Some(Level::Warn)
        } else if same_ignoring_case(text, "error"@) {
            Some(Level::Error)
        } else {
            None
        }
    }

    /// The rank as a machine integer.
    pub fn severity(self) -> (rank: u8)
        ensures
            rank == self.rank(),
    {
        match self {
            Level::Trace => 0,
            Level::Debug => 1,
            Level::Info => 2,
            Level::Warn => 3,
            Level::Error => 4,
        }
    }

    /// Whether this level is as severe as `minimum`, or more.
    pub fn at_least(self, minimum: Level) -> (reached: bool)
        ensures
            reached == (self.rank() >= minimum.rank()),
    {
        self.severity() >= minimum.severity()
    }

    /// The name of the level in capitals.
    pub fn as_str(self) -> (name: &'static str)
        ensures
            name@ == self.label(),
    {
        match self {
            Level::Trace => "TRACE",
            Level::Debug => "DEBUG",
            Level::Info => "INFO",
            Level::Warn => "WARN",
            Level::Error => "ERROR",
        }
    }

    /// Reads a level from its name, in any case of letters; `None` for any
    /// other text, a level given as a number included.
    pub fn parse(text: &str) -> (level: Option<Level>)
        ensures
            level == Level::named_by(text@),
    {
        if eq_ignoring_case(text, "trace") {
            Some(Level::Trace)
        } else if eq_ignoring_case(text, "debug") {
            Some(Level::Debug)
        } else if eq_ignoring_case(text, "info") {
            Some(Level::Info)
        } else if eq_ignoring_case(text, "warn") {
            Some(Level::Warn)
        } else if eq_ignoring_case(text, "error") {
            Some(Level::Error)
        } else {
            None
        }
    }
}

} // verus!
