//! Severity levels and the filtering rule of the sink.

use crate::text::str_eq;
use vstd::prelude::*;

verus! {

/// A log severity, ordered from most to least severe:
/// `Error > Warn > Info > Debug > Trace`.
#[derive(Clone, Copy, Debug, PartialEq, Eq, Structural)]
pub enum Level {
    Error,
    Warn,
    Info,
    Debug,
    Trace,
}

impl Level {
    /// Numeric rank of a severity; a greater rank means a more severe level.
    pub open spec fn severity(self) -> int {
        match self {
            Level::Error => 4,
            Level::Warn => 3,
            Level::Info => 2,
            Level::Debug => 1,
            Level::Trace => 0,
        }
    }

    /// Whether a record at severity `self` passes a configured minimum
    /// severity `min`: it does exactly when it is at least as severe.
    pub open spec fn passes(self, min: Level) -> bool {
        self.severity() >= min.severity()
    }

    /// Executable rank, equal to the specification-level `severity`.
    pub fn rank(self) -> (r: u8)
        ensures
            r as int == self.severity(),
    {
        match self {
            Level::Error => 4,
            Level::Warn => 3,
            Level::Info => 2,
            Level::Debug => 1,
            Level::Trace => 0,
        }
    }

    /// The severity label as it appears in rendered log items.
    pub fn label(self) -> (r: &'static str)
        ensures
            r@ == self.spec_label(),
    {
        match self {
            Level::Error => "ERROR",
            Level::Warn => "WARN",
            Level::Info => "INFO",
            Level::Debug => "DEBUG",
            Level::Trace => "TRACE",
        }
    }

    /// Specification-level severity label.
    pub open spec fn spec_label(self) -> Seq<char> {
        match self {
            Level::Error => "ERROR"@,
            Level::Warn => "WARN"@,
            Level::Info => "INFO"@,
            Level::Debug => "DEBUG"@,
            Level::Trace => "TRACE"@,
        }
    }
}

/// The severity that a configuration label denotes: the five lower-case
/// names map to their levels, and any unrecognized label falls back to the
/// most severe level rather than failing.
pub open spec fn level_of_label(s: Seq<char>) -> Level {
    if s == "error"@ {
        Level::Error
    } else if s == "warn"@ {
        Level::Warn
    } else if s == "info"@ {
        Level::Info
    } else if s == "debug"@ {
        Level::Debug
    } else if s == "trace"@ {
        Level::Trace
    } else {
        Level::Error
    }
}

impl Level {
    /// Parses a configuration severity label, case-sensitively; an
    /// unrecognized label yields the most severe level, `Error`.
    pub fn from_label(s: &str) -> (r: Level)
        ensures
            r == level_of_label(s@),
    {
        if str_eq(s, "error") {
            Level::Error
        } else if str_eq(s, "warn") {
            Level::Warn
        } else if str_eq(s, "info") {
            Level::Info
        } else if str_eq(s, "debug") {
            Level::Debug
        } else if str_eq(s, "trace") {
            Level::Trace
        } else {
            Level::Error
        }
    }
}

/// The total order of severities holds of `passes` for every pair:
/// a level equal to the minimum passes, and one a single step less
/// severe than the minimum fails.
pub proof fn lemma_passes_matches_order(level: Level, min: Level)
    ensures
        level.passes(min) == (level.severity() >= min.severity()),
        level == min ==> level.passes(min),
        level.severity() + 1 == min.severity() ==> !level.passes(min),
{
}

} // verus!
