//! Severity levels and their filtering rank.

use vstd::prelude::*;
use vstd::string::StringExecFns;

verus! {

/// Severity of a log message. `Info` and `Success` share the same filtering
/// rank: `Success` is rendered differently but is neither more nor less
/// severe than `Info`.
#[derive(Clone, Copy, Debug, PartialEq, Eq, Structural)]
pub enum Level {
    Debug,
    Info,
    Warn,
    Error,
    Success,
}

impl Level {
    /// Rank used for filtering: `Debug` < `Info` = `Success` < `Warn` < `Error`.
    pub open spec fn spec_priority(self) -> int {
        match self {
            Level::Error => 4,
            Level::Warn => 3,
            Level::Info => 2,
            Level::Debug => 1,
            Level::Success => 2,
        }
    }

    /// The level's name as it appears between brackets in a rendered line.
    pub open spec fn spec_label(self) -> Seq<char> {
        match self {
            Level::Debug => "Debug"@,
            Level::Info => "Info"@,
            Level::Warn => "Warn"@,
            Level::Error => "Error"@,
            Level::Success => "Success"@,
        }
    }

    /// The ANSI color code used when the level is rendered on a console.
    pub open spec fn spec_color(self) -> Seq<char> {
        match self {
            Level::Debug => "90"@,
            Level::Info => "34"@,
            Level::Warn => "33"@,
            Level::Error => "31"@,
            Level::Success => "32"@,
        }
    }

    /// The level's name, e.g. `"Warn"`.
    pub fn label(&self) -> (r: String)
        ensures
            r@ == self.spec_label(),
    {
        match self {
            Level::Debug => String::from_str("Debug"),
            Level::Info => String::from_str("Info"),
            Level::Warn => String::from_str("Warn"),
            Level::Error => String::from_str("Error"),
            Level::Success => String::from_str("Success"),
        }
    }

    /// The ANSI color code for the level: gray for `Debug`, blue for `Info`,
    /// yellow for `Warn`, red for `Error`, green for `Success`.
    pub fn ansi_color(&self) -> (r: String)
        ensures
            r@ == self.spec_color(),
    {
        match self {
            Level::Debug => String::from_str("90"),
            Level::Info => String::from_str("34"),
            Level::Warn => String::from_str("33"),
            Level::Error => String::from_str("31"),
            Level::Success => String::from_str("32"),
        }
    }
}

/// Rank of a level for filtering; a message passes a configured filter when
/// its level's rank is at least the filter's rank.
pub fn level_priority(level: &Level) -> (p: usize)
    ensures
        p as int == level.spec_priority(),
{
    match level {
        Level::Error => 4,
        Level::Warn => 3,
        Level::Info => 2,
        Level::Debug => 1,
        Level::Success => 2,
    }
}

} // verus!
