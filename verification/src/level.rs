//! Record severities and the global minimum-level floor that every record
//! must clear before any sink is considered.

use vstd::prelude::*;

verus! {

/// Severity of a log record, from most to least urgent.
#[derive(Clone, Copy, PartialEq, Eq, Structural, Debug)]
pub enum Level {
    Error,
    Warn,
    Info,
    Debug,
    Trace,
}

/// Numeric rank of a level: a lower rank is more urgent.
pub open spec fn severity(l: Level) -> int {
    match l {
        Level::Error => 1,
        Level::Warn => 2,
        Level::Info => 3,
        Level::Debug => 4,
        Level::Trace => 5,
    }
}

/// The floor rule: a record at level `l` passes when it is at least as
/// urgent as the configured minimum `min`.
pub open spec fn passes_floor(min: Level, l: Level) -> bool {
    severity(l) <= severity(min)
}

fn severity_rank(l: Level) -> (r: u8)
    ensures
        r as int == severity(l),
{
    match l {
        Level::Error => 1,
        Level::Warn => 2,
        Level::Info => 3,
        Level::Debug => 4,
        Level::Trace => 5,
    }
}

/// Whether a record at level `l` clears the configured minimum level `min`.
pub fn level_passes(min: Level, l: Level) -> (r: bool)
    ensures
        r == passes_floor(min, l),
{
    severity_rank(l) <= severity_rank(min)
}

} // verus!
