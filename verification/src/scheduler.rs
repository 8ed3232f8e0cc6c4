//! The cleanup scheduler's state machine and the subsystem's error
//! taxonomy.
//!
//! The scheduler alternates between idle sleep and one scan of the log
//! directory, forever; it has no terminal state. Every failure a cycle can
//! meet is non-fatal: the scheduler goes back to sleep for a full interval
//! and tries again. The loop that sleeps, lists the directory, and deletes
//! files runs outside the library and asks this step function for each
//! next move.

use vstd::prelude::*;
use crate::SCAN_INTERVAL_SECS;

verus! {

/// Everything that can go wrong in the subsystem. Every kind is non-fatal:
/// it is recovered where it happens and never propagates to a producer or
/// crashes the process.
#[derive(Clone, Copy, PartialEq, Eq, Structural, Debug)]
pub enum LogError {
    DirectoryUnavailable,
    FileMetadataUnreadable,
    FileDeleteFailed,
    SinkWriteFailed,
}

/// The scheduler is either sleeping between cycles or running one scan.
#[derive(Clone, Copy, PartialEq, Eq, Structural, Debug)]
pub enum SchedState {
    Idle,
    Scanning,
}

/// What the outside loop reports back: the sleep interval elapsed, a scan
/// finished, or a scan failed (for instance, the log directory could not
/// be read).
#[derive(Clone, Copy, PartialEq, Eq, Structural, Debug)]
pub enum SchedEvent {
    IntervalElapsed,
    ScanCompleted,
    ScanFailed(LogError),
}

/// What the outside loop must do next: sleep this many seconds, or list
/// the log directory and run one cleanup scan.
#[derive(Clone, Copy, PartialEq, Eq, Structural, Debug)]
pub enum SchedAction {
    Sleep(u64),
    Scan,
}

/// The transition relation: an elapsed interval starts a scan; any end of
/// a scan, successful or failed, returns to idle for a full interval. An
/// event that does not fit the state leaves the scheduler idle rather than
/// stopping it. There is no terminal state.
pub open spec fn spec_step(s: SchedState, e: SchedEvent) -> (SchedState, SchedAction) {
    match (s, e) {
        (SchedState::Idle, SchedEvent::IntervalElapsed) => (
            SchedState::Scanning,
            SchedAction::Scan,
        ),
        _ => (SchedState::Idle, SchedAction::Sleep(SCAN_INTERVAL_SECS)),
    }
}

/// One step of the scheduler.
pub fn scheduler_step(state: SchedState, event: SchedEvent) -> (r: (SchedState, SchedAction))
    ensures
        r == spec_step(state, event),
        r.1 is Scan <==> state is Idle && event is IntervalElapsed,
{
    match (state, event) {
        (SchedState::Idle, SchedEvent::IntervalElapsed) => (
            SchedState::Scanning,
            SchedAction::Scan,
        ),
        _ => (SchedState::Idle, SchedAction::Sleep(SCAN_INTERVAL_SECS)),
    }
}

/// Failure handling of one cycle: from the scanning state, a failed scan
/// — whatever the error — leads to exactly the same successor as a
/// completed one: back to idle, asleep for a full interval. No error ends
/// the loop.
pub proof fn lemma_scan_failure_nonfatal(e1: SchedEvent, e2: SchedEvent)
    ensures
        spec_step(SchedState::Scanning, e1) == spec_step(SchedState::Scanning, e2),
        spec_step(SchedState::Scanning, e1).1 == SchedAction::Sleep(SCAN_INTERVAL_SECS),
{
}

} // verus!
