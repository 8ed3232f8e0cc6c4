//! Verified core of a process-wide logging pipeline: a classifier that routes
//! each record to a backend or frontend sink, a size-based rotation policy for
//! each sink's file, and an age-based cleanup policy with its scheduler.
//! Records and file names are modelled as byte sequences; the file-system and
//! thread plumbing around the library stays outside it.

#![allow(unused_imports)]

pub mod classify;
pub mod cleanup;
pub mod level;
pub mod pipeline;
pub mod scheduler;
pub mod sink;

use vstd::prelude::*;

verus! {

/// A sink's current file is rotated when appending a record would push it
/// past this many bytes.
pub const MAX_FILE_SIZE_BYTES: usize = 10_000_000;

/// A log file whose last modification lies further in the past than this
/// many seconds is deleted by a cleanup scan.
pub const MAX_LOG_AGE_SECS: u64 = 30 * 24 * 60 * 60;

/// Seconds the cleanup scheduler sleeps between two scans.
pub const SCAN_INTERVAL_SECS: u64 = 24 * 60 * 60;

pub(crate) fn copy_bytes(r: &Vec<u8>) -> (c: Vec<u8>)
    ensures
        c@ == r@,
{
    let mut c: Vec<u8> = Vec::new();
    let mut i: usize = 0;
    while i < r.len()
        invariant
            0 <= i <= r.len(),
            c@ =~= r@.take(i as int),
        decreases r.len() - i,
    {
        c.push(r[i]);
        i += 1;
        proof {
            assert(r@.take(i as int) =~= r@.take(i - 1).push(r@[i - 1]));
        }
    }
    proof {
        assert(c@ =~= r@);
    }
    c
}

} // verus!
