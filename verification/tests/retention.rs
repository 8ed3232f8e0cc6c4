//! The cleanup scan: retention window, extension marker, skipped entries,
//! and idempotence; and the scheduler around it.

use postium_log::cleanup::{plan_cleanup, should_delete, survivors_of, ScanEntry};
use postium_log::sink::segment_file_name;
use postium_log::scheduler::{
    scheduler_step, LogError, SchedAction, SchedEvent, SchedState,
};
use postium_log::{MAX_FILE_SIZE_BYTES, MAX_LOG_AGE_SECS, SCAN_INTERVAL_SECS};

const DAY: u64 = 24 * 60 * 60;

fn entry(name: &str, age_secs: Option<u64>) -> ScanEntry {
    ScanEntry { name: name.as_bytes().to_vec(), age_secs }
}

#[test]
fn configured_constants() {
    assert_eq!(MAX_FILE_SIZE_BYTES, 10_000_000);
    assert_eq!(MAX_LOG_AGE_SECS, 30 * DAY);
    assert_eq!(SCAN_INTERVAL_SECS, DAY);
}

#[test]
fn thirty_one_day_old_log_deleted_twenty_nine_day_old_kept() {
    let entries = vec![
        entry("backend.log", Some(31 * DAY)),
        entry("frontend.log", Some(29 * DAY)),
    ];
    let plan = plan_cleanup(&entries, MAX_LOG_AGE_SECS);
    assert_eq!(plan, vec![0]);
    let kept = survivors_of(&entries, MAX_LOG_AGE_SECS);
    assert_eq!(kept, vec![entry("frontend.log", Some(29 * DAY))]);
}

#[test]
fn retention_window_is_strict() {
    // Exactly thirty days old is not yet past the window.
    assert!(!should_delete(&entry("a.log", Some(MAX_LOG_AGE_SECS)), MAX_LOG_AGE_SECS));
    assert!(should_delete(&entry("a.log", Some(MAX_LOG_AGE_SECS + 1)), MAX_LOG_AGE_SECS));
}

#[test]
fn only_log_extension_is_deleted() {
    let entries = vec![
        entry("notes.txt", Some(90 * DAY)),
        entry("backend.log.bak", Some(90 * DAY)),
        entry("log", Some(90 * DAY)),
        entry("old.log", Some(90 * DAY)),
    ];
    let plan = plan_cleanup(&entries, MAX_LOG_AGE_SECS);
    assert_eq!(plan, vec![3]);
}

#[test]
fn unreadable_metadata_is_skipped_not_deleted() {
    let entries = vec![
        entry("stale.log", None),
        entry("older.log", Some(40 * DAY)),
    ];
    // The unreadable entry is skipped; the scan still handles the rest.
    let plan = plan_cleanup(&entries, MAX_LOG_AGE_SECS);
    assert_eq!(plan, vec![1]);
}

#[test]
fn plan_lists_expired_indices_in_order() {
    let entries = vec![
        entry("a.log", Some(31 * DAY)),
        entry("b.log", Some(1 * DAY)),
        entry("c.log", Some(45 * DAY)),
        entry("d.txt", Some(45 * DAY)),
        entry("e.log", Some(100 * DAY)),
    ];
    let plan = plan_cleanup(&entries, MAX_LOG_AGE_SECS);
    assert_eq!(plan, vec![0, 2, 4]);
}

#[test]
fn second_cycle_with_no_new_files_is_a_no_op() {
    let entries = vec![
        entry("a.log", Some(31 * DAY)),
        entry("b.log", Some(29 * DAY)),
        entry("c.txt", Some(60 * DAY)),
        entry("d.log", None),
    ];
    let after_first = survivors_of(&entries, MAX_LOG_AGE_SECS);
    let plan_again = plan_cleanup(&after_first, MAX_LOG_AGE_SECS);
    assert!(plan_again.is_empty());
    let after_second = survivors_of(&after_first, MAX_LOG_AGE_SECS);
    assert_eq!(after_second, after_first);
}

#[test]
fn idle_scheduler_wakes_into_a_scan() {
    let (state, action) = scheduler_step(SchedState::Idle, SchedEvent::IntervalElapsed);
    assert_eq!(state, SchedState::Scanning);
    assert_eq!(action, SchedAction::Scan);
}

#[test]
fn finished_scan_sleeps_a_full_interval() {
    let (state, action) = scheduler_step(SchedState::Scanning, SchedEvent::ScanCompleted);
    assert_eq!(state, SchedState::Idle);
    assert_eq!(action, SchedAction::Sleep(SCAN_INTERVAL_SECS));
}

#[test]
fn failed_scan_is_nonfatal_and_retried_next_interval() {
    for err in [
        LogError::DirectoryUnavailable,
        LogError::FileMetadataUnreadable,
        LogError::FileDeleteFailed,
        LogError::SinkWriteFailed,
    ] {
        let (state, action) = scheduler_step(SchedState::Scanning, SchedEvent::ScanFailed(err));
        assert_eq!(state, SchedState::Idle);
        assert_eq!(action, SchedAction::Sleep(SCAN_INTERVAL_SECS));
    }
}

#[test]
fn aged_rotated_segment_is_a_cleanup_candidate() {
    let name = segment_file_name(&b"backend".to_vec(), 7);
    let aged = ScanEntry { name, age_secs: Some(31 * DAY) };
    assert!(should_delete(&aged, MAX_LOG_AGE_SECS));
    let fresh = ScanEntry {
        name: segment_file_name(&b"backend".to_vec(), 8),
        age_secs: Some(1 * DAY),
    };
    assert!(!should_delete(&fresh, MAX_LOG_AGE_SECS));
}
