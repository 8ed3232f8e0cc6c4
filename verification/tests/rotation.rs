//! The size-based rotation policy of a single sink.

use postium_log::sink::{segment_file_name, Sink};
use postium_log::MAX_FILE_SIZE_BYTES;

#[test]
fn writes_within_limit_append_in_order() {
    let mut sink = Sink::new(10);
    assert!(!sink.write(b"abc".to_vec()));
    assert!(!sink.write(b"defg".to_vec()));
    assert_eq!(sink.current, vec![b"abc".to_vec(), b"defg".to_vec()]);
    assert!(sink.rotated.is_empty());
    assert_eq!(sink.current_size, 7);
}

#[test]
fn write_that_exactly_fills_the_file_does_not_rotate() {
    let mut sink = Sink::new(10);
    assert!(!sink.write(b"abcdef".to_vec()));
    assert!(!sink.write(b"ghij".to_vec()));
    assert!(sink.rotated.is_empty());
    assert_eq!(sink.current_size, 10);
}

#[test]
fn write_past_the_limit_rotates_first() {
    let mut sink = Sink::new(10);
    assert!(!sink.write(b"abcdef".to_vec()));
    assert!(sink.write(b"ghijk".to_vec()));
    // The old file persists unmodified under its rotated slot; the new
    // current file holds only the overflow record.
    assert_eq!(sink.rotated, vec![vec![b"abcdef".to_vec()]]);
    assert_eq!(sink.current, vec![b"ghijk".to_vec()]);
    assert_eq!(sink.current_size, 5);
}

#[test]
fn rotated_file_is_never_written_to_again() {
    let mut sink = Sink::new(5);
    sink.write(b"aaa".to_vec());
    sink.write(b"bbb".to_vec());
    let first_segment = sink.rotated[0].clone();
    sink.write(b"cc".to_vec());
    sink.write(b"dddd".to_vec());
    assert_eq!(sink.rotated[0], first_segment);
    assert_eq!(sink.rotated.len(), 2);
    assert_eq!(sink.rotated[1], vec![b"bbb".to_vec(), b"cc".to_vec()]);
}

#[test]
fn no_record_is_split_across_files() {
    let mut sink = Sink::new(8);
    let records: Vec<Vec<u8>> = vec![
        b"11111".to_vec(),
        b"222".to_vec(),
        b"33333333".to_vec(),
        b"4".to_vec(),
    ];
    for r in &records {
        sink.write(r.clone());
    }
    // Reading back every file yields only whole records, in emission order.
    let mut read_back: Vec<Vec<u8>> = Vec::new();
    for file in &sink.rotated {
        for r in file {
            read_back.push(r.clone());
        }
    }
    for r in &sink.current {
        read_back.push(r.clone());
    }
    assert_eq!(read_back, records);
}

#[test]
fn one_byte_past_ten_megabytes_rotates_exactly_once() {
    let mut sink = Sink::new(MAX_FILE_SIZE_BYTES);
    let chunk = vec![97u8; 1_000_000];
    for _ in 0..10 {
        assert!(!sink.write(chunk.clone()));
    }
    assert_eq!(sink.current_size, 10_000_000);
    assert!(sink.rotated.is_empty());
    // The 10,000,001st byte forces the single rotation.
    assert!(sink.write(b"x".to_vec()));
    assert_eq!(sink.rotated.len(), 1);
    // The rotated segment holds everything written before the overflow
    // record; the new current file holds only the overflow record.
    assert_eq!(sink.rotated[0].len(), 10);
    for r in &sink.rotated[0] {
        assert_eq!(r, &chunk);
    }
    assert_eq!(sink.current, vec![b"x".to_vec()]);
    assert_eq!(sink.current_size, 1);
}

#[test]
fn rotated_segment_names_are_deterministic() {
    assert_eq!(segment_file_name(&b"backend".to_vec(), 1), b"backend.1.log".to_vec());
    assert_eq!(segment_file_name(&b"frontend".to_vec(), 42), b"frontend.42.log".to_vec());
    assert_eq!(segment_file_name(&b"backend".to_vec(), 0), b"backend.0.log".to_vec());
    assert_eq!(
        segment_file_name(&b"b".to_vec(), 1_234_567_890),
        b"b.1234567890.log".to_vec()
    );
}
