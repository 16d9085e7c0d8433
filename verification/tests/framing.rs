use rusoto_logs_writer::sink::{frame_message, frame_write, timestamp};
use rusoto_logs_writer::{EVENT_OVERHEAD, MAX_BATCH_SIZE, MAX_MESSAGE_LEN};

#[test]
fn limits_are_consistent() {
    assert_eq!(MAX_MESSAGE_LEN + EVENT_OVERHEAD, MAX_BATCH_SIZE);
    assert_eq!(MAX_BATCH_SIZE, 1_048_576);
    assert_eq!(EVENT_OVERHEAD, 26);
}

#[test]
fn write_without_newline_is_framed_whole() {
    let f = frame_message(b"hello", 42).unwrap();
    assert_eq!(f.event.message, b"hello".to_vec());
    assert_eq!(f.event.timestamp, 42);
    assert_eq!(f.count, 5);
    assert!(!f.truncated);
}

#[test]
fn exactly_one_trailing_newline_is_stripped() {
    let f = frame_message(b"hello\n", 1).unwrap();
    assert_eq!(f.event.message, b"hello".to_vec());
    assert_eq!(f.count, 6);

    let f = frame_message(b"hello\n\n", 1).unwrap();
    assert_eq!(f.event.message, b"hello\n".to_vec());
    assert_eq!(f.count, 7);
}

#[test]
fn empty_write_is_framed_empty() {
    let f = frame_message(b"", 5).unwrap();
    assert_eq!(f.event.message, Vec::<u8>::new());
    assert_eq!(f.count, 0);
    assert!(!f.truncated);

    let f = frame_message(b"\n", 5).unwrap();
    assert_eq!(f.event.message, Vec::<u8>::new());
    assert_eq!(f.count, 1);
}

#[test]
fn invalid_utf8_is_rejected() {
    assert!(frame_message(&[0xff, 0xfe, 0xfd], 0).is_err());
    assert!(frame_message(&[b'a', 0x80], 0).is_err());
}

#[test]
fn oversized_body_is_truncated_to_exact_limit() {
    let buf = vec![b'a'; MAX_MESSAGE_LEN + 1];
    let f = frame_message(&buf, 9).unwrap();
    assert_eq!(f.event.message.len(), MAX_MESSAGE_LEN);
    assert!(f.truncated);
    assert_eq!(f.count, MAX_MESSAGE_LEN + 1);
}

#[test]
fn body_at_the_limit_is_not_truncated() {
    let mut buf = vec![b'a'; MAX_MESSAGE_LEN];
    let f = frame_message(&buf, 9).unwrap();
    assert_eq!(f.event.message.len(), MAX_MESSAGE_LEN);
    assert!(!f.truncated);

    buf.push(b'\n');
    let f = frame_message(&buf, 9).unwrap();
    assert_eq!(f.event.message.len(), MAX_MESSAGE_LEN);
    assert!(!f.truncated);
    assert_eq!(f.count, MAX_MESSAGE_LEN + 1);
}

#[test]
fn truncation_that_splits_a_character_fails_the_write() {
    let mut buf = vec![b'a'; MAX_MESSAGE_LEN - 1];
    buf.push(0xc3);
    buf.push(0xa9);
    assert_eq!(buf.len(), MAX_MESSAGE_LEN + 1);
    assert!(frame_message(&buf, 0).is_err());
}

#[test]
fn frame_write_stamps_the_capture_time() {
    let before = timestamp();
    let f = frame_write(b"hello\n").unwrap();
    let after = timestamp();
    assert_eq!(f.event.message, b"hello".to_vec());
    assert!(f.event.timestamp >= before);
    assert!(f.event.timestamp <= after);
    assert!(after - before < 1000);
}
