//! Behaviour of the per-file cursor: holdback, flushing, replay.

use tailers::cursor::TailTarget;
use tailers::lines::split_lines;

#[test]
fn open_starts_at_end_of_file() {
    let target = TailTarget::new(String::from("/var/log/app.log"), 42);
    assert_eq!(target.start, 42);
    assert_eq!(target.cursor, 42);
    assert_eq!(target.partial.len(), 0);
}

#[test]
fn partial_line_is_held_back() {
    let mut target = TailTarget::new(String::from("/var/log/app.log"), 0);
    let lines = target.drain(&b"abc".to_vec());
    assert_eq!(lines.len(), 0);
    let lines = target.drain(&b"def\n".to_vec());
    assert_eq!(lines, vec![b"abcdef".to_vec()]);
}

#[test]
fn multi_line_write_flushes_each_line_in_order() {
    let mut target = TailTarget::new(String::from("/var/log/app.log"), 0);
    let lines = target.drain(&b"a\nb\nc\n".to_vec());
    assert_eq!(lines, vec![b"a".to_vec(), b"b".to_vec(), b"c".to_vec()]);
}

#[test]
fn historical_content_is_never_emitted() {
    // The file held "old1\nold2\n" (ten bytes) before tailing began: the
    // cursor starts past it, and only the appended bytes are ever drained.
    let mut target = TailTarget::new(String::from("/var/log/app.log"), 10);
    let lines = target.drain(&b"new1\n".to_vec());
    assert_eq!(lines, vec![b"new1".to_vec()]);
    assert_eq!(target.cursor, 15);
}

#[test]
fn drain_with_no_new_bytes_emits_nothing_and_moves_nothing() {
    let mut target = TailTarget::new(String::from("/var/log/app.log"), 7);
    let lines = target.drain(&Vec::new());
    assert_eq!(lines.len(), 0);
    assert_eq!(target.cursor, 7);
    let lines = target.drain(&Vec::new());
    assert_eq!(lines.len(), 0);
    assert_eq!(target.cursor, 7);
}

#[test]
fn cursor_advances_past_exactly_the_bytes_drained() {
    let mut target = TailTarget::new(String::from("/var/log/app.log"), 0);
    target.drain(&b"ab\ncd".to_vec());
    assert_eq!(target.cursor, 5);
    target.drain(&b"\n".to_vec());
    assert_eq!(target.cursor, 6);
}

#[test]
fn batching_does_not_change_what_is_emitted() {
    // One drain of the whole write and two drains of its halves emit the
    // same lines.
    let mut whole = TailTarget::new(String::from("/var/log/app.log"), 0);
    let all = whole.drain(&b"one\ntwo\nthr".to_vec());

    let mut split = TailTarget::new(String::from("/var/log/app.log"), 0);
    let mut first = split.drain(&b"one\ntw".to_vec());
    let second = split.drain(&b"o\nthr".to_vec());
    first.extend(second);

    assert_eq!(all, first);
    assert_eq!(whole.cursor, split.cursor);
    assert_eq!(whole.partial, split.partial);
}

#[test]
fn empty_line_is_a_line() {
    let mut target = TailTarget::new(String::from("/var/log/app.log"), 0);
    let lines = target.drain(&b"\n\n".to_vec());
    assert_eq!(lines, vec![b"".to_vec(), b"".to_vec()]);
}

#[test]
fn only_line_feed_terminates_a_line() {
    let mut target = TailTarget::new(String::from("/var/log/app.log"), 0);
    let lines = target.drain(&b"a\r\n".to_vec());
    assert_eq!(lines, vec![b"a\r".to_vec()]);
}

#[test]
fn split_lines_carries_the_partial_buffer() {
    let mut partial = b"he".to_vec();
    let lines = split_lines(&mut partial, &b"llo\nwor".to_vec());
    assert_eq!(lines, vec![b"hello".to_vec()]);
    assert_eq!(partial, b"wor".to_vec());
}
