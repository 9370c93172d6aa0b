use peer_handshake::channel::LineBuffer;

#[test]
fn channel_empty_buffer_has_no_line() {
    let mut b = LineBuffer::new();
    assert_eq!(b.len(), 0);
    assert_eq!(b.take_line(), None);
    assert_eq!(b.len(), 0);
}

#[test]
fn channel_round_trip_verbatim() {
    // A full message written by the peer arrives as bytes and is read back
    // as one line, verbatim, trailing newline included.
    let msg = b"arbitrary ASCII content: ~!@#$%^&*() 0123456789\n";
    let mut b = LineBuffer::new();
    b.push_chunk(msg);
    assert_eq!(b.take_line(), Some(msg.to_vec()));
    assert_eq!(b.len(), 0);
    assert_eq!(b.take_line(), None);
}

#[test]
fn channel_partial_line_waits_for_newline() {
    let mut b = LineBuffer::new();
    b.push_chunk(b"no newline yet");
    assert_eq!(b.take_line(), None);
    assert_eq!(b.len(), 14);
    b.push_chunk(b" - now\n");
    assert_eq!(b.take_line(), Some(b"no newline yet - now\n".to_vec()));
    assert_eq!(b.len(), 0);
}

#[test]
fn channel_two_lines_come_out_in_order() {
    let mut b = LineBuffer::new();
    b.push_chunk(b"first\nsecond\n");
    assert_eq!(b.take_line(), Some(b"first\n".to_vec()));
    assert_eq!(b.take_line(), Some(b"second\n".to_vec()));
    assert_eq!(b.take_line(), None);
}

#[test]
fn channel_line_of_only_newline() {
    let mut b = LineBuffer::new();
    b.push_chunk(b"\nrest");
    assert_eq!(b.take_line(), Some(b"\n".to_vec()));
    assert_eq!(b.take_line(), None);
    assert_eq!(b.len(), 4);
}

#[test]
fn channel_leftover_bytes_stay_buffered() {
    let mut b = LineBuffer::new();
    b.push_chunk(b"done\npart");
    assert_eq!(b.take_line(), Some(b"done\n".to_vec()));
    b.push_chunk(b"ial\n");
    assert_eq!(b.take_line(), Some(b"partial\n".to_vec()));
}

#[test]
fn channel_empty_chunk_changes_nothing() {
    let mut b = LineBuffer::new();
    b.push_chunk(b"abc");
    b.push_chunk(b"");
    assert_eq!(b.len(), 3);
    assert_eq!(b.take_line(), None);
}
