use rclip::codec::DecodeError;
use rclip::frame::describe_read_failure;
use rclip::frame::without_padding;
use rclip::frame::FrameReader;
use rclip::frame::FrameStatus;
use rclip::frame::BUFFER_CAP;

fn buffer_with(bytes: &[u8]) -> Vec<u8> {
    let mut buffer = vec![0u8; BUFFER_CAP];
    buffer[..bytes.len()].copy_from_slice(bytes);
    buffer
}

fn message(len: usize) -> Vec<u8> {
    (0..len).map(|i| b'a' + (i % 26) as u8).collect()
}

fn deliver(reader: &mut FrameReader, bytes: &[u8]) -> Vec<FrameStatus> {
    let mut statuses = Vec::new();
    let mut rest = bytes;
    loop {
        let count = rest.len().min(BUFFER_CAP);
        statuses.push(reader.accept(&buffer_with(&rest[..count]), count));
        rest = &rest[count..];
        if count < BUFFER_CAP {
            return statuses;
        }
    }
}

#[test]
fn the_buffer_holds_512_bytes() {
    assert_eq!(BUFFER_CAP, 512);
}

#[test]
fn a_new_reader_has_nothing_and_is_open() {
    let reader = FrameReader::new();
    assert!(!reader.is_complete());
    assert_eq!(reader.received(), b"");
    assert_eq!(reader.text(), Ok(String::new()));
}

#[test]
fn a_short_read_ends_the_frame() {
    let mut reader = FrameReader::new();
    assert_eq!(reader.accept(&buffer_with(b"READ:"), 5), FrameStatus::Complete);
    assert!(reader.is_complete());
    assert_eq!(reader.received(), b"READ:");
    assert_eq!(reader.text(), Ok("READ:".to_string()));
}

#[test]
fn the_padding_of_the_buffer_is_left_out() {
    let mut reader = FrameReader::new();
    let mut buffer = vec![b'x'; BUFFER_CAP];
    buffer[..3].copy_from_slice(b"abc");
    assert_eq!(reader.accept(&buffer, 3), FrameStatus::Complete);
    assert_eq!(reader.received(), b"abc");
}

#[test]
fn a_zero_byte_in_the_message_is_kept() {
    let mut reader = FrameReader::new();
    assert_eq!(reader.accept(&buffer_with(b"a\0b"), 3), FrameStatus::Complete);
    assert_eq!(reader.received(), b"a\0b");
}

#[test]
fn an_empty_read_ends_the_frame() {
    let mut reader = FrameReader::new();
    assert_eq!(reader.accept(&buffer_with(b""), 0), FrameStatus::Complete);
    assert_eq!(reader.received(), b"");
}

#[test]
fn a_full_buffer_leaves_the_frame_open() {
    let mut reader = FrameReader::new();
    let bytes = message(BUFFER_CAP);
    assert_eq!(reader.accept(&bytes, BUFFER_CAP), FrameStatus::Incomplete);
    assert!(!reader.is_complete());
    assert_eq!(reader.received(), &bytes[..]);
}

#[test]
fn one_byte_less_than_a_full_buffer_ends_the_frame() {
    let mut reader = FrameReader::new();
    let bytes = message(BUFFER_CAP - 1);
    assert_eq!(reader.accept(&buffer_with(&bytes), BUFFER_CAP - 1), FrameStatus::Complete);
    assert_eq!(reader.received(), &bytes[..]);
}

#[test]
fn a_long_message_is_put_together_from_its_chunks() {
    let mut reader = FrameReader::new();
    let bytes = message(2 * BUFFER_CAP + 100);
    assert_eq!(
        deliver(&mut reader, &bytes),
        vec![FrameStatus::Incomplete, FrameStatus::Incomplete, FrameStatus::Complete]
    );
    assert_eq!(reader.received(), &bytes[..]);
}

#[test]
fn a_message_of_a_multiple_of_the_capacity_ends_with_an_empty_read() {
    for chunks in 1..4 {
        let mut reader = FrameReader::new();
        let bytes = message(chunks * BUFFER_CAP);
        let statuses = deliver(&mut reader, &bytes);
        assert_eq!(statuses.len(), chunks + 1);
        assert!(statuses[..chunks].iter().all(|status| *status == FrameStatus::Incomplete));
        assert_eq!(statuses[chunks], FrameStatus::Complete);
        assert_eq!(reader.received(), &bytes[..]);
    }
}

#[test]
fn a_message_of_a_multiple_of_the_capacity_runs_into_what_follows() {
    let mut reader = FrameReader::new();
    let bytes = message(BUFFER_CAP);
    assert_eq!(reader.accept(&bytes, BUFFER_CAP), FrameStatus::Incomplete);
    assert_eq!(reader.accept(&buffer_with(b"next"), 4), FrameStatus::Complete);
    let mut expected = bytes.clone();
    expected.extend_from_slice(b"next");
    assert_eq!(reader.received(), &expected[..]);
}

#[test]
fn a_complete_reader_takes_no_more() {
    let mut reader = FrameReader::new();
    assert_eq!(reader.accept(&buffer_with(b"READ:"), 5), FrameStatus::Complete);
    assert_eq!(reader.accept(&buffer_with(b"more"), 4), FrameStatus::Complete);
    assert_eq!(reader.accept(&message(BUFFER_CAP), BUFFER_CAP), FrameStatus::Complete);
    assert_eq!(reader.received(), b"READ:");
}

#[test]
fn a_count_beyond_the_buffer_takes_the_whole_buffer() {
    let mut reader = FrameReader::new();
    assert_eq!(reader.accept(b"abc", 7), FrameStatus::Complete);
    assert_eq!(reader.received(), b"abc");
    let mut reader = FrameReader::new();
    assert_eq!(reader.accept(b"abc", BUFFER_CAP), FrameStatus::Incomplete);
    assert_eq!(reader.received(), b"abc");
}

#[test]
fn bytes_that_are_not_utf8_are_malformed_text() {
    let mut reader = FrameReader::new();
    reader.accept(&buffer_with(b"WRITE:\xff"), 7);
    assert_eq!(reader.text(), Err(DecodeError::MalformedEncoding));
}

#[test]
fn a_character_split_between_two_reads_is_read_whole() {
    let text = "\u{e9}".repeat(BUFFER_CAP / 2 + 1);
    let mut bytes = vec![b'a'];
    bytes.extend_from_slice(text.as_bytes());
    let mut reader = FrameReader::new();
    let statuses = deliver(&mut reader, &bytes);
    assert_eq!(statuses, vec![FrameStatus::Incomplete, FrameStatus::Complete]);
    assert_eq!(reader.text(), Ok(format!("a{}", text)));
}

#[test]
fn a_failed_read_is_described_with_its_cause() {
    assert_eq!(
        describe_read_failure("connection reset"),
        "Failed to read from socket; err = connection reset"
    );
}

#[test]
fn padding_is_every_zero_byte_and_nothing_else() {
    assert_eq!(without_padding(b""), Vec::<u8>::new());
    assert_eq!(without_padding(b"\0"), Vec::<u8>::new());
    assert_eq!(without_padding(b"\0\0\0"), Vec::<u8>::new());
    assert_eq!(without_padding(b"SUCCESS:a\0\0b\0"), b"SUCCESS:ab".to_vec());
    assert_eq!(without_padding(b"\0a\0"), b"a".to_vec());
    assert_eq!(without_padding(b"abc"), b"abc".to_vec());
    assert_eq!(without_padding(&[1, 0, 255, 0, 1]), vec![1, 255, 1]);
    let mut padded = b"SUCCESS:text".to_vec();
    padded.resize(BUFFER_CAP, 0);
    assert_eq!(without_padding(&padded), b"SUCCESS:text".to_vec());
}
