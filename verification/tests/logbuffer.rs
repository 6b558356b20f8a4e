use wire::logbuffer::LogBuffer;

#[test]
fn test_split_line_processing() {
    let mut log_buffer = LogBuffer::new();

    log_buffer.process_slice(b"Writing key KeySpec { destination: \"/et");
    log_buffer.process_slice(b"c/keys/buildbot.aws.key\", user: \"buildbot\", group: \"buildbot-worker\", permissions: 384, length: 32, last: false, crc: 1370815231 }, 32 bytes of data");
    log_buffer.process_slice(b"\n");
    log_buffer.process_slice(b"xxx");
    log_buffer.process_slice(b"xx_WIRE");
    log_buffer.process_slice(b"_QUIT\n");
    let lines = log_buffer.take_lines();
    assert_eq!(lines.len(), 2);
    assert_eq!(
        String::from_utf8_lossy(lines.first().unwrap()),
        "Writing key KeySpec { destination: \"/etc/keys/buildbot.aws.key\", user: \"buildbot\", group: \"buildbot-worker\", permissions: 384, length: 32, last: false, crc: 1370815231 }, 32 bytes of data"
    );
    assert_eq!(lines.get(1), Some(&"xxxxx_WIRE_QUIT".as_bytes().to_vec()));

    // taking leaves none
    assert_eq!(log_buffer.take_lines().len(), 0);
}

#[test]
fn next_line_waits_for_a_newline() {
    let mut log_buffer = LogBuffer::new();
    log_buffer.process_slice(b"partial");
    assert_eq!(log_buffer.next_line(), None);
    log_buffer.process_slice(b" line\nrest");
    assert_eq!(log_buffer.next_line(), Some(b"partial line".to_vec()));
    assert_eq!(log_buffer.next_line(), None);
    log_buffer.process_slice(b"\n");
    assert_eq!(log_buffer.next_line(), Some(b"rest".to_vec()));
}

#[test]
fn empty_lines_are_lines() {
    let mut log_buffer = LogBuffer::new();
    log_buffer.process_slice(b"\n\na\n");
    let lines = log_buffer.take_lines();
    assert_eq!(lines, vec![Vec::new(), Vec::new(), b"a".to_vec()]);
}

#[test]
fn lines_do_not_depend_on_slicing() {
    let data = b"one\ntwo\nthree\nfour";
    let mut whole = LogBuffer::new();
    whole.process_slice(data);
    let mut bytewise = LogBuffer::new();
    for b in data.iter() {
        bytewise.process_slice(&[*b]);
    }
    let a = whole.take_lines();
    let b = bytewise.take_lines();
    assert_eq!(a, b);
    assert_eq!(a, vec![b"one".to_vec(), b"two".to_vec(), b"three".to_vec()]);
    whole.process_slice(b"\n");
    assert_eq!(whole.take_lines(), vec![b"four".to_vec()]);
}
