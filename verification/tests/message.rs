use zmq::error::EncodingError;
use zmq::message::Message;
use zmq::poll::{PollEvents, POLLALL, POLLERR, POLLIN, POLLOUT};

#[test]
fn message_holds_the_bytes_it_was_made_from() {
    let m = Message::from_bytes(vec![1, 2, 3]);
    assert_eq!(m.len(), 3);
    assert!(!m.is_empty());
    assert_eq!(m.as_bytes(), &[1, 2, 3]);
    assert_eq!(m.into_bytes(), vec![1, 2, 3]);

    let m = Message::from_slice(b"abc");
    assert_eq!(m.as_bytes(), b"abc");
    assert_eq!(m, Message::from_bytes(b"abc".to_vec()));
}

#[test]
fn new_message_is_empty() {
    let m = Message::new();
    assert_eq!(m.len(), 0);
    assert!(m.is_empty());
    assert_eq!(m.as_bytes(), b"");
    assert_eq!(m.as_str(), Ok(""));
}

#[test]
fn message_from_a_buffer_takes_the_buffer_over() {
    let buffer = vec![5u8; 64];
    let storage = buffer.as_ptr() as usize;
    let m = Message::from_bytes(buffer);
    assert_eq!(m.as_bytes().as_ptr() as usize, storage);
    let back = m.into_bytes();
    assert_eq!(back.as_ptr() as usize, storage);
}

#[test]
fn message_reads_as_text_when_it_is_utf8() {
    let m = Message::from_slice("h\u{e9}llo w\u{f6}rld".as_bytes());
    assert_eq!(m.as_str(), Ok("h\u{e9}llo w\u{f6}rld"));
    assert_eq!(m.into_string(), Ok("h\u{e9}llo w\u{f6}rld".to_string()));
}

#[test]
fn message_that_is_no_utf8_keeps_its_bytes() {
    let bytes = vec![b'a', 0xff, 0xc0, b'z'];
    let m = Message::from_bytes(bytes.clone());
    assert_eq!(m.as_str(), Err(EncodingError { raw_bytes: bytes.clone() }));
    assert_eq!(m.as_bytes(), &bytes[..]);
    assert_eq!(m.into_string(), Err(EncodingError { raw_bytes: bytes }));

    let cut = Message::from_bytes(vec![0xe2, 0x82]);
    assert_eq!(cut.as_str(), Err(EncodingError { raw_bytes: vec![0xe2, 0x82] }));
    let surrogate = Message::from_bytes(vec![0xed, 0xa0, 0x80]);
    assert!(surrogate.as_str().is_err());
}

#[test]
fn poll_events_hold_only_the_three_events() {
    assert_eq!(PollEvents::empty().bits(), 0);
    assert!(PollEvents::empty().is_empty());
    assert_eq!(PollEvents::all().bits(), 7);
    assert_eq!(POLLALL, POLLIN | POLLOUT | POLLERR);
    assert_eq!(PollEvents::from_bits_truncate(0x7fff).bits(), 7);
    assert_eq!(PollEvents::from_bits_truncate(-1).bits(), 7);
    assert_eq!(PollEvents::from_bits_truncate(8).bits(), 0);
    assert_eq!(PollEvents::from_bits_truncate(5).bits(), 5);
    assert_eq!(PollEvents::from_bits(5).map(|p| p.bits()), Some(5));
    assert_eq!(PollEvents::from_bits(0).map(|p| p.bits()), Some(0));
    assert_eq!(PollEvents::from_bits(8), None);
    assert_eq!(PollEvents::from_bits(-1), None);
}

#[test]
fn poll_events_contain_their_parts() {
    let both = PollEvents::from_bits_truncate(POLLIN | POLLOUT);
    let readable = PollEvents::from_bits_truncate(POLLIN);
    let failed = PollEvents::from_bits_truncate(POLLERR);
    assert!(both.contains(readable));
    assert!(both.contains(both));
    assert!(both.contains(PollEvents::empty()));
    assert!(!both.contains(failed));
    assert!(!readable.contains(both));
    assert!(PollEvents::all().contains(failed));
}

#[test]
fn poll_events_unite() {
    let readable = PollEvents::from_bits_truncate(POLLIN);
    let writable = PollEvents::from_bits_truncate(POLLOUT);
    let both = readable.union(writable);
    assert_eq!(both.bits(), POLLIN | POLLOUT);
    assert!(both.is_readable() && both.is_writable() && !both.is_error());
    assert_eq!(both.union(both), both);
    assert_eq!(both.union(PollEvents::empty()), both);
    assert_eq!(PollEvents::empty().union(PollEvents::from_bits_truncate(POLLERR)).bits(), POLLERR);
    assert_eq!(both.union(PollEvents::from_bits_truncate(POLLERR)), PollEvents::all());
}

#[test]
fn poll_events_answer_for_each_event() {
    let cases = [
        (0, false, false, false),
        (POLLIN, true, false, false),
        (POLLOUT, false, true, false),
        (POLLERR, false, false, true),
        (POLLIN | POLLERR, true, false, true),
        (POLLALL, true, true, true),
    ];
    for (bits, readable, writable, failed) in cases {
        let events = PollEvents::from_bits_truncate(bits);
        assert_eq!(events.is_readable(), readable);
        assert_eq!(events.is_writable(), writable);
        assert_eq!(events.is_error(), failed);
    }
}
