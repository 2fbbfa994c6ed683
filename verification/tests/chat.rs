use aerowan::chat::{
    reader_after_body, reader_after_header, ReaderStep,
    check_frame_length, encode_chat_frame, find_connection, frame_header, frame_length,
    receive_chat_body, ChatInbox, ChatMessage, FrameLength, MAX_CHAT_MESSAGE_LEN,
};

#[test]
fn header_is_big_endian() {
    assert_eq!(frame_header(5), [0, 0, 0, 5]);
    assert_eq!(frame_header(0x0102_0304), [1, 2, 3, 4]);
    assert_eq!(frame_header(65536), [0, 1, 0, 0]);
    assert_eq!(frame_length([0, 1, 0, 0]), 65536);
    assert_eq!(frame_length([0xff, 0xff, 0xff, 0xff]), 4294967295);
}

#[test]
fn frame_carries_length_and_utf8() {
    let f = encode_chat_frame("hi\u{e9}");
    assert_eq!(f, vec![0, 0, 0, 4, b'h', b'i', 0xc3, 0xa9]);
    assert_eq!(encode_chat_frame(""), vec![0, 0, 0, 0]);
}

#[test]
fn frame_roundtrip() {
    let text = "hello, \u{4e16}\u{754c}";
    let f = encode_chat_frame(text);
    let header = [f[0], f[1], f[2], f[3]];
    match check_frame_length(header) {
        FrameLength::Accepted(n) => {
            assert_eq!(n, f.len() - 4);
            let m = receive_chat_body("peer", f[4..].to_vec(), 7).expect("utf-8 body");
            assert_eq!(m.text, text);
            assert_eq!(m.from, "peer");
            assert_eq!(m.timestamp, 7);
        }
        FrameLength::Rejected(_) => panic!("valid frame rejected"),
    }
}

#[test]
fn empty_and_oversized_lengths_rejected() {
    assert!(matches!(check_frame_length([0, 0, 0, 0]), FrameLength::Rejected(0)));
    assert!(matches!(check_frame_length([0, 1, 0, 1]), FrameLength::Rejected(65537)));
    assert!(matches!(check_frame_length([0, 1, 0, 0]), FrameLength::Accepted(65536)));
    assert!(matches!(check_frame_length([0, 0, 0, 1]), FrameLength::Accepted(1)));
    assert_eq!(MAX_CHAT_MESSAGE_LEN, 64 * 1024);
}

#[test]
fn non_utf8_body_dropped() {
    assert!(receive_chat_body("p", vec![0xff, 0xfe], 1).is_none());
    assert!(receive_chat_body("p", vec![0xc3], 1).is_none());
}

#[test]
fn inbox_drains_in_order() {
    let mut inbox = ChatInbox::new();
    for (i, t) in ["a", "b", "c"].iter().enumerate() {
        inbox.push(ChatMessage { from: "p".to_string(), text: t.to_string(), timestamp: i as u64 });
    }
    assert_eq!(inbox.len(), 3);
    let out = inbox.drain();
    let texts: Vec<&str> = out.iter().map(|m| m.text.as_str()).collect();
    assert_eq!(texts, vec!["a", "b", "c"]);
    assert_eq!(inbox.len(), 0);
    assert!(inbox.drain().is_empty());
}

#[test]
fn connection_lookup() {
    let ids = vec!["aa".to_string(), "bb".to_string(), "bb".to_string()];
    assert_eq!(find_connection(&ids, "bb"), Ok(1));
    assert_eq!(find_connection(&ids, "aa"), Ok(0));
    assert_eq!(
        find_connection(&ids, "cc"),
        Err("no connection to peer cc".to_string())
    );
    assert_eq!(
        find_connection(&Vec::new(), "x"),
        Err("no connection to peer x".to_string())
    );
}

#[test]
fn reader_steps() {
    assert!(matches!(reader_after_header(None), ReaderStep::Stop));
    assert!(matches!(reader_after_header(Some([0, 0, 0, 0])), ReaderStep::RejectLength(0)));
    assert!(matches!(reader_after_header(Some([0, 2, 0, 0])), ReaderStep::RejectLength(131072)));
    assert!(matches!(reader_after_header(Some([0, 0, 1, 0])), ReaderStep::ReadBody(256)));
    assert!(matches!(reader_after_body("p", None, 3), ReaderStep::Stop));
    assert!(matches!(reader_after_body("p", Some(vec![0xff]), 3), ReaderStep::RejectText));
    match reader_after_body("peer9", Some(b"hey".to_vec()), 42) {
        ReaderStep::Deliver(m) => {
            assert_eq!(m.from, "peer9");
            assert_eq!(m.text, "hey");
            assert_eq!(m.timestamp, 42);
        }
        _ => panic!("expected a delivered message"),
    }
}
