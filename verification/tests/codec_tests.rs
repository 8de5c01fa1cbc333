use clipsync::codec::MESSAGE_MAX_SIZE;
use clipsync::errors::NetError;
use clipsync::framing::frame_message;
use clipsync::framing::FrameReader;
use clipsync::framing::FrameStep;
use clipsync::messages::ClipboardContent;
use clipsync::messages::ClipboardMessage;
use clipsync::registry::PeerRegistry;
use clipsync::wire::be_extend;
use clipsync::wire::be_read;

fn text_message(text: &str, ts: u64, id: &str, name: &str) -> ClipboardMessage {
    ClipboardMessage {
        content: ClipboardContent::Text(text.to_string()),
        timestamp: ts,
        sender_id: id.to_string(),
        sender_name: name.to_string(),
    }
}

#[test]
fn be_bytes_exact() {
    let mut v: Vec<u8> = Vec::new();
    be_extend(&mut v, 0x01020304, 4);
    assert_eq!(v, vec![1, 2, 3, 4]);
    assert_eq!(be_read(&v, 0, 4), 0x01020304);
    let mut w: Vec<u8> = Vec::new();
    be_extend(&mut w, 7, 8);
    assert_eq!(w, vec![0, 0, 0, 0, 0, 0, 0, 7]);
    assert_eq!(be_read(&w, 0, 8), 7);
}

#[test]
fn encode_text_exact_bytes() {
    let m = text_message("hi", 7, "a", "b");
    let b = m.to_bytes().unwrap();
    let expected: Vec<u8> = vec![
        0, // text tag
        0, 0, 0, 0, 0, 0, 0, 7, // timestamp
        0, 0, 0, 1, 97, // sender id "a"
        0, 0, 0, 1, 98, // sender name "b"
        0, 0, 0, 2, 104, 105, // text "hi"
    ];
    assert_eq!(b, expected);
    let back = ClipboardMessage::from_bytes(&b).unwrap();
    assert_eq!(back, m);
}

#[test]
fn round_trip_text() {
    let m = text_message("hello, clipboard", 1_700_000_000, "peer-1", "laptop");
    let b = m.to_bytes().unwrap();
    assert_eq!(ClipboardMessage::from_bytes(&b).unwrap(), m);
}

#[test]
fn round_trip_non_ascii_text() {
    let m = text_message("\u{56fe}\u{7247} caf\u{e9}", 42, "id-\u{4e2d}", "n\u{e4}me");
    let b = m.to_bytes().unwrap();
    assert_eq!(ClipboardMessage::from_bytes(&b).unwrap(), m);
}

#[test]
fn round_trip_image() {
    let m = ClipboardMessage {
        content: ClipboardContent::Image { width: 3, height: 2, data: vec![9, 8, 7, 6, 5] },
        timestamp: 99,
        sender_id: "local_device".to_string(),
        sender_name: "desk".to_string(),
    };
    let b = m.to_bytes().unwrap();
    assert_eq!(ClipboardMessage::from_bytes(&b).unwrap(), m);
}

#[test]
fn oversized_message_encode_fails() {
    let m = ClipboardMessage {
        content: ClipboardContent::Image {
            width: 4000,
            height: 4000,
            data: vec![0u8; MESSAGE_MAX_SIZE],
        },
        timestamp: 1,
        sender_id: "x".to_string(),
        sender_name: "y".to_string(),
    };
    assert_eq!(m.to_bytes().unwrap_err(), NetError::EncodeFailed);
    assert_eq!(frame_message(&m).unwrap_err(), NetError::EncodeFailed);
}

#[test]
fn malformed_payloads_are_rejected() {
    // too short to hold tag and timestamp
    assert_eq!(
        ClipboardMessage::from_bytes(&[]).unwrap_err(),
        NetError::MalformedPayload
    );
    // unknown tag
    let m = text_message("x", 0, "a", "b");
    let mut b = m.to_bytes().unwrap();
    b[0] = 2;
    assert_eq!(ClipboardMessage::from_bytes(&b).unwrap_err(), NetError::MalformedPayload);
    // truncated body
    let b2 = m.to_bytes().unwrap();
    assert_eq!(
        ClipboardMessage::from_bytes(&b2[..b2.len() - 1]).unwrap_err(),
        NetError::MalformedPayload
    );
    // trailing garbage after a well-formed body
    let mut b3 = m.to_bytes().unwrap();
    b3.push(0);
    assert_eq!(ClipboardMessage::from_bytes(&b3).unwrap_err(), NetError::MalformedPayload);
    // sender id bytes that are not UTF-8
    let mut b4 = m.to_bytes().unwrap();
    b4[13] = 0xff; // the single byte of sender id "a"
    assert_eq!(ClipboardMessage::from_bytes(&b4).unwrap_err(), NetError::MalformedPayload);
}

#[test]
fn frame_has_length_prefix() {
    let m = text_message("hi", 7, "a", "b");
    let body = m.to_bytes().unwrap();
    let frame = frame_message(&m).unwrap();
    assert_eq!(frame.len(), 4 + body.len());
    assert_eq!(&frame[..4], &[0, 0, 0, body.len() as u8]);
    assert_eq!(&frame[4..], &body[..]);
}

#[test]
fn partial_frame_is_not_interpreted() {
    let mut r = FrameReader::new();
    // a frame that declares five body bytes but delivers only two
    r.feed(&[0, 0, 0, 5, 1, 2]);
    assert!(matches!(r.poll(), FrameStep::NeedMore));
    assert!(matches!(r.next_message(), Ok(None)));
    // the rest arrives: the frame completes and only then is it parsed
    r.feed(&[3, 4, 5]);
    match r.poll() {
        FrameStep::Frame(body) => assert_eq!(body, vec![1, 2, 3, 4, 5]),
        _ => panic!("expected a complete frame"),
    }
}

#[test]
fn oversized_frame_rejected_before_body() {
    let mut r = FrameReader::new();
    // the declared length alone arrives; no body bytes are needed to reject
    r.feed(&[0xff, 0xff, 0xff, 0xff]);
    assert!(matches!(r.poll(), FrameStep::TooLarge));
    assert_eq!(r.next_message().unwrap_err(), NetError::FrameTooLarge);
}

#[test]
fn reader_decodes_a_framed_message() {
    let m = text_message("hello", 5, "peer", "desk");
    let frame = frame_message(&m).unwrap();
    let mut r = FrameReader::new();
    r.feed(&frame);
    let got = r.next_message().unwrap().unwrap();
    assert_eq!(got, m);
    // the stream is consumed exactly
    assert!(matches!(r.next_message(), Ok(None)));
}

#[test]
fn reader_rejects_malformed_frame_body() {
    let mut r = FrameReader::new();
    r.feed(&[0, 0, 0, 2, 9, 9]);
    assert_eq!(r.next_message().unwrap_err(), NetError::MalformedPayload);
}

#[test]
fn reader_handles_split_and_back_to_back_frames() {
    let m1 = text_message("one", 1, "a", "b");
    let m2 = text_message("two", 2, "a", "b");
    let mut bytes = frame_message(&m1).unwrap();
    bytes.extend_from_slice(&frame_message(&m2).unwrap());
    let mut r = FrameReader::new();
    let (first, second) = bytes.split_at(9);
    r.feed(first);
    assert!(matches!(r.next_message(), Ok(None)));
    r.feed(second);
    assert_eq!(r.next_message().unwrap().unwrap(), m1);
    assert_eq!(r.next_message().unwrap().unwrap(), m2);
    assert!(matches!(r.next_message(), Ok(None)));
}

#[test]
fn oversized_frame_disconnects_only_that_peer() {
    let mut registry: PeerRegistry<u32> = PeerRegistry::new();
    registry.insert("good".to_string(), 1);
    registry.insert("bad".to_string(), 2);
    // the reader task for "bad" sees a frame over the maximum message size
    let mut r = FrameReader::new();
    r.feed(&[0xff, 0xff, 0xff, 0xff]);
    if let Err(e) = r.next_message() {
        assert_eq!(e, NetError::FrameTooLarge);
        registry.remove(&"bad".to_string());
    }
    assert_eq!(registry.count(), 1);
    assert_eq!(registry.snapshot()[0], ("good".to_string(), 1));
}
