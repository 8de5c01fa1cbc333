use clipsync::clipboard::classify_content;
use clipsync::clipboard::has_content;
use clipsync::clipboard::png_to_rgba;
use clipsync::clipboard::rgba_to_png;
use clipsync::clipboard::ClipboardContentType;
use clipsync::errors::NetError;
use clipsync::framing::frame_message;
use clipsync::framing::FrameReader;
use clipsync::manager::DialOutcome;
use clipsync::manager::NetworkManager;
use clipsync::messages::ClipboardContent;
use clipsync::notify::NotificationManager;
use clipsync::watch::ChangeTracker;

#[test]
fn manager_starts_stopped_and_empty() {
    let m: NetworkManager<u32> = NetworkManager::new("desk".to_string());
    assert!(!m.is_running());
    assert_eq!(m.peer_count(), 0);
    assert_eq!(m.get_device_name(), "desk");
}

#[test]
fn start_raises_the_running_flag() {
    let mut m: NetworkManager<u32> = NetworkManager::new("desk".to_string());
    m.start();
    assert!(m.is_running());
}

#[test]
fn inbound_and_dialed_ids_cannot_collide() {
    let mut m: NetworkManager<u32> = NetworkManager::new("desk".to_string());
    let a = m.admit_inbound("10.0.0.9:1234", 1);
    let b = m.admit_dialed("10.0.0.9", 1234, 2);
    assert_eq!(a, "client_10.0.0.9:1234");
    assert_eq!(b, "server_10.0.0.9:1234");
    assert_eq!(m.peer_count(), 2);
}

#[test]
fn dial_refused_reports_connect_failed_and_keeps_state() {
    let mut m: NetworkManager<u32> = NetworkManager::new("desk".to_string());
    m.admit_inbound("10.0.0.7:1", 1);
    let r = m.register_dial_outcome("10.0.0.9", 8765, DialOutcome::Refused);
    assert_eq!(r.unwrap_err(), NetError::ConnectFailed);
    assert_eq!(m.peer_count(), 1);
    assert_eq!(m.snapshot()[0].0, "client_10.0.0.7:1");
}

#[test]
fn dial_timeout_reports_connect_timeout_and_keeps_state() {
    let mut m: NetworkManager<u32> = NetworkManager::new("desk".to_string());
    let r = m.register_dial_outcome("10.0.0.9", 8765, DialOutcome::TimedOut);
    assert_eq!(r.unwrap_err(), NetError::ConnectTimeout);
    assert_eq!(m.peer_count(), 0);
}

#[test]
fn dial_success_registers_the_peer() {
    let mut m: NetworkManager<u32> = NetworkManager::new("desk".to_string());
    let id = m.register_dial_outcome("10.0.0.9", 8765, DialOutcome::Connected(5)).unwrap();
    assert_eq!(id, "server_10.0.0.9:8765");
    assert_eq!(m.snapshot()[0], (id, 5));
}

#[test]
fn shutdown_stops_and_empties() {
    let mut m: NetworkManager<u32> = NetworkManager::new("desk".to_string());
    m.start();
    m.admit_inbound("10.0.0.7:1", 1);
    m.admit_inbound("10.0.0.8:2", 2);
    assert_eq!(m.peer_count(), 2);
    m.shutdown();
    assert!(!m.is_running());
    assert_eq!(m.peer_count(), 0);
}

#[test]
fn text_hello_travels_from_dialer_to_listener() {
    // the dialing side frames a text message under its device name
    let dialer: NetworkManager<u32> = NetworkManager::new("laptop".to_string());
    let msg = dialer.make_text_message("hello".to_string());
    let frame = frame_message(&msg).unwrap();
    // the listening side's reader consumes the bytes off the wire
    let mut reader = FrameReader::new();
    reader.feed(&frame);
    let got = reader.next_message().unwrap().unwrap();
    assert_eq!(got.content, ClipboardContent::Text("hello".to_string()));
    assert_eq!(got.sender_name, "laptop");
    assert_eq!(got.sender_id, "local_device");
}

#[test]
fn image_message_carries_dimensions() {
    let m: NetworkManager<u32> = NetworkManager::new("desk".to_string());
    let msg = m.make_image_message(2, 1, vec![1, 2, 3]);
    match &msg.content {
        ClipboardContent::Image { width, height, data } => {
            assert_eq!((*width, *height), (2, 1));
            assert_eq!(data, &vec![1, 2, 3]);
        }
        _ => panic!("expected an image"),
    }
}

#[test]
fn preview_truncates_long_text() {
    let c = ClipboardContent::Text("hello world".to_string());
    assert_eq!(c.preview(5), "hello...");
    assert_eq!(c.preview(11), "hello world");
    assert_eq!(c.preview(50), "hello world");
}

#[test]
fn preview_counts_characters_not_bytes() {
    let c = ClipboardContent::Text("\u{4e00}\u{4e8c}\u{4e09}\u{56db}".to_string());
    assert_eq!(c.preview(2), "\u{4e00}\u{4e8c}...");
}

#[test]
fn preview_of_image_shows_dimensions() {
    let c = ClipboardContent::Image { width: 3, height: 4, data: vec![] };
    assert_eq!(c.preview(50), "\u{56fe}\u{7247} 3x4");
    let wide = ClipboardContent::Image { width: 1920, height: 1080, data: vec![] };
    assert_eq!(wide.preview(50), "\u{56fe}\u{7247} 1920x1080");
}

#[test]
fn error_descriptions_are_fixed() {
    assert_eq!(NetError::FrameTooLarge.describe(), "frame exceeds the maximum message size");
    assert_eq!(NetError::ConnectTimeout.describe(), "connection attempt timed out");
    assert_eq!(NetError::ConnectFailed.describe(), "connection attempt failed");
    assert_eq!(NetError::AcceptFailed.describe(), "accepting a connection failed");
    assert_eq!(NetError::ConnectionClosed.describe(), "connection closed");
    assert_eq!(NetError::MalformedPayload.describe(), "message body could not be parsed");
    assert_eq!(NetError::WriteFailed.describe(), "writing to a peer failed");
    assert_eq!(NetError::EncodeFailed.describe(), "message could not be encoded");
}

#[test]
fn notifications_toggle() {
    let mut n = NotificationManager::new();
    assert!(n.is_enabled());
    n.set_enabled(false);
    assert!(!n.is_enabled());
    n.set_enabled(true);
    assert!(n.is_enabled());
}

#[test]
fn clipboard_classification() {
    assert_eq!(classify_content(true, None), ClipboardContentType::Image);
    assert_eq!(classify_content(true, Some("x")), ClipboardContentType::Image);
    assert_eq!(classify_content(false, Some("x")), ClipboardContentType::Text);
    assert_eq!(classify_content(false, Some("")), ClipboardContentType::Empty);
    assert_eq!(classify_content(false, None), ClipboardContentType::Empty);
    assert!(has_content(&ClipboardContentType::Text));
    assert!(has_content(&ClipboardContentType::Image));
    assert!(!has_content(&ClipboardContentType::Empty));
}

#[test]
fn change_tracker_broadcasts_each_text_once() {
    let mut t = ChangeTracker::new();
    assert!(t.observe_text(&"abc".to_string()));
    assert!(!t.observe_text(&"abc".to_string()));
    assert!(t.observe_text(&"def".to_string()));
    assert!(!t.observe_text(&"".to_string()));
}

#[test]
fn change_tracker_broadcasts_an_image_once() {
    let mut t = ChangeTracker::new();
    assert!(t.observe_image());
    assert!(!t.observe_image());
    t.observe_empty();
    assert!(t.observe_image());
}

#[test]
fn change_tracker_forgets_text_when_clipboard_empties() {
    let mut t = ChangeTracker::new();
    assert!(t.observe_text(&"abc".to_string()));
    t.observe_empty();
    assert!(t.observe_text(&"abc".to_string()));
}

#[test]
fn png_round_trip_preserves_pixels() {
    let rgba = vec![10, 20, 30, 255, 40, 50, 60, 255];
    let png = rgba_to_png(2, 1, &rgba).unwrap();
    assert_ne!(png, rgba);
    let back = png_to_rgba(2, 1, &png).unwrap();
    assert_eq!(back.width, 2);
    assert_eq!(back.height, 1);
    assert_eq!(back.bytes, rgba);
}

#[test]
fn png_encode_rejects_wrong_buffer_size() {
    let rgba = vec![1, 2, 3];
    assert_eq!(rgba_to_png(2, 1, &rgba).unwrap_err(), NetError::EncodeFailed);
}

#[test]
fn png_decode_rejects_garbage() {
    assert_eq!(
        png_to_rgba(1, 1, &[1, 2, 3, 4]).unwrap_err(),
        NetError::MalformedPayload
    );
}
