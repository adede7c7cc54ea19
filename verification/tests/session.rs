use rfb::client_message::ClientMessage;
use rfb::encoding::Encoding;
use rfb::session::{on_read, ReaderAction, Session, SessionAction, FRAME_DELAY_MS};

fn request() -> ClientMessage {
    ClientMessage::FramebufferUpdateRequest { incremental: true, pos_x: 0, pos_y: 0, width: 8, height: 8 }
}

#[test]
fn new_session_has_nothing_pending() {
    let s = Session::new();
    assert!(!s.frame_pending());
}

#[test]
fn unknown_message_stops() {
    let mut s = Session::new();
    assert_eq!(s.on_message(Some(&ClientMessage::Unknown)), SessionAction::Stop);
}

#[test]
fn input_events_are_recorded() {
    let mut s = Session::new();
    let k = ClientMessage::KeyEvent { down_flag: true, key: 0xFF0D };
    let p = ClientMessage::PointerEvent { pos_x: 1, pos_y: 2 };
    assert_eq!(s.on_message(Some(&k)), SessionAction::RecordActivity);
    assert_eq!(s.on_message(Some(&p)), SessionAction::RecordActivity);
    assert!(!s.frame_pending());
}

#[test]
fn other_messages_are_ignored() {
    let mut s = Session::new();
    let e = ClientMessage::SetEncodings { encodings: vec![Encoding::Raw] };
    assert_eq!(s.on_message(Some(&e)), SessionAction::Ignore);
    assert_eq!(s.on_message(Some(&ClientMessage::ClientCutText)), SessionAction::Ignore);
    assert_eq!(s.on_message(Some(&ClientMessage::SetPixelFormat)), SessionAction::Ignore);
    assert_eq!(s.on_message(None), SessionAction::Ignore);
}

#[test]
fn request_schedules_one_full_frame() {
    let mut s = Session::new();
    assert_eq!(s.on_message(Some(&request())), SessionAction::ScheduleFrame { delay_ms: 1000 });
    assert_eq!(FRAME_DELAY_MS, 1000);
    assert!(s.frame_pending());
    assert_eq!(s.on_frame_due(), SessionAction::SendFrame { incremental: false });
    assert!(!s.frame_pending());
    assert_eq!(s.on_frame_due(), SessionAction::Ignore);
}

#[test]
fn repeated_requests_send_one_frame() {
    let mut s = Session::new();
    s.on_message(Some(&request()));
    s.on_message(Some(&request()));
    assert_eq!(s.on_frame_due(), SessionAction::SendFrame { incremental: false });
    assert_eq!(s.on_frame_due(), SessionAction::Ignore);
}

#[test]
fn reader_decisions() {
    assert_eq!(on_read(Some(0)), ReaderAction::Disconnect);
    assert_eq!(on_read(None), ReaderAction::Disconnect);
    assert_eq!(on_read(Some(17)), ReaderAction::Decode(17));
}

#[test]
fn passive_messages_change_no_frame() {
    let passive = [
        ClientMessage::KeyEvent { down_flag: true, key: 0x61 },
        ClientMessage::PointerEvent { pos_x: 3, pos_y: 4 },
        ClientMessage::SetEncodings { encodings: vec![Encoding::Raw] },
        ClientMessage::ClientCutText,
    ];
    let mut plain = Session::new();
    let mut busy = Session::new();
    assert_eq!(plain.on_message(Some(&request())), busy.on_message(Some(&request())));
    for m in &passive {
        let a = busy.on_message(Some(m));
        assert!(a == SessionAction::RecordActivity || a == SessionAction::Ignore);
        assert_eq!(busy.frame_pending(), plain.frame_pending());
    }
    assert_eq!(plain.on_frame_due(), busy.on_frame_due());
    assert_eq!(plain.frame_pending(), busy.frame_pending());
}
