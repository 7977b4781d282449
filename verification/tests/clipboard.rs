use ioscpy_window::clipboard::{
    apply_remote_clipboard, paste_clipboard, poll_clipboard, ClipState, ClipText, PollAction,
    PollEvent, RemoteAction, RemoteEvent,
};
use ioscpy_window::protocol::{
    send_clipboard_set, send_text, InputFrame, KeyCode, MessageType, Outbox, Point, SystemAction,
    TouchPhase,
};

const MAX: usize = 8;

fn clip_text(text: &str, hash: u64) -> ClipText {
    ClipText { text: text.to_string(), hash }
}

fn set(text: &str, flag: u8) -> InputFrame {
    let mut payload = vec![flag];
    payload.extend_from_slice(text.as_bytes());
    InputFrame::ClipboardSet(payload)
}

/// A whole poll, with what it sent.
fn poll(clip: &mut ClipState, count: i64, found: Option<ClipText>) -> Vec<InputFrame> {
    let mut tx = Outbox::new();
    if poll_clipboard(clip, PollEvent::ChangeCount(count), MAX, &mut tx) == PollAction::ReadText {
        let after = poll_clipboard(clip, PollEvent::Text(found), MAX, &mut tx);
        assert_eq!(after, PollAction::Done);
    }
    tx.drain()
}

/// Put a text from the phone on the clipboard; true if it was written.
fn receive(clip: &mut ClipState, received: ClipText, count: i64) -> bool {
    match apply_remote_clipboard(clip, RemoteEvent::Received(received)) {
        RemoteAction::WriteText(_) => {
            let after = apply_remote_clipboard(clip, RemoteEvent::Written(count));
            assert_eq!(after, RemoteAction::Done);
            true
        }
        RemoteAction::Done => false,
    }
}

#[test]
fn a_session_starts_with_nothing_synced() {
    let clip = ClipState::default();
    assert_eq!(clip.last_change_count, 0);
    assert_eq!(clip.last_synced_hash, None);
}

#[test]
fn payload_is_a_flag_and_the_text() {
    let mut tx = Outbox::new();
    send_clipboard_set(&mut tx, "aé", true);
    send_clipboard_set(&mut tx, "", false);
    assert_eq!(
        tx.drain(),
        vec![
            InputFrame::ClipboardSet(vec![1, 0x61, 0xc3, 0xa9]),
            InputFrame::ClipboardSet(vec![0]),
        ]
    );
    assert!(tx.drain().is_empty());
}

#[test]
fn an_unchanged_clipboard_is_not_read() {
    let mut clip = ClipState::default();
    let mut tx = Outbox::new();
    assert_eq!(
        poll_clipboard(&mut clip, PollEvent::ChangeCount(0), MAX, &mut tx),
        PollAction::Done
    );
    assert_eq!(
        poll_clipboard(&mut clip, PollEvent::ChangeCount(-3), MAX, &mut tx),
        PollAction::ReadText
    );
    assert_eq!(clip.last_change_count, -3);
    assert_eq!(clip.last_synced_hash, None);
    assert!(tx.drain().is_empty());
}

#[test]
fn new_text_is_pushed_once() {
    let mut clip = ClipState::default();
    assert_eq!(poll(&mut clip, 5, Some(clip_text("hello", 11))), vec![set("hello", 0)]);
    assert_eq!(clip.last_change_count, 5);
    assert_eq!(clip.last_synced_hash, Some(11));
    assert_eq!(poll(&mut clip, 5, Some(clip_text("other", 12))), vec![]);
    assert_eq!(poll(&mut clip, 6, Some(clip_text("hello", 11))), vec![]);
    assert_eq!(clip.last_change_count, 6);
    assert_eq!(poll(&mut clip, 7, Some(clip_text("other", 12))), vec![set("other", 0)]);
}

#[test]
fn unusable_text_is_not_pushed() {
    let mut clip = ClipState::default();
    assert_eq!(poll(&mut clip, 1, None), vec![]);
    assert_eq!(poll(&mut clip, 2, Some(clip_text("", 1))), vec![]);
    assert_eq!(poll(&mut clip, 3, Some(clip_text("123456789", 2))), vec![]);
    assert_eq!(poll(&mut clip, 4, Some(clip_text("ééééé", 3))), vec![]);
    assert_eq!(clip.last_change_count, 4);
    assert_eq!(clip.last_synced_hash, None);
    assert_eq!(poll(&mut clip, 5, Some(clip_text("éééé", 4))), vec![set("éééé", 0)]);
}

#[test]
fn a_text_from_the_phone_is_not_echoed() {
    let mut clip = ClipState::default();
    assert!(receive(&mut clip, clip_text("remote", 21), 9));
    assert_eq!(clip.last_change_count, 9);
    assert_eq!(clip.last_synced_hash, Some(21));
    assert_eq!(poll(&mut clip, 9, Some(clip_text("remote", 21))), vec![]);
    assert_eq!(poll(&mut clip, 10, Some(clip_text("remote", 21))), vec![]);
}

#[test]
fn a_text_from_the_phone_is_written_as_it_came() {
    let mut clip = ClipState::default();
    let action = apply_remote_clipboard(&mut clip, RemoteEvent::Received(clip_text("abc", 4)));
    assert_eq!(action, RemoteAction::WriteText("abc".to_string()));
    assert_eq!(clip.last_synced_hash, Some(4));
    assert_eq!(clip.last_change_count, 0);
}

#[test]
fn known_or_empty_texts_from_the_phone_are_ignored() {
    let mut clip = ClipState::default();
    assert!(!receive(&mut clip, clip_text("", 1), 5));
    assert_eq!(clip, ClipState::default());
    assert!(receive(&mut clip, clip_text("a", 2), 5));
    assert!(!receive(&mut clip, clip_text("a", 2), 6));
    assert_eq!(clip.last_change_count, 5);
    assert!(receive(&mut clip, clip_text("a text that is longer than the limit", 3), 7));
}

#[test]
fn a_pushed_text_is_not_written_back() {
    let mut clip = ClipState::default();
    assert_eq!(poll(&mut clip, 1, Some(clip_text("a", 2))).len(), 1);
    assert!(!receive(&mut clip, clip_text("a", 2), 3));
    let mut tx = Outbox::new();
    paste_clipboard(&mut clip, Some(clip_text("b", 7)), MAX, &mut tx);
    assert!(!receive(&mut clip, clip_text("b", 7), 4));
}

#[test]
fn a_paste_pushes_the_text_and_is_not_resent() {
    let mut clip = ClipState::default();
    let mut tx = Outbox::new();
    paste_clipboard(&mut clip, Some(clip_text("paste me", 31)), MAX, &mut tx);
    paste_clipboard(&mut clip, Some(clip_text("paste me", 31)), MAX, &mut tx);
    assert_eq!(tx.drain(), vec![set("paste me", 1), set("paste me", 1)]);
    assert_eq!(clip.last_synced_hash, Some(31));
    assert_eq!(clip.last_change_count, 0);
    assert_eq!(poll(&mut clip, 2, Some(clip_text("paste me", 31))), vec![]);
}

#[test]
fn a_paste_without_usable_text_is_a_plain_paste() {
    for found in [None, Some(clip_text("", 1)), Some(clip_text("123456789", 2))] {
        let mut clip = ClipState { last_change_count: 3, last_synced_hash: Some(8) };
        let mut tx = Outbox::new();
        paste_clipboard(&mut clip, found, MAX, &mut tx);
        assert_eq!(tx.drain(), vec![InputFrame::Key(KeyCode::Paste)]);
        assert_eq!(clip, ClipState { last_change_count: 3, last_synced_hash: Some(8) });
    }
}

#[test]
fn messages_know_their_kind() {
    let at = Point { x: 0, y: 0 };
    let table = [
        (InputFrame::System(SystemAction::Home), MessageType::SystemAction),
        (InputFrame::Key(KeyCode::Tab), MessageType::InputKey),
        (InputFrame::Text("x".to_string()), MessageType::InputText),
        (InputFrame::ClipboardSet(vec![0]), MessageType::ClipboardSet),
        (InputFrame::Touch { phase: TouchPhase::Up, finger: 0, at }, MessageType::InputTouch),
    ];
    for (frame, kind) in table {
        assert_eq!(frame.message_type(), kind);
    }
}

#[test]
fn the_outbox_keeps_order() {
    let mut tx = Outbox::new();
    send_text(&mut tx, "one".to_string());
    tx.send(InputFrame::Key(KeyCode::Enter));
    send_text(&mut tx, "two".to_string());
    assert_eq!(
        tx.drain(),
        vec![
            InputFrame::Text("one".to_string()),
            InputFrame::Key(KeyCode::Enter),
            InputFrame::Text("two".to_string()),
        ]
    );
}
