//! The messages that go to the phone.

use vstd::prelude::*;

#[allow(unused_imports)]
use vstd::utf8::{decode_utf8, encode_utf8, encode_utf8_decode_utf8};

verus! {

/// What the phone itself is asked to do.
#[derive(Clone, Copy, Debug, PartialEq, Eq, Structural)]
pub enum SystemAction {
    Home,
    Lock,
    AppSwitcher,
    RotateLeft,
    Back,
}

/// Editing keys and editing shortcuts.
#[derive(Clone, Copy, Debug, PartialEq, Eq, Structural)]
pub enum KeyCode {
    Enter,
    Backspace,
    Tab,
    Left,
    Right,
    Up,
    Down,
    SelectAll,
    Copy,
    Paste,
    Cut,
    Undo,
}

/// The three moments of a touch.
#[derive(Clone, Copy, Debug, PartialEq, Eq, Structural)]
pub enum TouchPhase {
    Down,
    Move,
    Up,
}

/// The kinds of message.
#[derive(Clone, Copy, Debug, PartialEq, Eq, Structural)]
pub enum MessageType {
    SystemAction,
    InputKey,
    InputText,
    ClipboardSet,
    InputTouch,
}

/// A position on the phone's screen. Each coordinate is the bit pattern of a
/// single-precision number between 0 and 1.
#[derive(Clone, Copy, Debug, PartialEq, Eq, Structural)]
pub struct Point {
    pub x: u32,
    pub y: u32,
}

/// One message to the phone.
#[derive(Debug, PartialEq, Eq)]
pub enum InputFrame {
    /// Ask for a system action.
    System(SystemAction),
    /// Press an editing key.
    Key(KeyCode),
    /// Type text.
    Text(String),
    /// Set the clipboard: the flags byte, then the text in UTF-8.
    ClipboardSet(Vec<u8>),
    /// Touch the screen with the given finger.
    Touch { phase: TouchPhase, finger: u8, at: Point },
}

/// What a message says.
pub enum Message {
    System(SystemAction),
    Key(KeyCode),
    Text(Seq<char>),
    ClipboardSet(Seq<u8>),
    Touch { phase: TouchPhase, finger: u8, at: Point },
}

impl View for InputFrame {
    type V = Message;

    open spec fn view(&self) -> Message {
        match *self {
            InputFrame::System(action) => Message::System(action),
            InputFrame::Key(code) => Message::Key(code),
            InputFrame::Text(text) => Message::Text(text@),
            InputFrame::ClipboardSet(payload) => Message::ClipboardSet(payload@),
            InputFrame::Touch { phase, finger, at } => Message::Touch { phase, finger, at },
        }
    }
}

impl Message {
    /// The kind of a message.
    pub open spec fn kind(self) -> MessageType {
        match self {
            Message::System(_) => MessageType::SystemAction,
            Message::Key(_) => MessageType::InputKey,
            Message::Text(_) => MessageType::InputText,
            Message::ClipboardSet(_) => MessageType::ClipboardSet,
            Message::Touch { .. } => MessageType::InputTouch,
        }
    }
}

impl InputFrame {
    /// The kind that the message is sent under.
    pub fn message_type(&self) -> (kind: MessageType)
        ensures
            kind == self@.kind(),
    {
        match self {
            InputFrame::System(_) => MessageType::SystemAction,
            InputFrame::Key(_) => MessageType::InputKey,
            InputFrame::Text(_) => MessageType::InputText,
            InputFrame::ClipboardSet(_) => MessageType::ClipboardSet,
            InputFrame::Touch { .. } => MessageType::InputTouch,
        }
    }
}

/// `sent`, and `message` behind it where there is one.
pub open spec fn with_message(sent: Seq<Message>, message: Option<Message>) -> Seq<Message> {
    match message {
        Some(m) => sent.push(m),
        None => sent,
    }
}

/// The sending end of the line to the phone: messages leave it in the order in
/// which they were sent.
#[derive(Debug)]
pub struct Outbox {
    frames: Vec<InputFrame>,
}

impl View for Outbox {
    type V = Seq<Message>;

    closed spec fn view(&self) -> Seq<Message> {
        self.frames@.map_values(|f: InputFrame| f@)
    }
}

impl Outbox {
    /// An outbox with nothing in it.
    pub fn new() -> (tx: Outbox)
        ensures
            tx@ == Seq::<Message>::empty(),
    {
        let tx = Outbox { frames: Vec::new() };
        assert(tx@ =~= Seq::<Message>::empty());
        tx
    }

    /// Send a message.
    pub fn send(&mut self, frame: InputFrame)
        ensures
            final(self)@ == old(self)@.push(frame@),
    {
        self.frames.push(frame);
        assert(self@ =~= old(self)@.push(frame@));
    }

    /// Take out everything that was sent, oldest first.
    pub fn drain(&mut self) -> (frames: Vec<InputFrame>)
        ensures
            frames@.map_values(|f: InputFrame| f@) == old(self)@,
            final(self)@ == Seq::<Message>::empty(),
    {
        let mut frames: Vec<InputFrame> = Vec::new();
        frames.append(&mut self.frames);
        assert(self@ =~= Seq::<Message>::empty());
        assert(frames@ =~= old(self).frames@);
        frames
    }
}

/// Ask the phone for a system action.
pub fn send_action(tx: &mut Outbox, action: SystemAction)
    ensures
        final(tx)@ == old(tx)@.push(Message::System(action)),
{
    tx.send(InputFrame::System(action));
}

/// Press an editing key on the phone.
pub fn send_key(tx: &mut Outbox, code: KeyCode)
    ensures
        final(tx)@ == old(tx)@.push(Message::Key(code)),
{
    tx.send(InputFrame::Key(code));
}

/// Type text on the phone.
pub fn send_text(tx: &mut Outbox, text: String)
    ensures
        final(tx)@ == old(tx)@.push(Message::Text(text@)),
{
    tx.send(InputFrame::Text(text));
}

/// The one touch that the mouse makes.
pub open spec fn touch_message(phase: TouchPhase, at: Point) -> Message {
    Message::Touch { phase, finger: 0, at }
}

/// Touch the phone's screen. The mouse is always the same finger.
pub fn send_touch(tx: &mut Outbox, phase: TouchPhase, at: Point)
    ensures
        final(tx)@ == old(tx)@.push(touch_message(phase, at)),
{
    tx.send(InputFrame::Touch { phase, finger: 0, at });
}

/// The payload of a clipboard message: the flags byte, of which bit 0 asks for a
/// paste, then the text in UTF-8.
pub open spec fn clipboard_payload(text: Seq<char>, paste: bool) -> Seq<u8> {
    seq![
        if paste {
            1u8
        } else {
            0u8
        },
    ] + encode_utf8(text)
}

/// Set the phone's clipboard and, on request, paste it there.
pub fn send_clipboard_set(tx: &mut Outbox, text: &str, paste: bool)
    ensures
        final(tx)@ == old(tx)@.push(Message::ClipboardSet(clipboard_payload(text@, paste))),
{
    let mut payload: Vec<u8> = Vec::new();
    payload.push(
        if paste {
            0x01
        } else {
            0x00
        },
    );
    payload.extend_from_slice(text.as_bytes());
    assert(payload@ =~= clipboard_payload(text@, paste));
    tx.send(InputFrame::ClipboardSet(payload));
}

/// A clipboard payload tells back what it was made from: bit 0 of its first byte is
/// the paste flag, no other bit is set, and the rest decodes to the text.
pub proof fn law_clipboard_payload_reads_back(text: Seq<char>, paste: bool)
    ensures
        clipboard_payload(text, paste).len() >= 1,
        clipboard_payload(text, paste)[0] & 1 == 1 <==> paste,
        clipboard_payload(text, paste)[0] <= 1,
        decode_utf8(clipboard_payload(text, paste).skip(1)) == text,
{
    assert(1u8 & 1 == 1 && 0u8 & 1 == 0) by (bit_vector);
    assert(clipboard_payload(text, paste).skip(1) =~= encode_utf8(text));
    encode_utf8_decode_utf8(text);
}

/// What is sent is what is said: each message says its own action, key, text, payload or
/// touch, unchanged, and goes out under its own kind.
pub proof fn law_messages_say_what_they_hold(
    action: SystemAction,
    code: KeyCode,
    text: String,
    payload: Vec<u8>,
    phase: TouchPhase,
    finger: u8,
    at: Point,
)
    ensures
        InputFrame::System(action)@ == Message::System(action),
        InputFrame::Key(code)@ == Message::Key(code),
        InputFrame::Text(text)@ == Message::Text(text@),
        InputFrame::ClipboardSet(payload)@ == Message::ClipboardSet(payload@),
        (InputFrame::Touch { phase, finger, at })@ == (Message::Touch { phase, finger, at }),
        Message::System(action).kind() == MessageType::SystemAction,
        Message::Key(code).kind() == MessageType::InputKey,
        Message::Text(text@).kind() == MessageType::InputText,
        Message::ClipboardSet(payload@).kind() == MessageType::ClipboardSet,
        (Message::Touch { phase, finger, at }).kind() == MessageType::InputTouch,
        touch_message(phase, at) == (Message::Touch { phase, finger: 0, at }),
{
}

/// Sending appends: what was sent before stays, in order, and at most one message comes
/// behind it.
pub proof fn law_sending_appends(sent: Seq<Message>, message: Message)
    ensures
        with_message(sent, Some(message)) == sent.push(message),
        with_message(sent, None) == sent,
{
}

/// A clipboard message is one flags byte, 1 with a paste and 0 without, and then the
/// text's bytes.
pub proof fn law_clipboard_payload_layout(text: Seq<char>)
    ensures
        clipboard_payload(text, true) == seq![1u8] + encode_utf8(text),
        clipboard_payload(text, false) == seq![0u8] + encode_utf8(text),
{
}

} // verus!
