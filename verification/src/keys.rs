//! From the keyboard to the phone.
//!
//! There are two ways in. Where the window system delivers each key-down event,
//! [`key_down`] decides what becomes of it. Elsewhere the keys are read once per
//! frame: [`pump_keys`] handles shortcuts and editing keys, and a [`TextForwarder`]
//! forwards the typed characters.

use vstd::prelude::*;

use crate::protocol::{send_action, send_key, send_text, KeyCode, Outbox, SystemAction};
#[allow(unused_imports)]
use crate::protocol::{with_message, Message};

verus! {

/// What a key or a shortcut asks for.
#[derive(Clone, Copy, Debug, PartialEq, Eq, Structural)]
pub enum Command {
    /// Ask the phone for a system action.
    Action(SystemAction),
    /// Press an editing key.
    Key(KeyCode),
    /// Push this computer's clipboard to the phone and paste it there.
    PasteClipboard,
}

/// What a command says to the phone by itself; a paste first needs the clipboard.
pub open spec fn command_message(command: Command) -> Option<Message> {
    match command {
        Command::Action(action) => Some(Message::System(action)),
        Command::Key(code) => Some(Message::Key(code)),
        Command::PasteClipboard => None,
    }
}

/// Send a command to the phone. Returns true if nothing was sent because the
/// clipboard has to be read for a paste.
pub fn run_command(tx: &mut Outbox, command: Command) -> (paste: bool)
    ensures
        paste == (command == Command::PasteClipboard),
        final(tx)@ == with_message(old(tx)@, command_message(command)),
{
    match command {
        Command::Action(action) => {
            send_action(tx, action);
            false
        },
        Command::Key(code) => {
            send_key(tx, code);
            false
        },
        Command::PasteClipboard => true,
    }
}

/// Control characters, which are never typed: U+0000 to U+001F and U+007F to U+009F.
pub open spec fn is_control_spec(c: char) -> bool {
    c as u32 <= 0x1f || 0x7f <= c as u32 <= 0x9f
}

/// Whether a character is a control character.
pub fn is_control(c: char) -> (b: bool)
    ensures
        b == is_control_spec(c),
{
    let code: u32 = c as u32;
    code <= 0x1f || (0x7f <= code && code <= 0x9f)
}

/// Some character of the text is not a control character.
pub open spec fn has_printable(text: Seq<char>) -> bool {
    exists|i: int| 0 <= i < text.len() && !is_control_spec(#[trigger] text[i])
}

/// Whether a text is worth typing: some character of it is not a control
/// character.
pub fn is_typed(text: &str) -> (b: bool)
    ensures
        b == has_printable(text@),
{
    let mut found: bool = false;
    for c in it: text.chars()
        invariant
            it.seq() == text@,
            found == (exists|i: int|
                0 <= i < it.index() && !is_control_spec(#[trigger] text@[i])),
    {
        if !is_control(c) {
            found = true;
        }
    }
    found
}

/// The modifier flag of the Command key.
pub const COMMAND_FLAG: u64 = 0x10_0000;

/// A key-down event.
#[derive(Debug)]
pub struct KeyDown {
    /// The modifier flags.
    pub flags: u64,
    /// Whether the event comes from a key that is being held.
    pub repeat: bool,
    /// The first UTF-16 unit of the characters with modifiers ignored.
    pub unmodified: Option<u16>,
    /// The virtual key code.
    pub keycode: u16,
    /// The characters that the keyboard layout gave.
    pub characters: Option<String>,
}

/// What becomes of a key-down event.
#[derive(Debug, PartialEq, Eq)]
pub enum KeyDecision {
    /// It is not ours: the system goes on with it.
    PassOn,
    /// It is dropped.
    Swallow,
    /// It is a command for the phone.
    Run(Command),
    /// It is text for the phone.
    Type(String),
}

/// The shortcut on a letter, typed in either case.
pub open spec fn letter_shortcut(letter: char) -> Option<Command> {
    if letter == 'j' || letter == 'J' {
        Some(Command::Action(SystemAction::Home))
    } else if letter == 'l' || letter == 'L' {
        Some(Command::Action(SystemAction::Lock))
    } else if letter == 't' || letter == 'T' {
        Some(Command::Action(SystemAction::AppSwitcher))
    } else if letter == 'r' || letter == 'R' {
        Some(Command::Action(SystemAction::RotateLeft))
    } else if letter == 'a' || letter == 'A' {
        Some(Command::Key(KeyCode::SelectAll))
    } else if letter == 'c' || letter == 'C' {
        Some(Command::Key(KeyCode::Copy))
    } else if letter == 'v' || letter == 'V' {
        Some(Command::PasteClipboard)
    } else if letter == 'x' || letter == 'X' {
        Some(Command::Key(KeyCode::Cut))
    } else if letter == 'z' || letter == 'Z' {
        Some(Command::Key(KeyCode::Undo))
    } else {
        None
    }
}

fn shortcut_for(letter: char) -> (command: Option<Command>)
    ensures
        command == letter_shortcut(letter),
{
    match letter {
        'j' | 'J' => Some(Command::Action(SystemAction::Home)),
        'l' | 'L' => Some(Command::Action(SystemAction::Lock)),
        't' | 'T' => Some(Command::Action(SystemAction::AppSwitcher)),
        'r' | 'R' => Some(Command::Action(SystemAction::RotateLeft)),
        'a' | 'A' => Some(Command::Key(KeyCode::SelectAll)),
        'c' | 'C' => Some(Command::Key(KeyCode::Copy)),
        'v' | 'V' => Some(Command::PasteClipboard),
        'x' | 'X' => Some(Command::Key(KeyCode::Cut)),
        'z' | 'Z' => Some(Command::Key(KeyCode::Undo)),
        _ => None,
    }
}

/// The editing key behind a virtual key code.
pub open spec fn editing_key(keycode: u16) -> Option<KeyCode> {
    if keycode == 36 || keycode == 76 {
        Some(KeyCode::Enter)
    } else if keycode == 51 {
        Some(KeyCode::Backspace)
    } else if keycode == 48 {
        Some(KeyCode::Tab)
    } else if keycode == 123 {
        Some(KeyCode::Left)
    } else if keycode == 124 {
        Some(KeyCode::Right)
    } else if keycode == 125 {
        Some(KeyCode::Down)
    } else if keycode == 126 {
        Some(KeyCode::Up)
    } else {
        None
    }
}

fn editing_key_for(keycode: u16) -> (key: Option<KeyCode>)
    ensures
        key == editing_key(keycode),
{
    match keycode {
        36 | 76 => Some(KeyCode::Enter),
        51 => Some(KeyCode::Backspace),
        48 => Some(KeyCode::Tab),
        123 => Some(KeyCode::Left),
        124 => Some(KeyCode::Right),
        125 => Some(KeyCode::Down),
        126 => Some(KeyCode::Up),
        _ => None,
    }
}

/// The virtual key code of Esc, which goes back rather than being typed.
pub const ESCAPE_KEYCODE: u16 = 53;

/// Whether the Command key is down: its bit is set in the modifier flags.
pub open spec fn with_command(event: KeyDown) -> bool {
    (event.flags / COMMAND_FLAG) % 2 == 1
}

/// What a key-down event with Command held comes to: the shortcut on the letter, and
/// nothing of ours on any other character. A held key never repeats into the phone.
pub open spec fn command_decision(event: KeyDown) -> KeyDecision {
    if event.repeat {
        KeyDecision::Swallow
    } else {
        match event.unmodified {
            Some(unit) => if unit <= 0x7f {
                match letter_shortcut(unit as u8 as char) {
                    Some(command) => KeyDecision::Run(command),
                    None => KeyDecision::PassOn,
                }
            } else {
                KeyDecision::PassOn
            },
            None => KeyDecision::PassOn,
        }
    }
}

/// What a key-down event without Command comes to: going back, an editing key, or
/// text.
pub open spec fn plain_decision(event: KeyDown) -> KeyDecision {
    if event.keycode == ESCAPE_KEYCODE {
        KeyDecision::Run(Command::Action(SystemAction::Back))
    } else {
        match editing_key(event.keycode) {
            Some(code) => KeyDecision::Run(Command::Key(code)),
            None => match event.characters {
                Some(text) => if has_printable(text@) {
                    KeyDecision::Type(text)
                } else {
                    KeyDecision::PassOn
                },
                None => KeyDecision::PassOn,
            },
        }
    }
}

/// What becomes of a key-down event.
pub open spec fn key_decision(event: KeyDown) -> KeyDecision {
    if with_command(event) {
        command_decision(event)
    } else {
        plain_decision(event)
    }
}

/// Decide what becomes of a key-down event.
pub fn key_down(event: KeyDown) -> (decision: KeyDecision)
    ensures
        decision == key_decision(event),
        event.flags & 0x10_0000 == 0 && event.keycode != 53 && event.keycode != 36 && event.keycode
            != 76 && event.keycode != 51 && event.keycode != 48 && event.keycode != 123
            && event.keycode != 124 && event.keycode != 125 && event.keycode != 126 ==> (
        event.characters matches Some(text) ==> {
            &&& (exists|k: int|
                #![trigger text@[k]]
                0 <= k < text@.len() && !(text@[k] as u32 <= 0x1f || 0x7f <= text@[k] as u32
                    <= 0x9f)) ==> decision == KeyDecision::Type(text)
            &&& (forall|k: int|
                #![trigger text@[k]]
                0 <= k < text@.len() ==> text@[k] as u32 <= 0x1f || 0x7f <= text@[k] as u32
                    <= 0x9f) ==> decision == KeyDecision::PassOn
        }),
{
    let flags: u64 = event.flags;
    assert(flags & 0x10_0000 != 0 <==> (flags / 0x10_0000) % 2 == 1) by (bit_vector);
    if flags & COMMAND_FLAG != 0 {
        if event.repeat {
            return KeyDecision::Swallow;
        }
        if let Some(unit) = event.unmodified {
            if unit <= 0x7f {
                let letter: char = unit as u8 as char;
                if let Some(command) = shortcut_for(letter) {
                    return KeyDecision::Run(command);
                }
            }
        }
        return KeyDecision::PassOn;
    }
    if event.keycode == ESCAPE_KEYCODE {
        return KeyDecision::Run(Command::Action(SystemAction::Back));
    }
    if let Some(code) = editing_key_for(event.keycode) {
        return KeyDecision::Run(Command::Key(code));
    }
    if let Some(text) = event.characters {
        if is_typed(text.as_str()) {
            return KeyDecision::Type(text);
        }
    }
    KeyDecision::PassOn
}

/// What handling a key-down event leaves to do.
#[derive(Clone, Copy, Debug, PartialEq, Eq, Structural)]
pub struct KeyOutcome {
    /// The system does not see the event any more.
    pub swallowed: bool,
    /// The clipboard has to be read for a paste.
    pub paste: bool,
}

/// What a decision says to the phone.
pub open spec fn decision_message(decision: KeyDecision) -> Option<Message> {
    match decision {
        KeyDecision::Run(command) => command_message(command),
        KeyDecision::Type(text) => Some(Message::Text(text@)),
        _ => None,
    }
}

/// Handle a key-down event: send what it says to the phone.
pub fn handle_key_down(event: KeyDown, tx: &mut Outbox) -> (outcome: KeyOutcome)
    ensures
        outcome.swallowed == (key_decision(event) !is PassOn),
        outcome.paste == (key_decision(event) == KeyDecision::Run(Command::PasteClipboard)),
        final(tx)@ == with_message(old(tx)@, decision_message(key_decision(event))),
{
    match key_down(event) {
        KeyDecision::PassOn => KeyOutcome { swallowed: false, paste: false },
        KeyDecision::Swallow => KeyOutcome { swallowed: true, paste: false },
        KeyDecision::Run(command) => {
            let paste = run_command(tx, command);
            KeyOutcome { swallowed: true, paste }
        },
        KeyDecision::Type(text) => {
            send_text(tx, text);
            KeyOutcome { swallowed: true, paste: false }
        },
    }
}

/// The keys that mean something to the window.
#[derive(Clone, Copy, Debug, PartialEq, Eq, Structural)]
pub enum Key {
    A,
    C,
    J,
    L,
    R,
    T,
    V,
    X,
    Z,
    Escape,
    Enter,
    NumPadEnter,
    Tab,
    Backspace,
    Left,
    Right,
    Up,
    Down,
    LeftCtrl,
    RightCtrl,
    Other,
}

/// The shortcut on a key with Ctrl held.
pub open spec fn ctrl_shortcut(key: Key) -> Option<Command> {
    match key {
        Key::J => Some(Command::Action(SystemAction::Home)),
        Key::L => Some(Command::Action(SystemAction::Lock)),
        Key::T => Some(Command::Action(SystemAction::AppSwitcher)),
        Key::R => Some(Command::Action(SystemAction::RotateLeft)),
        Key::A => Some(Command::Key(KeyCode::SelectAll)),
        Key::C => Some(Command::Key(KeyCode::Copy)),
        Key::V => Some(Command::PasteClipboard),
        Key::X => Some(Command::Key(KeyCode::Cut)),
        Key::Z => Some(Command::Key(KeyCode::Undo)),
        _ => None,
    }
}

/// What a key without Ctrl does once per press.
pub open spec fn single_key(key: Key) -> Option<Command> {
    match key {
        Key::Escape => Some(Command::Action(SystemAction::Back)),
        Key::Enter | Key::NumPadEnter => Some(Command::Key(KeyCode::Enter)),
        Key::Tab => Some(Command::Key(KeyCode::Tab)),
        _ => None,
    }
}

/// What a key without Ctrl does again and again while it is held.
pub open spec fn repeating_key(key: Key) -> Option<Command> {
    match key {
        Key::Backspace => Some(Command::Key(KeyCode::Backspace)),
        Key::Left => Some(Command::Key(KeyCode::Left)),
        Key::Right => Some(Command::Key(KeyCode::Right)),
        Key::Up => Some(Command::Key(KeyCode::Up)),
        Key::Down => Some(Command::Key(KeyCode::Down)),
        _ => None,
    }
}

/// What a newly pressed key does.
pub open spec fn pressed_key(ctrl: bool, key: Key) -> Option<Command> {
    if ctrl {
        ctrl_shortcut(key)
    } else {
        single_key(key)
    }
}

/// The commands that a sequence of keys gives, in order; a key may give none.
pub open spec fn commands_of(keys: Seq<Key>, of: spec_fn(Key) -> Option<Command>) -> Seq<Command>
    decreases keys.len(),
{
    if keys.len() == 0 {
        Seq::empty()
    } else {
        let before = commands_of(keys.drop_last(), of);
        match of(keys.last()) {
            Some(command) => before.push(command),
            None => before,
        }
    }
}

/// The commands of one frame: those of the newly pressed keys, then, without Ctrl,
/// those of the keys that repeat.
pub open spec fn frame_commands(ctrl: bool, pressed: Seq<Key>, repeating: Seq<Key>) -> Seq<
    Command,
> {
    commands_of(pressed, |key: Key| pressed_key(ctrl, key)) + if ctrl {
        Seq::<Command>::empty()
    } else {
        commands_of(repeating, |key: Key| repeating_key(key))
    }
}

fn command_for_pressed(ctrl: bool, key: Key) -> (command: Option<Command>)
    ensures
        command == pressed_key(ctrl, key),
{
    if ctrl {
        match key {
            Key::J => Some(Command::Action(SystemAction::Home)),
            Key::L => Some(Command::Action(SystemAction::Lock)),
            Key::T => Some(Command::Action(SystemAction::AppSwitcher)),
            Key::R => Some(Command::Action(SystemAction::RotateLeft)),
            Key::A => Some(Command::Key(KeyCode::SelectAll)),
            Key::C => Some(Command::Key(KeyCode::Copy)),
            Key::V => Some(Command::PasteClipboard),
            Key::X => Some(Command::Key(KeyCode::Cut)),
            Key::Z => Some(Command::Key(KeyCode::Undo)),
            _ => None,
        }
    } else {
        match key {
            Key::Escape => Some(Command::Action(SystemAction::Back)),
            Key::Enter | Key::NumPadEnter => Some(Command::Key(KeyCode::Enter)),
            Key::Tab => Some(Command::Key(KeyCode::Tab)),
            _ => None,
        }
    }
}

fn command_for_repeating(key: Key) -> (command: Option<Command>)
    ensures
        command == repeating_key(key),
{
    match key {
        Key::Backspace => Some(Command::Key(KeyCode::Backspace)),
        Key::Left => Some(Command::Key(KeyCode::Left)),
        Key::Right => Some(Command::Key(KeyCode::Right)),
        Key::Up => Some(Command::Key(KeyCode::Up)),
        Key::Down => Some(Command::Key(KeyCode::Down)),
        _ => None,
    }
}

/// The commands of one frame, from the two Ctrl keys, of which either counts, the keys
/// that went down since the last frame, and those among the keys down that are due now
/// (new ones and repeats). The last are not looked at while Ctrl is held.
pub fn pump_keys(
    left_ctrl: bool,
    right_ctrl: bool,
    pressed: &Vec<Key>,
    repeating: &Vec<Key>,
) -> (commands: Vec<Command>)
    ensures
        commands@ == frame_commands(left_ctrl || right_ctrl, pressed@, repeating@),
        !left_ctrl && !right_ctrl ==> commands@ == pressed@.filter(
            |key: Key|
                key == Key::Escape || key == Key::Enter || key == Key::NumPadEnter || key
                    == Key::Tab,
        ).map_values(
            |key: Key|
                if key == Key::Escape {
                    Command::Action(SystemAction::Back)
                } else if key == Key::Tab {
                    Command::Key(KeyCode::Tab)
                } else {
                    Command::Key(KeyCode::Enter)
                },
        ) + repeating@.filter(
            |key: Key|
                key == Key::Backspace || key == Key::Left || key == Key::Right || key == Key::Up
                    || key == Key::Down,
        ).map_values(
            |key: Key|
                if key == Key::Backspace {
                    Command::Key(KeyCode::Backspace)
                } else if key == Key::Left {
                    Command::Key(KeyCode::Left)
                } else if key == Key::Right {
                    Command::Key(KeyCode::Right)
                } else if key == Key::Up {
                    Command::Key(KeyCode::Up)
                } else {
                    Command::Key(KeyCode::Down)
                },
        ),
        left_ctrl || right_ctrl ==> commands@ == pressed@.filter(
            |key: Key|
                key == Key::J || key == Key::L || key == Key::T || key == Key::R || key == Key::A
                    || key == Key::C || key == Key::V || key == Key::X || key == Key::Z,
        ).map_values(
            |key: Key|
                if key == Key::J {
                    Command::Action(SystemAction::Home)
                } else if key == Key::L {
                    Command::Action(SystemAction::Lock)
                } else if key == Key::T {
                    Command::Action(SystemAction::AppSwitcher)
                } else if key == Key::R {
                    Command::Action(SystemAction::RotateLeft)
                } else if key == Key::A {
                    Command::Key(KeyCode::SelectAll)
                } else if key == Key::C {
                    Command::Key(KeyCode::Copy)
                } else if key == Key::V {
                    Command::PasteClipboard
                } else if key == Key::X {
                    Command::Key(KeyCode::Cut)
                } else {
                    Command::Key(KeyCode::Undo)
                },
        ),
{
    let ctrl: bool = left_ctrl || right_ctrl;
    let mut commands: Vec<Command> = Vec::new();
    let ghost once = |key: Key| pressed_key(ctrl, key);
    let mut i: usize = 0;
    while i < pressed.len()
        invariant
            i <= pressed@.len(),
            once == (|key: Key| pressed_key(ctrl, key)),
            commands@ == commands_of(pressed@.take(i as int), once),
        decreases pressed@.len() - i,
    {
        assert(pressed@.take(i + 1).drop_last() =~= pressed@.take(i as int));
        if let Some(command) = command_for_pressed(ctrl, pressed[i]) {
            commands.push(command);
        }
        i = i + 1;
    }
    assert(pressed@.take(i as int) =~= pressed@);
    if !ctrl {
        let ghost first = commands@;
        let ghost again = |key: Key| repeating_key(key);
        let mut j: usize = 0;
        while j < repeating.len()
            invariant
                j <= repeating@.len(),
                again == (|key: Key| repeating_key(key)),
                commands@ == first + commands_of(repeating@.take(j as int), again),
            decreases repeating@.len() - j,
        {
            assert(repeating@.take(j + 1).drop_last() =~= repeating@.take(j as int));
            if let Some(command) = command_for_repeating(repeating[j]) {
                commands.push(command);
            }
            j = j + 1;
        }
        assert(repeating@.take(j as int) =~= repeating@);
    }
    proof {
        law_frame_in_order(ctrl, pressed@, repeating@);
    }
    commands
}

/// Whether a number is the code of a character.
pub open spec fn is_scalar_value(code: u32) -> bool {
    code <= 0xd7ff || 0xe000 <= code <= 0x10ffff
}

/// `char::from_u32` gives the character with that code, and `None` exactly where no
/// character has it.
pub assume_specification[ char::from_u32 ](i: u32) -> (c: Option<char>)
    ensures
        c is Some <==> is_scalar_value(i),
        c matches Some(ch) ==> ch as u32 == i,
;

/// `String::from` on a character gives the string of that one character.
#[verifier::external_body]
fn string_of(c: char) -> (s: String)
    ensures
        s@ == seq![c],
{
    String::from(c)
}

/// Forwards typed characters as text. Nothing is forwarded while a Ctrl key is held,
/// so a shortcut is not typed as well.
#[derive(Clone, Copy, Debug, PartialEq, Eq, Structural)]
pub struct TextForwarder {
    /// Whether the left Ctrl key is down.
    pub left: bool,
    /// Whether the right Ctrl key is down.
    pub right: bool,
}

/// The forwarder before any key event.
pub open spec fn no_keys_down() -> TextForwarder {
    TextForwarder { left: false, right: false }
}

/// The forwarder after a key went down or up.
pub open spec fn forwarder_next(f: TextForwarder, key: Key, state: bool) -> TextForwarder {
    match key {
        Key::LeftCtrl => TextForwarder { left: state, ..f },
        Key::RightCtrl => TextForwarder { right: state, ..f },
        _ => f,
    }
}

impl TextForwarder {
    /// Whether Ctrl is held, by either key.
    pub open spec fn ctrl(self) -> bool {
        self.left || self.right
    }

    /// A forwarder that has seen no key yet.
    pub fn new() -> (forwarder: TextForwarder)
        ensures
            forwarder == no_keys_down(),
    {
        TextForwarder { left: false, right: false }
    }

    /// A character was typed.
    pub fn add_char(&self, uni_char: u32, tx: &mut Outbox)
        ensures
            !self.ctrl() && is_scalar_value(uni_char) && !is_control_spec(uni_char as char)
                ==> final(tx)@ == old(tx)@.push(Message::Text(seq![uni_char as char])),
            self.ctrl() || !is_scalar_value(uni_char) || is_control_spec(uni_char as char)
                ==> final(tx)@ == old(tx)@,
    {
        if self.left || self.right {
            return ;
        }
        if let Some(c) = char::from_u32(uni_char) {
            if !is_control(c) {
                send_text(tx, string_of(c));
                proof {
                    vstd::utf8::char_u32_cast(c, uni_char);
                    assert(seq![uni_char as char] =~= seq![c]);
                }
            }
        }
    }

    /// A key went down or up.
    pub fn set_key_state(&mut self, key: Key, state: bool)
        ensures
            *final(self) == forwarder_next(*old(self), key, state),
    {
        match key {
            Key::LeftCtrl => {
                self.left = state;
            },
            Key::RightCtrl => {
                self.right = state;
            },
            _ => {},
        }
    }
}

/// A key that went down (true) or up (false).
pub struct KeyChange {
    pub key: Key,
    pub state: bool,
}

/// The forwarder after a sequence of key events.
pub open spec fn forwarder_after(changes: Seq<KeyChange>) -> TextForwarder
    decreases changes.len(),
{
    if changes.len() == 0 {
        no_keys_down()
    } else {
        forwarder_next(
            forwarder_after(changes.drop_last()),
            changes.last().key,
            changes.last().state,
        )
    }
}

/// Whether a key is down after a sequence of key events: its latest event says so.
pub open spec fn is_down_after(changes: Seq<KeyChange>, key: Key) -> bool
    decreases changes.len(),
{
    if changes.len() == 0 {
        false
    } else if changes.last().key == key {
        changes.last().state
    } else {
        is_down_after(changes.drop_last(), key)
    }
}

/// After any sequence of key events, characters are dropped exactly while the left or
/// the right Ctrl key is down.
pub proof fn law_ctrl_is_either_key(changes: Seq<KeyChange>)
    ensures
        forwarder_after(changes).ctrl() == (is_down_after(changes, Key::LeftCtrl)
            || is_down_after(changes, Key::RightCtrl)),
{
    lemma_forwarder_tracks_keys(changes);
}

proof fn lemma_forwarder_tracks_keys(changes: Seq<KeyChange>)
    ensures
        forwarder_after(changes).left == is_down_after(changes, Key::LeftCtrl),
        forwarder_after(changes).right == is_down_after(changes, Key::RightCtrl),
    decreases changes.len(),
{
    if changes.len() > 0 {
        lemma_forwarder_tracks_keys(changes.drop_last());
    }
}

/// A key that repeats while it is held does nothing as a single press, and the
/// other way round: on the frame on which a key goes down it is in both lists, and
/// it still acts once.
pub proof fn law_single_and_repeating_disjoint(key: Key)
    ensures
        single_key(key) is None || repeating_key(key) is None,
{
}

/// A key that just went down gives at most one command, whether or not Ctrl is
/// held, though both lists name it.
pub proof fn law_fresh_key_acts_once(ctrl: bool, key: Key)
    ensures
        frame_commands(ctrl, seq![key], seq![key]).len() <= 1,
{
    let once = |k: Key| pressed_key(ctrl, k);
    let again = |k: Key| repeating_key(k);
    assert(seq![key].drop_last() =~= Seq::<Key>::empty());
    reveal_with_fuel(commands_of, 2);
    assert(commands_of(seq![key], once).len() == if pressed_key(ctrl, key) is Some {
        1nat
    } else {
        0nat
    });
    assert(commands_of(seq![key], again).len() == if repeating_key(key) is Some {
        1nat
    } else {
        0nat
    });
    law_single_and_repeating_disjoint(key);
}

/// The letter on a letter key.
pub open spec fn letter_on(key: Key) -> Option<(char, char)> {
    match key {
        Key::A => Some(('a', 'A')),
        Key::C => Some(('c', 'C')),
        Key::J => Some(('j', 'J')),
        Key::L => Some(('l', 'L')),
        Key::R => Some(('r', 'R')),
        Key::T => Some(('t', 'T')),
        Key::V => Some(('v', 'V')),
        Key::X => Some(('x', 'X')),
        Key::Z => Some(('z', 'Z')),
        _ => None,
    }
}

/// Ctrl with a letter key and Command with that letter, in either case, are the
/// same shortcut; no other key is a shortcut.
pub proof fn law_shortcuts_agree(key: Key)
    ensures
        match letter_on(key) {
            Some((lower, upper)) => {
                &&& ctrl_shortcut(key) is Some
                &&& ctrl_shortcut(key) == letter_shortcut(lower)
                &&& ctrl_shortcut(key) == letter_shortcut(upper)
            },
            None => ctrl_shortcut(key) is None,
        },
{
}

/// The key behind a virtual key code, as far as it is an editing key or Esc.
pub open spec fn key_at(keycode: u16) -> Key {
    if keycode == 36 {
        Key::Enter
    } else if keycode == 76 {
        Key::NumPadEnter
    } else if keycode == 48 {
        Key::Tab
    } else if keycode == 51 {
        Key::Backspace
    } else if keycode == 53 {
        Key::Escape
    } else if keycode == 123 {
        Key::Left
    } else if keycode == 124 {
        Key::Right
    } else if keycode == 125 {
        Key::Down
    } else if keycode == 126 {
        Key::Up
    } else {
        Key::Other
    }
}

/// Without a modifier, a key-down event and a key read once per frame come to the
/// same command, as a single press or as a repeating key.
pub proof fn law_editing_keys_agree(event: KeyDown)
    requires
        !with_command(event),
        key_at(event.keycode) != Key::Other,
    ensures
        ({
            let key = key_at(event.keycode);
            let command = if single_key(key) is Some {
                single_key(key)
            } else {
                repeating_key(key)
            };
            command is Some && key_decision(event) == KeyDecision::Run(command->0)
        }),
{
}

/// With Command down, a character that is none of the shortcut letters is left to the
/// system, unless the key is only being held.
pub proof fn law_other_command_keys_passed_on(event: KeyDown)
    requires
        with_command(event),
        !event.repeat,
        forall|key: Key|
            (#[trigger] letter_on(key)) matches Some((lower, upper)) ==> event.unmodified != Some(
                lower as u16,
            ) && event.unmodified != Some(upper as u16),
    ensures
        key_decision(event) == KeyDecision::PassOn,
{
    if let Some(unit) = event.unmodified {
        if unit <= 0x7f && letter_shortcut(unit as u8 as char) is Some {
            assert(letter_on(Key::A) is Some && letter_on(Key::C) is Some && letter_on(
                Key::J,
            ) is Some && letter_on(Key::L) is Some && letter_on(Key::R) is Some && letter_on(
                Key::T,
            ) is Some && letter_on(Key::V) is Some && letter_on(Key::X) is Some && letter_on(
                Key::Z,
            ) is Some);
        }
    }
}

/// A held key never repeats into the phone with Command down, whatever the key.
pub proof fn law_command_never_repeats(event: KeyDown)
    requires
        with_command(event),
        event.repeat,
    ensures
        key_decision(event) == KeyDecision::Swallow,
{
}

/// Text that reaches the phone from a key-down event is what the keyboard layout
/// gave, and not all of it is control characters.
pub proof fn law_typed_text_is_printable(event: KeyDown)
    ensures
        key_decision(event) matches KeyDecision::Type(text) ==> {
            &&& event.characters == Some(text)
            &&& has_printable(text@)
            &&& !with_command(event)
        },
{
}

/// An event that says something to the phone, or that asks for a paste, does not reach
/// the system any more.
pub proof fn law_handled_events_are_swallowed(event: KeyDown)
    requires
        decision_message(key_decision(event)) is Some || key_decision(event) == KeyDecision::Run(
            Command::PasteClipboard,
        ),
    ensures
        key_decision(event) !is PassOn,
{
}

/// Everything else is text: without Command, a key that is neither Esc nor an editing key
/// types exactly the characters that the keyboard layout gave, if one of them is not a
/// control character, whatever the key code, the repeat flag and the other modifiers. If
/// all of them are, or there are none, the event is left to the system.
pub proof fn law_other_keys_type_their_characters(event: KeyDown, text: String)
    requires
        (event.flags / 0x10_0000) % 2 == 0,
        event.keycode != 53,
        event.keycode != 36 && event.keycode != 76,
        event.keycode != 51,
        event.keycode != 48,
        event.keycode != 123 && event.keycode != 124,
        event.keycode != 125 && event.keycode != 126,
    ensures
        forall|k: int|
            #![trigger text@[k]]
            event.characters == Some(text) && 0 <= k < text@.len() && 0x20 <= text@[k] as u32 && (
            text@[k] as u32 <= 0x7e || 0xa0 <= text@[k] as u32) ==> key_decision(event)
                == KeyDecision::Type(text),
        event.characters == Some(text) && (forall|k: int|
            #![trigger text@[k]]
            0 <= k < text@.len() ==> text@[k] as u32 <= 0x1f || 0x7f <= text@[k] as u32 <= 0x9f)
            ==> key_decision(event) == KeyDecision::PassOn,
        event.characters is None ==> key_decision(event) == KeyDecision::PassOn,
{
}

/// Without Command, Esc goes back and the editing keys press themselves, whatever
/// characters they come with, held or not.
pub proof fn law_keycodes_act_by_themselves(event: KeyDown)
    requires
        (event.flags / 0x10_0000) % 2 == 0,
    ensures
        event.keycode == 53 ==> key_decision(event) == KeyDecision::Run(
            Command::Action(SystemAction::Back),
        ),
        event.keycode == 36 || event.keycode == 76 ==> key_decision(event) == KeyDecision::Run(
            Command::Key(KeyCode::Enter),
        ),
        event.keycode == 51 ==> key_decision(event) == KeyDecision::Run(
            Command::Key(KeyCode::Backspace),
        ),
        event.keycode == 48 ==> key_decision(event) == KeyDecision::Run(
            Command::Key(KeyCode::Tab),
        ),
        event.keycode == 123 ==> key_decision(event) == KeyDecision::Run(
            Command::Key(KeyCode::Left),
        ),
        event.keycode == 124 ==> key_decision(event) == KeyDecision::Run(
            Command::Key(KeyCode::Right),
        ),
        event.keycode == 125 ==> key_decision(event) == KeyDecision::Run(
            Command::Key(KeyCode::Down),
        ),
        event.keycode == 126 ==> key_decision(event) == KeyDecision::Run(
            Command::Key(KeyCode::Up),
        ),
{
}

/// With Command, a fresh press acts by its character alone, whatever the key code, the
/// text and the other modifiers: nine letters, in either case, are shortcuts, every
/// other character is left to the system, and a held key is dropped.
pub proof fn law_command_acts_by_character(event: KeyDown, unit: u16)
    requires
        (event.flags / 0x10_0000) % 2 == 1,
    ensures
        event.repeat ==> key_decision(event) == KeyDecision::Swallow,
        !event.repeat && event.unmodified is None ==> key_decision(event) == KeyDecision::PassOn,
        !event.repeat && event.unmodified == Some(unit) ==> {
            &&& unit == 0x6a || unit == 0x4a ==> key_decision(event) == KeyDecision::Run(
                Command::Action(SystemAction::Home),
            )
            &&& unit == 0x6c || unit == 0x4c ==> key_decision(event) == KeyDecision::Run(
                Command::Action(SystemAction::Lock),
            )
            &&& unit == 0x74 || unit == 0x54 ==> key_decision(event) == KeyDecision::Run(
                Command::Action(SystemAction::AppSwitcher),
            )
            &&& unit == 0x72 || unit == 0x52 ==> key_decision(event) == KeyDecision::Run(
                Command::Action(SystemAction::RotateLeft),
            )
            &&& unit == 0x61 || unit == 0x41 ==> key_decision(event) == KeyDecision::Run(
                Command::Key(KeyCode::SelectAll),
            )
            &&& unit == 0x63 || unit == 0x43 ==> key_decision(event) == KeyDecision::Run(
                Command::Key(KeyCode::Copy),
            )
            &&& unit == 0x76 || unit == 0x56 ==> key_decision(event) == KeyDecision::Run(
                Command::PasteClipboard,
            )
            &&& unit == 0x78 || unit == 0x58 ==> key_decision(event) == KeyDecision::Run(
                Command::Key(KeyCode::Cut),
            )
            &&& unit == 0x7a || unit == 0x5a ==> key_decision(event) == KeyDecision::Run(
                Command::Key(KeyCode::Undo),
            )
            &&& !seq![
                0x6au16,
                0x4a,
                0x6c,
                0x4c,
                0x74,
                0x54,
                0x72,
                0x52,
                0x61,
                0x41,
                0x63,
                0x43,
                0x76,
                0x56,
                0x78,
                0x58,
                0x7a,
                0x5a,
            ].contains(unit) ==> key_decision(event) == KeyDecision::PassOn
        },
{
    let letters = seq![
        0x6au16,
        0x4a,
        0x6c,
        0x4c,
        0x74,
        0x54,
        0x72,
        0x52,
        0x61,
        0x41,
        0x63,
        0x43,
        0x76,
        0x56,
        0x78,
        0x58,
        0x7a,
        0x5a,
    ];
    assert(letters[0] == 0x6a && letters[1] == 0x4a && letters[2] == 0x6c && letters[3] == 0x4c);
    assert(letters[4] == 0x74 && letters[5] == 0x54 && letters[6] == 0x72 && letters[7] == 0x52);
    assert(letters[8] == 0x61 && letters[9] == 0x41 && letters[10] == 0x63 && letters[11] == 0x43);
    assert(letters[12] == 0x76 && letters[13] == 0x56 && letters[14] == 0x78 && letters[15]
        == 0x58);
    assert(letters[16] == 0x7a && letters[17] == 0x5a);
}

/// What a decision says to the phone: a system action says itself, an editing key says
/// itself, text says itself, and nothing else speaks; a paste waits for the clipboard.
pub proof fn law_decisions_say_themselves(action: SystemAction, code: KeyCode, text: String)
    ensures
        command_message(Command::Action(action)) == Some(Message::System(action)),
        command_message(Command::Key(code)) == Some(Message::Key(code)),
        command_message(Command::PasteClipboard) is None,
        decision_message(KeyDecision::Run(Command::Action(action))) == Some(
            Message::System(action),
        ),
        decision_message(KeyDecision::Run(Command::Key(code))) == Some(Message::Key(code)),
        decision_message(KeyDecision::Run(Command::PasteClipboard)) is None,
        decision_message(KeyDecision::Type(text)) == Some(Message::Text(text@)),
        decision_message(KeyDecision::PassOn) is None,
        decision_message(KeyDecision::Swallow) is None,
{
}

/// The characters that are dropped rather than typed, and the numbers that are characters.
pub proof fn law_control_characters(c: char, code: u32, text: Seq<char>)
    ensures
        has_printable(text) <==> !(forall|k: int|
            #![trigger text[k]]
            0 <= k < text.len() ==> text[k] as u32 <= 0x1f || 0x7f <= text[k] as u32 <= 0x9f),
        is_control_spec(c) <==> 0x20 > c as u32 || (0x7f <= c as u32 && 0xa0 > c as u32),
        is_scalar_value(code) <==> code < 0xd800 || 0xdfff < code < 0x11_0000,
        code < 0xd800 || 0xdfff < code < 0x11_0000 ==> (code as char) as u32 == code,
{
}

/// The keys due are heard in every frame without Ctrl: one more of them at the end of the
/// list gives one more command at the end, that of a repeating key, whatever keys were
/// newly pressed, none included, and whatever is due before it. Other keys give none.
pub proof fn law_due_keys_are_heard(pressed: Seq<Key>, due: Seq<Key>, key: Key)
    ensures
        ({
            let before = frame_commands(false, pressed, due);
            let after = frame_commands(false, pressed, due.push(key));
            &&& key == Key::Backspace ==> after == before.push(Command::Key(KeyCode::Backspace))
            &&& key == Key::Left ==> after == before.push(Command::Key(KeyCode::Left))
            &&& key == Key::Right ==> after == before.push(Command::Key(KeyCode::Right))
            &&& key == Key::Up ==> after == before.push(Command::Key(KeyCode::Up))
            &&& key == Key::Down ==> after == before.push(Command::Key(KeyCode::Down))
            &&& key != Key::Backspace && key != Key::Left && key != Key::Right && key != Key::Up
                && key != Key::Down ==> after == before
        }),
        frame_commands(false, Seq::empty(), Seq::empty()) == Seq::<Command>::empty(),
        frame_commands(false, Seq::empty(), seq![Key::Backspace]) == seq![
            Command::Key(KeyCode::Backspace),
        ],
{
    assert(due.push(key).drop_last() =~= due);
    assert(seq![Key::Backspace].drop_last() =~= Seq::<Key>::empty());
    reveal_with_fuel(commands_of, 2);
    assert(frame_commands(false, Seq::empty(), seq![Key::Backspace]) =~= seq![
        Command::Key(KeyCode::Backspace),
    ]);
    assert(frame_commands(false, Seq::empty(), Seq::empty()) =~= Seq::<Command>::empty());
    match repeating_key(key) {
        Some(command) => {
            assert(frame_commands(false, pressed, due.push(key)) =~= frame_commands(
                false,
                pressed,
                due,
            ).push(command));
        },
        None => {},
    }
}

/// A newly pressed key acts behind those pressed before it: with Ctrl it is a shortcut or
/// nothing, without Ctrl it goes back, presses Enter or Tab, or does nothing.
pub proof fn law_pressed_keys_are_heard(ctrl: bool, pressed: Seq<Key>, key: Key)
    ensures
        ({
            let before = frame_commands(ctrl, pressed, Seq::empty());
            let after = frame_commands(ctrl, pressed.push(key), Seq::empty());
            match (ctrl, key) {
                (true, Key::J) => after == before.push(Command::Action(SystemAction::Home)),
                (true, Key::L) => after == before.push(Command::Action(SystemAction::Lock)),
                (true, Key::T) => after == before.push(Command::Action(SystemAction::AppSwitcher)),
                (true, Key::R) => after == before.push(Command::Action(SystemAction::RotateLeft)),
                (true, Key::A) => after == before.push(Command::Key(KeyCode::SelectAll)),
                (true, Key::C) => after == before.push(Command::Key(KeyCode::Copy)),
                (true, Key::V) => after == before.push(Command::PasteClipboard),
                (true, Key::X) => after == before.push(Command::Key(KeyCode::Cut)),
                (true, Key::Z) => after == before.push(Command::Key(KeyCode::Undo)),
                (false, Key::Escape) => after == before.push(Command::Action(SystemAction::Back)),
                (false, Key::Enter) => after == before.push(Command::Key(KeyCode::Enter)),
                (false, Key::NumPadEnter) => after == before.push(Command::Key(KeyCode::Enter)),
                (false, Key::Tab) => after == before.push(Command::Key(KeyCode::Tab)),
                _ => after == before,
            }
        }),
        frame_commands(ctrl, Seq::empty(), Seq::empty()) == Seq::<Command>::empty(),
{
    assert(pressed.push(key).drop_last() =~= pressed);
    assert(frame_commands(ctrl, Seq::empty(), Seq::empty()) =~= Seq::<Command>::empty());
    let before = frame_commands(ctrl, pressed, Seq::empty());
    let after = frame_commands(ctrl, pressed.push(key), Seq::empty());
    match pressed_key(ctrl, key) {
        Some(command) => {
            assert(after =~= before.push(command));
        },
        None => {},
    }
}

/// The commands of a frame are those of the newly pressed keys and then those of the keys
/// due: neither list changes what the other gives. With Ctrl the keys due give nothing.
pub proof fn law_pressed_then_due(ctrl: bool, pressed: Seq<Key>, due: Seq<Key>)
    ensures
        frame_commands(ctrl, pressed, due) == frame_commands(ctrl, pressed, Seq::empty())
            + frame_commands(ctrl, Seq::empty(), due),
        frame_commands(true, Seq::empty(), due) == Seq::<Command>::empty(),
        frame_commands(true, pressed, due) == frame_commands(true, pressed, Seq::empty()),
{
    let none = Seq::<Key>::empty();
    assert(frame_commands(true, none, due) =~= Seq::<Command>::empty());
    assert(frame_commands(ctrl, pressed, due) =~= frame_commands(ctrl, pressed, none)
        + frame_commands(ctrl, none, due));
    assert(frame_commands(true, pressed, due) =~= frame_commands(true, pressed, none));
}

/// Each Ctrl key is tracked by itself, and no other key is; either of them holds text back.
pub proof fn law_ctrl_keys_are_tracked(f: TextForwarder, key: Key, state: bool)
    ensures
        forwarder_next(f, Key::LeftCtrl, state) == (TextForwarder { left: state, right: f.right }),
        forwarder_next(f, Key::RightCtrl, state) == (TextForwarder { left: f.left, right: state }),
        key != Key::LeftCtrl && key != Key::RightCtrl ==> forwarder_next(f, key, state) == f,
        no_keys_down() == (TextForwarder { left: false, right: false }),
        f.ctrl() <==> f.left || f.right,
{
}

/// Where a key gives a command exactly if `hit` picks it out, and then `give` of it, the
/// commands of a list of keys are those that `give` gives for the keys picked out.
proof fn lemma_commands_filtered(
    keys: Seq<Key>,
    of: spec_fn(Key) -> Option<Command>,
    hit: spec_fn(Key) -> bool,
    give: spec_fn(Key) -> Command,
)
    requires
        forall|key: Key| #[trigger]
            of(key) == (if hit(key) {
                Some(give(key))
            } else {
                None
            }),
    ensures
        commands_of(keys, of) == keys.filter(hit).map_values(give),
    decreases keys.len(),
{
    reveal(Seq::filter);
    if keys.len() > 0 {
        lemma_commands_filtered(keys.drop_last(), of, hit, give);
        let before = keys.drop_last().filter(hit);
        assert(before.push(keys.last()).map_values(give) =~= before.map_values(give).push(
            give(keys.last()),
        ));
    }
    assert(commands_of(keys, of) =~= keys.filter(hit).map_values(give));
}

/// One frame, key by key. Without Ctrl it is the newly pressed Esc, Enter and Tab keys in
/// their order, and then the Backspace and arrow keys among the keys due in theirs, one
/// command each. With Ctrl it is the newly pressed shortcut letters in their order.
pub proof fn law_frame_in_order(ctrl: bool, pressed: Seq<Key>, due: Seq<Key>)
    ensures
        !ctrl ==> frame_commands(ctrl, pressed, due) == pressed.filter(
            |key: Key|
                key == Key::Escape || key == Key::Enter || key == Key::NumPadEnter || key
                    == Key::Tab,
        ).map_values(
            |key: Key|
                if key == Key::Escape {
                    Command::Action(SystemAction::Back)
                } else if key == Key::Tab {
                    Command::Key(KeyCode::Tab)
                } else {
                    Command::Key(KeyCode::Enter)
                },
        ) + due.filter(
            |key: Key|
                key == Key::Backspace || key == Key::Left || key == Key::Right || key == Key::Up
                    || key == Key::Down,
        ).map_values(
            |key: Key|
                if key == Key::Backspace {
                    Command::Key(KeyCode::Backspace)
                } else if key == Key::Left {
                    Command::Key(KeyCode::Left)
                } else if key == Key::Right {
                    Command::Key(KeyCode::Right)
                } else if key == Key::Up {
                    Command::Key(KeyCode::Up)
                } else {
                    Command::Key(KeyCode::Down)
                },
        ),
        ctrl ==> frame_commands(ctrl, pressed, due) == pressed.filter(
            |key: Key|
                key == Key::J || key == Key::L || key == Key::T || key == Key::R || key == Key::A
                    || key == Key::C || key == Key::V || key == Key::X || key == Key::Z,
        ).map_values(
            |key: Key|
                if key == Key::J {
                    Command::Action(SystemAction::Home)
                } else if key == Key::L {
                    Command::Action(SystemAction::Lock)
                } else if key == Key::T {
                    Command::Action(SystemAction::AppSwitcher)
                } else if key == Key::R {
                    Command::Action(SystemAction::RotateLeft)
                } else if key == Key::A {
                    Command::Key(KeyCode::SelectAll)
                } else if key == Key::C {
                    Command::Key(KeyCode::Copy)
                } else if key == Key::V {
                    Command::PasteClipboard
                } else if key == Key::X {
                    Command::Key(KeyCode::Cut)
                } else {
                    Command::Key(KeyCode::Undo)
                },
        ),
{
    if ctrl {
        let hit = |key: Key|
            key == Key::J || key == Key::L || key == Key::T || key == Key::R || key == Key::A
                || key == Key::C || key == Key::V || key == Key::X || key == Key::Z;
        let give = |key: Key|
            if key == Key::J {
                Command::Action(SystemAction::Home)
            } else if key == Key::L {
                Command::Action(SystemAction::Lock)
            } else if key == Key::T {
                Command::Action(SystemAction::AppSwitcher)
            } else if key == Key::R {
                Command::Action(SystemAction::RotateLeft)
            } else if key == Key::A {
                Command::Key(KeyCode::SelectAll)
            } else if key == Key::C {
                Command::Key(KeyCode::Copy)
            } else if key == Key::V {
                Command::PasteClipboard
            } else if key == Key::X {
                Command::Key(KeyCode::Cut)
            } else {
                Command::Key(KeyCode::Undo)
            };
        lemma_commands_filtered(pressed, |key: Key| pressed_key(ctrl, key), hit, give);
        assert(frame_commands(ctrl, pressed, due) =~= pressed.filter(hit).map_values(give));
    } else {
        let hit = |key: Key|
            key == Key::Escape || key == Key::Enter || key == Key::NumPadEnter || key
                == Key::Tab;
        let give = |key: Key|
            if key == Key::Escape {
                Command::Action(SystemAction::Back)
            } else if key == Key::Tab {
                Command::Key(KeyCode::Tab)
            } else {
                Command::Key(KeyCode::Enter)
            };
        lemma_commands_filtered(pressed, |key: Key| pressed_key(ctrl, key), hit, give);
        let due_hit = |key: Key|
            key == Key::Backspace || key == Key::Left || key == Key::Right || key == Key::Up
                || key == Key::Down;
        let due_give = |key: Key|
            if key == Key::Backspace {
                Command::Key(KeyCode::Backspace)
            } else if key == Key::Left {
                Command::Key(KeyCode::Left)
            } else if key == Key::Right {
                Command::Key(KeyCode::Right)
            } else if key == Key::Up {
                Command::Key(KeyCode::Up)
            } else {
                Command::Key(KeyCode::Down)
            };
        lemma_commands_filtered(due, |key: Key| repeating_key(key), due_hit, due_give);
    }
}

} // verus!
