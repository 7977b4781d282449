use ioscpy_window::keys::{
    handle_key_down, is_control, is_typed, key_down, pump_keys, run_command, Command, Key,
    KeyDecision, KeyDown, TextForwarder,
};
use ioscpy_window::protocol::{InputFrame, KeyCode, Outbox, SystemAction};

const CMD: u64 = 1 << 20;

fn cmd(letter: char) -> KeyDown {
    KeyDown {
        flags: CMD,
        repeat: false,
        unmodified: Some(letter as u16),
        keycode: 0,
        characters: Some(letter.to_string()),
    }
}

fn plain(keycode: u16, characters: Option<&str>) -> KeyDown {
    KeyDown {
        flags: 0,
        repeat: false,
        unmodified: None,
        keycode,
        characters: characters.map(|s| s.to_string()),
    }
}

#[test]
fn command_letters_are_shortcuts_in_either_case() {
    let table = [
        ('j', Command::Action(SystemAction::Home)),
        ('l', Command::Action(SystemAction::Lock)),
        ('t', Command::Action(SystemAction::AppSwitcher)),
        ('r', Command::Action(SystemAction::RotateLeft)),
        ('a', Command::Key(KeyCode::SelectAll)),
        ('c', Command::Key(KeyCode::Copy)),
        ('v', Command::PasteClipboard),
        ('x', Command::Key(KeyCode::Cut)),
        ('z', Command::Key(KeyCode::Undo)),
    ];
    for (letter, command) in table {
        assert_eq!(key_down(cmd(letter)), KeyDecision::Run(command));
        assert_eq!(key_down(cmd(letter.to_ascii_uppercase())), KeyDecision::Run(command));
    }
}

#[test]
fn other_command_letters_are_passed_on() {
    for letter in 'a'..='z' {
        if !"jltracvxz".contains(letter) {
            assert_eq!(key_down(cmd(letter)), KeyDecision::PassOn);
        }
    }
    let mut bare = cmd('j');
    bare.unmodified = None;
    assert_eq!(key_down(bare), KeyDecision::PassOn);
}

#[test]
fn command_looks_at_the_whole_character() {
    // Each of these has a shortcut letter for its low byte.
    for unit in [0x016a, 0x0441, 0x044a, 0xff56, 0x80 + 0x6a] {
        let mut event = cmd('j');
        event.unmodified = Some(unit);
        let mut tx = Outbox::new();
        let outcome = handle_key_down(event, &mut tx);
        assert!(!outcome.swallowed);
        assert!(!outcome.paste);
        assert!(tx.drain().is_empty());
        let mut event = cmd('j');
        event.unmodified = Some(unit);
        assert_eq!(key_down(event), KeyDecision::PassOn);
    }
}

#[test]
fn command_is_one_flag_among_others() {
    let mut event = cmd('c');
    event.flags = CMD | (1 << 17) | 0x108;
    assert_eq!(key_down(event), KeyDecision::Run(Command::Key(KeyCode::Copy)));
    let mut event = cmd('c');
    event.flags = (1 << 19) | (1 << 21);
    assert_eq!(key_down(event), KeyDecision::Type("c".to_string()));
}

#[test]
fn held_command_combinations_are_swallowed() {
    for letter in ['j', 'v', 'q'] {
        let mut event = cmd(letter);
        event.repeat = true;
        let mut tx = Outbox::new();
        let outcome = handle_key_down(event, &mut tx);
        assert!(outcome.swallowed);
        assert!(!outcome.paste);
        assert!(tx.drain().is_empty());
    }
}

#[test]
fn editing_keys_by_virtual_code() {
    let table = [
        (36, KeyCode::Enter),
        (76, KeyCode::Enter),
        (51, KeyCode::Backspace),
        (48, KeyCode::Tab),
        (123, KeyCode::Left),
        (124, KeyCode::Right),
        (125, KeyCode::Down),
        (126, KeyCode::Up),
    ];
    for (keycode, code) in table {
        assert_eq!(key_down(plain(keycode, Some("\r"))), KeyDecision::Run(Command::Key(code)));
    }
    assert_eq!(
        key_down(plain(53, Some("\u{1b}"))),
        KeyDecision::Run(Command::Action(SystemAction::Back))
    );
}

#[test]
fn a_held_editing_key_repeats() {
    let mut event = plain(51, None);
    event.repeat = true;
    assert_eq!(key_down(event), KeyDecision::Run(Command::Key(KeyCode::Backspace)));
}

#[test]
fn the_rest_is_text() {
    assert_eq!(key_down(plain(0, Some("é"))), KeyDecision::Type("é".to_string()));
    assert_eq!(key_down(plain(0, Some("\u{1}x"))), KeyDecision::Type("\u{1}x".to_string()));
    assert_eq!(key_down(plain(0, Some(""))), KeyDecision::PassOn);
    assert_eq!(key_down(plain(0, Some("\u{1}\u{7f}\u{85}"))), KeyDecision::PassOn);
    assert_eq!(key_down(plain(0, None)), KeyDecision::PassOn);
}

#[test]
fn handling_a_key_sends_what_it_decided() {
    let mut tx = Outbox::new();
    let home = handle_key_down(cmd('j'), &mut tx);
    let copy = handle_key_down(cmd('C'), &mut tx);
    let paste = handle_key_down(cmd('v'), &mut tx);
    let text = handle_key_down(plain(0, Some("hi")), &mut tx);
    let other = handle_key_down(cmd('q'), &mut tx);
    assert!(home.swallowed && copy.swallowed && paste.swallowed && text.swallowed);
    assert!(!other.swallowed);
    assert!(paste.paste);
    assert!(!home.paste && !copy.paste && !text.paste && !other.paste);
    assert_eq!(
        tx.drain(),
        vec![
            InputFrame::System(SystemAction::Home),
            InputFrame::Key(KeyCode::Copy),
            InputFrame::Text("hi".to_string()),
        ]
    );
}

#[test]
fn control_characters_are_those_of_unicode() {
    for code in 0..=0x10ffffu32 {
        if let Some(c) = char::from_u32(code) {
            assert_eq!(is_control(c), c.is_control());
        }
    }
}

#[test]
fn text_with_one_printable_character_is_typed() {
    assert!(is_typed("\u{0}a"));
    assert!(is_typed("a\u{0}"));
    assert!(!is_typed("\u{0}\u{1f}"));
    assert!(!is_typed(""));
}

#[test]
fn ctrl_shortcuts_match_command_shortcuts() {
    let keys = [
        (Key::A, 'a'),
        (Key::C, 'c'),
        (Key::J, 'j'),
        (Key::L, 'l'),
        (Key::R, 'r'),
        (Key::T, 't'),
        (Key::V, 'v'),
        (Key::X, 'x'),
        (Key::Z, 'z'),
    ];
    for (key, letter) in keys {
        let commands = pump_keys(true, false, &vec![key], &vec![key]);
        assert_eq!(commands.len(), 1);
        assert_eq!(key_down(cmd(letter)), KeyDecision::Run(commands[0]));
    }
}

#[test]
fn single_keys_then_repeating_keys() {
    let pressed = vec![Key::Left, Key::Escape, Key::J, Key::NumPadEnter, Key::Tab];
    let due = vec![Key::Left, Key::Escape, Key::Backspace, Key::Up];
    assert_eq!(
        pump_keys(false, false, &pressed, &due),
        vec![
            Command::Action(SystemAction::Back),
            Command::Key(KeyCode::Enter),
            Command::Key(KeyCode::Tab),
            Command::Key(KeyCode::Left),
            Command::Key(KeyCode::Backspace),
            Command::Key(KeyCode::Up),
        ]
    );
}

#[test]
fn ctrl_silences_editing_and_repeating_keys() {
    let keys = vec![Key::Escape, Key::Enter, Key::Tab, Key::Backspace, Key::Left, Key::Other];
    assert_eq!(pump_keys(true, false, &keys, &keys), vec![]);
    assert_eq!(
        pump_keys(true, false, &vec![Key::C, Key::Left, Key::V], &vec![Key::Left]),
        vec![Command::Key(KeyCode::Copy), Command::PasteClipboard]
    );
}

#[test]
fn a_fresh_key_acts_once() {
    for key in [Key::Backspace, Key::Down, Key::Right, Key::Enter, Key::Escape, Key::Tab] {
        assert_eq!(pump_keys(false, false, &vec![key], &vec![key]).len(), 1);
    }
}

#[test]
fn commands_speak_to_the_phone() {
    let mut tx = Outbox::new();
    assert!(!run_command(&mut tx, Command::Action(SystemAction::Lock)));
    assert!(!run_command(&mut tx, Command::Key(KeyCode::Undo)));
    assert!(run_command(&mut tx, Command::PasteClipboard));
    assert_eq!(
        tx.drain(),
        vec![InputFrame::System(SystemAction::Lock), InputFrame::Key(KeyCode::Undo)]
    );
}

#[test]
fn typed_characters_are_forwarded() {
    let mut tx = Outbox::new();
    let forwarder = TextForwarder::new();
    forwarder.add_char('a' as u32, &mut tx);
    forwarder.add_char('ñ' as u32, &mut tx);
    forwarder.add_char(0x1f600, &mut tx);
    assert_eq!(
        tx.drain(),
        vec![
            InputFrame::Text("a".to_string()),
            InputFrame::Text("ñ".to_string()),
            InputFrame::Text("\u{1f600}".to_string()),
        ]
    );
}

#[test]
fn codes_that_are_no_character_are_dropped() {
    let mut tx = Outbox::new();
    let forwarder = TextForwarder::new();
    for code in [0x03, 0x7f, 0x9f, 0xd800, 0xdfff, 0x110000, u32::MAX] {
        forwarder.add_char(code, &mut tx);
    }
    assert!(tx.drain().is_empty());
    forwarder.add_char(0xd7ff, &mut tx);
    forwarder.add_char(0xe000, &mut tx);
    forwarder.add_char(0x10ffff, &mut tx);
    assert_eq!(tx.drain().len(), 3);
}

#[test]
fn nothing_is_typed_while_ctrl_is_held() {
    let mut tx = Outbox::new();
    let mut forwarder = TextForwarder::new();
    forwarder.set_key_state(Key::RightCtrl, true);
    forwarder.set_key_state(Key::C, true);
    forwarder.add_char('c' as u32, &mut tx);
    assert!(tx.drain().is_empty());
    forwarder.set_key_state(Key::C, false);
    assert!(forwarder.right);
    forwarder.set_key_state(Key::RightCtrl, false);
    forwarder.add_char('c' as u32, &mut tx);
    assert_eq!(tx.drain(), vec![InputFrame::Text("c".to_string())]);
}

#[test]
fn nothing_is_typed_while_either_ctrl_is_held() {
    let orders = [(Key::LeftCtrl, Key::RightCtrl), (Key::RightCtrl, Key::LeftCtrl)];
    for (first, second) in orders {
        let mut tx = Outbox::new();
        let mut forwarder = TextForwarder::new();
        forwarder.set_key_state(first, true);
        forwarder.set_key_state(second, true);
        forwarder.set_key_state(first, false);
        forwarder.add_char(0x63, &mut tx);
        assert!(tx.drain().is_empty());
        forwarder.set_key_state(second, false);
        forwarder.add_char(0x63, &mut tx);
        assert_eq!(tx.drain(), vec![InputFrame::Text("c".to_string())]);
    }
}

#[test]
fn a_forwarder_knows_both_ctrl_keys() {
    let mut forwarder = TextForwarder::new();
    assert_eq!(forwarder, TextForwarder { left: false, right: false });
    forwarder.set_key_state(Key::LeftCtrl, true);
    assert_eq!(forwarder, TextForwarder { left: true, right: false });
    forwarder.set_key_state(Key::RightCtrl, true);
    forwarder.set_key_state(Key::Other, false);
    assert_eq!(forwarder, TextForwarder { left: true, right: true });
}

#[test]
fn either_ctrl_key_makes_a_shortcut() {
    let keys = vec![Key::C, Key::Left];
    for (left, right) in [(true, false), (false, true), (true, true)] {
        assert_eq!(pump_keys(left, right, &keys, &keys), vec![Command::Key(KeyCode::Copy)]);
    }
    assert_eq!(pump_keys(false, false, &keys, &keys), vec![Command::Key(KeyCode::Left)]);
}
