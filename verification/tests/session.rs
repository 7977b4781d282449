use ioscpy_window::frame::DecodedFrame;
use ioscpy_window::icon::{set_app_icon, IconStep};
use ioscpy_window::keys::{Command, Key};
use ioscpy_window::protocol::{InputFrame, KeyCode, Outbox, Point, TouchPhase};
use ioscpy_window::session::{
    new_session, run_window, Action, Event, Exit, Phase, Session, WindowError,
};
use ioscpy_window::touch::{pump_input, InputState, PointerReading};

/// The time at which the turns of a running session began.
const START: u64 = 7_000_123;

const MS: u64 = 1_000_000;

fn frame(width: usize, height: usize, tag: u32) -> DecodedFrame {
    DecodedFrame { width, height, buf: vec![tag; width * height] }
}

fn at(x: f32, y: f32) -> Point {
    Point { x: x.to_bits(), y: y.to_bits() }
}

fn press(x: f32, y: f32, moved: bool) -> PointerReading {
    PointerReading { down: true, at: Some(at(x, y)), moved }
}

fn release() -> PointerReading {
    PointerReading { down: false, at: None, moved: false }
}

fn touch(phase: TouchPhase, x: f32, y: f32) -> InputFrame {
    InputFrame::Touch { phase, finger: 0, at: at(x, y) }
}

/// A session at the head of its first turn, showing a 10 by 20 frame.
fn running(reads_keys: bool) -> (Session, Outbox) {
    let (mut session, first) = new_session(reads_keys);
    let mut tx = Outbox::new();
    assert!(matches!(first, Action::ReadClock));
    let clock = Event::Clock { stopped: false, now_ns: 0 };
    assert!(matches!(run_window(&mut session, clock, &mut tx), Action::TakeFrame));
    let action = run_window(&mut session, Event::Frame(Some(frame(10, 20, 1))), &mut tx);
    assert!(matches!(action, Action::OpenWindow { width: 10, height: 20, long: 20, short: 10 }));
    assert!(matches!(run_window(&mut session, Event::Opened(true), &mut tx), Action::SetUpInput));
    let ready = Event::Ready { now_ns: START };
    assert!(matches!(run_window(&mut session, ready, &mut tx), Action::ReadStatus));
    (session, tx)
}

fn go_on(session: &mut Session, tx: &mut Outbox) {
    let status = Event::Status { open: true, stopped: false };
    assert!(matches!(run_window(session, status, tx), Action::TakeFrame));
}

fn exit_of(action: Action) -> Exit {
    match action {
        Action::Exit(exit) => exit,
        other => panic!("{:?}", other),
    }
}

#[test]
fn waiting_rests_between_looks() {
    let (mut session, _) = new_session(false);
    let mut tx = Outbox::new();
    for now_ns in [0, 20 * MS, 20_000 * MS - 1] {
        let clock = Event::Clock { stopped: false, now_ns };
        assert!(matches!(run_window(&mut session, clock, &mut tx), Action::TakeFrame));
        let action = run_window(&mut session, Event::Frame(None), &mut tx);
        assert!(matches!(action, Action::Sleep { ms: 20 }));
        assert!(matches!(run_window(&mut session, Event::Done, &mut tx), Action::ReadClock));
    }
}

#[test]
fn waiting_ends_on_a_stop_or_a_timeout() {
    for (stopped, now_ns) in [(true, 0), (false, 20_000 * MS), (true, 30_000 * MS)] {
        let (mut session, _) = new_session(true);
        let mut tx = Outbox::new();
        let action = run_window(&mut session, Event::Clock { stopped, now_ns }, &mut tx);
        assert_eq!(exit_of(action), Exit { raise_stop: false, error: None });
        assert_eq!(session.phase, Phase::Ended);
    }
}

#[test]
fn a_first_window_that_does_not_open_is_an_error() {
    let (mut session, _) = new_session(true);
    let mut tx = Outbox::new();
    run_window(&mut session, Event::Clock { stopped: false, now_ns: 0 }, &mut tx);
    run_window(&mut session, Event::Frame(Some(frame(4, 3, 0))), &mut tx);
    let action = run_window(&mut session, Event::Opened(false), &mut tx);
    assert_eq!(exit_of(action), Exit { raise_stop: false, error: Some(WindowError::Open) });
}

#[test]
fn a_turn_with_keys() {
    let (mut session, mut tx) = running(true);
    go_on(&mut session, &mut tx);
    let action = run_window(&mut session, Event::Frame(None), &mut tx);
    assert!(matches!(action, Action::ReadPointer));
    let action = run_window(&mut session, Event::Pointer(release()), &mut tx);
    assert!(matches!(action, Action::ReadKeys));
    let keys = Event::Keys {
        left_ctrl: false,
        right_ctrl: true,
        pressed: vec![Key::A, Key::V],
        repeating: vec![Key::Up],
    };
    match run_window(&mut session, keys, &mut tx) {
        Action::RunCommands(commands) => assert_eq!(
            commands,
            vec![Command::Key(KeyCode::SelectAll), Command::PasteClipboard]
        ),
        other => panic!("{:?}", other),
    }
    assert!(matches!(run_window(&mut session, Event::Done, &mut tx), Action::Present));
    let action = run_window(&mut session, Event::Presented(true), &mut tx);
    assert!(matches!(action, Action::ReadTime));
    let action = run_window(&mut session, Event::Now { now_ns: START + 300 * MS - 1 }, &mut tx);
    assert!(matches!(action, Action::ReadInbox));
    let action = run_window(&mut session, Event::Inbox(None), &mut tx);
    assert!(matches!(action, Action::ReadStatus));
    assert_eq!(session.current, Some(frame(10, 20, 1)));
    assert!(tx.drain().is_empty());
}

#[test]
fn a_turn_without_keys_polls_and_empties_the_inbox() {
    let (mut session, mut tx) = running(false);
    go_on(&mut session, &mut tx);
    run_window(&mut session, Event::Frame(Some(frame(10, 20, 2))), &mut tx);
    let action = run_window(&mut session, Event::Pointer(release()), &mut tx);
    assert!(matches!(action, Action::Present));
    run_window(&mut session, Event::Presented(true), &mut tx);
    let action = run_window(&mut session, Event::Now { now_ns: START + 300 * MS }, &mut tx);
    assert!(matches!(action, Action::PollClipboard));
    assert!(matches!(run_window(&mut session, Event::Done, &mut tx), Action::ReadInbox));
    for text in ["one", "two"] {
        match run_window(&mut session, Event::Inbox(Some(text.to_string())), &mut tx) {
            Action::ApplyRemote(received) => assert_eq!(received, text),
            other => panic!("{:?}", other),
        }
        assert!(matches!(run_window(&mut session, Event::Done, &mut tx), Action::ReadInbox));
    }
    let action = run_window(&mut session, Event::Inbox(None), &mut tx);
    assert!(matches!(action, Action::ReadStatus));
    assert_eq!(session.current, Some(frame(10, 20, 2)));
}

#[test]
fn a_turned_phone_reopens_the_window_once() {
    let (mut session, mut tx) = running(false);
    go_on(&mut session, &mut tx);
    let action = run_window(&mut session, Event::Frame(Some(frame(20, 10, 2))), &mut tx);
    assert!(matches!(action, Action::ReopenWindow { width: 20, height: 10, long: 20, short: 10 }));
    assert_eq!(session.last_dims, (20, 10));
    let action = run_window(&mut session, Event::Opened(false), &mut tx);
    assert!(matches!(action, Action::ReadPointer));
    run_window(&mut session, Event::Pointer(release()), &mut tx);
    run_window(&mut session, Event::Presented(true), &mut tx);
    run_window(&mut session, Event::Now { now_ns: START }, &mut tx);
    run_window(&mut session, Event::Inbox(None), &mut tx);
    go_on(&mut session, &mut tx);
    let action = run_window(&mut session, Event::Frame(Some(frame(20, 10, 3))), &mut tx);
    assert!(matches!(action, Action::ReadPointer));
    assert_eq!(session.current, Some(frame(20, 10, 3)));
}

#[test]
fn a_reopened_window_is_adopted() {
    let (mut session, mut tx) = running(true);
    go_on(&mut session, &mut tx);
    let action = run_window(&mut session, Event::Frame(Some(frame(10, 21, 2))), &mut tx);
    assert!(matches!(action, Action::ReopenWindow { width: 10, height: 21, long: 20, short: 10 }));
    assert!(matches!(run_window(&mut session, Event::Opened(true), &mut tx), Action::AdoptWindow));
    assert!(matches!(run_window(&mut session, Event::Done, &mut tx), Action::ReadPointer));
}

#[test]
fn a_closed_window_or_a_stop_raises_the_stop_flag() {
    for (open, stopped) in [(false, false), (true, true), (false, true)] {
        let (mut session, mut tx) = running(true);
        let action = run_window(&mut session, Event::Status { open, stopped }, &mut tx);
        assert_eq!(exit_of(action), Exit { raise_stop: true, error: None });
    }
}

#[test]
fn a_frame_that_cannot_be_presented_is_an_error() {
    let (mut session, mut tx) = running(false);
    go_on(&mut session, &mut tx);
    run_window(&mut session, Event::Frame(None), &mut tx);
    run_window(&mut session, Event::Pointer(release()), &mut tx);
    let action = run_window(&mut session, Event::Presented(false), &mut tx);
    assert_eq!(exit_of(action), Exit { raise_stop: false, error: Some(WindowError::Present) });
}

#[test]
fn the_mouse_touches_through_the_session() {
    let (mut session, mut tx) = running(false);
    for reading in [press(0.25, 0.5, false), release()] {
        go_on(&mut session, &mut tx);
        run_window(&mut session, Event::Frame(None), &mut tx);
        run_window(&mut session, Event::Pointer(reading), &mut tx);
        run_window(&mut session, Event::Presented(true), &mut tx);
        run_window(&mut session, Event::Now { now_ns: START }, &mut tx);
        run_window(&mut session, Event::Inbox(None), &mut tx);
    }
    assert_eq!(
        tx.drain(),
        vec![touch(TouchPhase::Down, 0.25, 0.5), touch(TouchPhase::Up, 0.25, 0.5)]
    );
    assert!(!session.input.touching);
}

#[test]
fn a_swipe_is_down_moves_and_up() {
    let mut state = InputState::default();
    let mut tx = Outbox::new();
    pump_input(&mut state, press(0.1, 0.1, true), &mut tx);
    pump_input(&mut state, press(0.1, 0.1, false), &mut tx);
    pump_input(&mut state, press(0.2, 0.3, true), &mut tx);
    pump_input(&mut state, press(0.2005, 0.3, false), &mut tx);
    pump_input(&mut state, release(), &mut tx);
    pump_input(&mut state, release(), &mut tx);
    assert_eq!(
        tx.drain(),
        vec![
            touch(TouchPhase::Down, 0.1, 0.1),
            touch(TouchPhase::Move, 0.2, 0.3),
            touch(TouchPhase::Up, 0.2005, 0.3),
        ]
    );
    assert_eq!(state, InputState { touching: false, last: at(0.2005, 0.3) });
}

#[test]
fn a_press_without_a_position_is_not_seen() {
    let lost = PointerReading { down: true, at: None, moved: false };
    let mut state = InputState::default();
    let mut tx = Outbox::new();
    pump_input(&mut state, lost, &mut tx);
    assert_eq!(state, InputState::default());
    assert!(tx.drain().is_empty());
    pump_input(&mut state, press(0.5, 0.5, false), &mut tx);
    pump_input(&mut state, lost, &mut tx);
    assert!(state.touching);
    assert_eq!(tx.drain(), vec![touch(TouchPhase::Down, 0.5, 0.5)]);
}

#[test]
fn a_release_outside_the_window_lifts() {
    let mut state = InputState::default();
    let mut tx = Outbox::new();
    pump_input(&mut state, press(0.9, 0.9, false), &mut tx);
    tx.drain();
    let outside = PointerReading { down: false, at: Some(at(1.0, 1.0)), moved: true };
    pump_input(&mut state, outside, &mut tx);
    assert_eq!(tx.drain(), vec![touch(TouchPhase::Up, 0.9, 0.9)]);
}

#[test]
fn the_icon_is_shown_when_everything_is_there() {
    let mut step = IconStep::FindApp;
    let mut taken = Vec::new();
    while step != IconStep::Finished {
        taken.push(step);
        step = set_app_icon(step, true);
    }
    assert_eq!(
        taken,
        vec![
            IconStep::FindApp,
            IconStep::SetRegular,
            IconStep::WrapBytes,
            IconStep::DecodeImage,
            IconStep::ShowIcon,
        ]
    );
}

#[test]
fn a_missing_object_ends_the_icon() {
    for step in [IconStep::FindApp, IconStep::WrapBytes, IconStep::DecodeImage] {
        assert_eq!(set_app_icon(step, false), IconStep::Finished);
    }
    assert_eq!(set_app_icon(IconStep::SetRegular, false), IconStep::WrapBytes);
    assert_eq!(set_app_icon(IconStep::ShowIcon, false), IconStep::Finished);
    assert_eq!(set_app_icon(IconStep::Finished, true), IconStep::Finished);
}

#[test]
fn frames_are_only_taken_before_the_first_or_at_a_turn() {
    let (mut session, _) = new_session(true);
    let mut tx = Outbox::new();
    let clock = Event::Clock { stopped: false, now_ns: 1 };
    assert!(matches!(run_window(&mut session, clock, &mut tx), Action::TakeFrame));
    assert_eq!(session.phase, Phase::Slot);
    let (mut session, mut tx) = running(true);
    go_on(&mut session, &mut tx);
    assert_eq!(session.phase, Phase::Newest);
}

/// One turn without anything to do, at this time; true if it polls the clipboard.
fn idle_turn(session: &mut Session, tx: &mut Outbox, now_ns: u64) -> bool {
    go_on(session, tx);
    run_window(session, Event::Frame(None), tx);
    run_window(session, Event::Pointer(release()), tx);
    run_window(session, Event::Presented(true), tx);
    let polls = match run_window(session, Event::Now { now_ns }, tx) {
        Action::PollClipboard => {
            assert!(matches!(run_window(session, Event::Done, tx), Action::ReadInbox));
            true
        }
        Action::ReadInbox => false,
        other => panic!("{:?}", other),
    };
    assert!(matches!(run_window(session, Event::Inbox(None), tx), Action::ReadStatus));
    polls
}

#[test]
fn polls_are_three_hundred_milliseconds_apart() {
    let (mut session, mut tx) = running(false);
    let mut polls = Vec::new();
    for turn in 0..200 {
        let now = START + turn * 7 * MS;
        if idle_turn(&mut session, &mut tx, now) {
            polls.push(now);
        }
    }
    assert_eq!(polls[0], START + 301 * MS);
    assert_eq!(polls[1], START + 602 * MS);
    assert_eq!(polls.len(), 4);
    assert_eq!(session.last_poll_ns, polls[3]);
    // A reading from before the last poll is not yet due.
    assert!(!idle_turn(&mut session, &mut tx, START));
}

#[test]
fn a_turned_picture_is_sized_as_at_launch() {
    let (mut turned, mut tx) = running(false);
    go_on(&mut turned, &mut tx);
    let later = match run_window(&mut turned, Event::Frame(Some(frame(20, 10, 2))), &mut tx) {
        Action::ReopenWindow { width, height, long, short } => (width, height, long, short),
        other => panic!("{:?}", other),
    };
    let (mut launched, _) = new_session(false);
    run_window(&mut launched, Event::Clock { stopped: false, now_ns: 0 }, &mut tx);
    let first = match run_window(&mut launched, Event::Frame(Some(frame(20, 10, 2))), &mut tx) {
        Action::OpenWindow { width, height, long, short } => (width, height, long, short),
        other => panic!("{:?}", other),
    };
    assert_eq!(later, first);
}

#[test]
fn the_display_scale_is_that_of_the_first_frame() {
    let (mut session, mut tx) = running(false);
    go_on(&mut session, &mut tx);
    let action = run_window(&mut session, Event::Frame(Some(frame(40, 30, 2))), &mut tx);
    assert!(matches!(
        action,
        Action::ReopenWindow { width: 40, height: 30, long: 20, short: 10 }
    ));
    assert_eq!(session.sides, (20, 10));
}

#[test]
fn setting_up_is_answered_with_the_time() {
    let (session, _) = running(true);
    assert_eq!(session.last_poll_ns, START);
    assert_eq!(session.phase, Phase::Status);
}
