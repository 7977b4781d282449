//! The course of a session: waiting for the first frame, opening the window, and
//! then, turn by turn, showing the newest frame and forwarding input.
//!
//! [`run_window`] takes what came of the last action and gives the next one. The
//! caller performs it: it owns the window, the clocks, the clipboard and the threads.

use vstd::prelude::*;

use crate::frame::DecodedFrame;
use crate::keys::{pump_keys, Command, Key};
use crate::protocol::Outbox;
use crate::sizing::intrinsic_sides;
use crate::touch::{pump_input, InputState, PointerReading};
#[allow(unused_imports)]
use crate::keys::frame_commands;
#[allow(unused_imports)]
use crate::protocol::{with_message, Message, Point, TouchPhase};
#[allow(unused_imports)]
use crate::sizing::{law_orientation_free, law_sides_are_max_and_min, long_side, short_side};
#[allow(unused_imports)]
use crate::touch::{
    finger_after, law_touches_well_formed, no_touch, state_after, touch_next, touch_said,
    touches_of,
};

verus! {

/// How long to wait for the first frame, in nanoseconds.
pub const FIRST_FRAME_NS: u64 = 20_000_000_000;

/// How long to rest between two looks for the first frame.
pub const FIRST_FRAME_REST_MS: u64 = 20;

/// The least time between two polls of the clipboard, in nanoseconds.
pub const CLIPBOARD_POLL_NS: u64 = 300_000_000;

/// Where a session stands: what it waits for.
#[derive(Clone, Copy, Debug, PartialEq, Eq, Structural)]
pub enum Phase {
    /// Before the first frame: the time waited and the stop flag.
    Clock,
    /// Before the first frame: the frame slot.
    Slot,
    /// Before the first frame: the end of a rest.
    Rest,
    /// The first window.
    FirstOpen,
    /// The keyboard set up.
    Setup,
    /// At the head of a turn: whether to go on.
    Status,
    /// The frame slot.
    Newest,
    /// A window of the new shape.
    Reopen,
    /// The new window in the place of the old one.
    Adopt,
    /// The mouse.
    Pointer,
    /// The keys.
    Keys,
    /// The commands of the keys carried out.
    Commands,
    /// The frame presented.
    Present,
    /// The time, by which a poll of the clipboard is due or not.
    PollTimer,
    /// The clipboard polled.
    Polling,
    /// A text from the phone.
    Inbox,
    /// A text from the phone put on the clipboard.
    Remote,
    /// Nothing more.
    Ended,
}

/// What came of an action. Times are counted in nanoseconds from the beginning of the
/// session.
#[derive(Debug)]
pub enum Event {
    /// The stop flag, and the time.
    Clock { stopped: bool, now_ns: u64 },
    /// What was in the frame slot.
    Frame(Option<DecodedFrame>),
    /// It is done.
    Done,
    /// Whether the window could be opened.
    Opened(bool),
    /// Whether the window is open, and the stop flag.
    Status { open: bool, stopped: bool },
    /// What the mouse does.
    Pointer(PointerReading),
    /// Whether each Ctrl key is down, the keys newly pressed, and the keys due, repeats
    /// among them.
    Keys { left_ctrl: bool, right_ctrl: bool, pressed: Vec<Key>, repeating: Vec<Key> },
    /// Whether the frame could be presented.
    Presented(bool),
    /// The keyboard is set up, at this time.
    Ready { now_ns: u64 },
    /// The time.
    Now { now_ns: u64 },
    /// A text from the phone, if one is waiting.
    Inbox(Option<String>),
}

/// Why a session failed.
#[derive(Clone, Copy, Debug, PartialEq, Eq, Structural)]
pub enum WindowError {
    /// The first window could not be opened.
    Open,
    /// A frame could not be presented.
    Present,
}

/// How a session ends.
#[derive(Clone, Copy, Debug, PartialEq, Eq, Structural)]
pub struct Exit {
    /// Set the stop flag, so that the other threads stop too.
    pub raise_stop: bool,
    /// What went wrong, if anything did.
    pub error: Option<WindowError>,
}

/// What to do next.
#[derive(Debug)]
pub enum Action {
    /// Read the stop flag and the time.
    ReadClock,
    /// Take the frame out of the slot.
    TakeFrame,
    /// Sleep.
    Sleep { ms: u64 },
    /// Open a window for a picture of this width and height, at the display scale that
    /// these longer and shorter sides of a picture give.
    OpenWindow { width: usize, height: usize, long: usize, short: usize },
    /// Start to listen to the keyboard, then read the time.
    SetUpInput,
    /// Read whether the window is open, and the stop flag.
    ReadStatus,
    /// Open another window for a picture of this width and height, at the display scale
    /// that these longer and shorter sides of a picture give.
    ReopenWindow { width: usize, height: usize, long: usize, short: usize },
    /// Put the new window in the place of the old one and listen to its keyboard.
    AdoptWindow,
    /// Read the mouse.
    ReadPointer,
    /// Read the keys.
    ReadKeys,
    /// Carry the commands out, in order.
    RunCommands(Vec<Command>),
    /// Present the current frame.
    Present,
    /// Read the time.
    ReadTime,
    /// Poll the clipboard.
    PollClipboard,
    /// Take one text that the phone sent, if there is one.
    ReadInbox,
    /// Put a text from the phone on the clipboard.
    ApplyRemote(String),
    /// End the session.
    Exit(Exit),
}

/// What an action says to do.
pub enum Step {
    ReadClock,
    TakeFrame,
    Sleep { ms: u64 },
    OpenWindow { width: usize, height: usize, long: usize, short: usize },
    SetUpInput,
    ReadStatus,
    ReopenWindow { width: usize, height: usize, long: usize, short: usize },
    AdoptWindow,
    ReadPointer,
    ReadKeys,
    RunCommands(Seq<Command>),
    Present,
    ReadTime,
    PollClipboard,
    ReadInbox,
    ApplyRemote(Seq<char>),
    Exit(Exit),
}

impl View for Action {
    type V = Step;

    open spec fn view(&self) -> Step {
        match *self {
            Action::ReadClock => Step::ReadClock,
            Action::TakeFrame => Step::TakeFrame,
            Action::Sleep { ms } => Step::Sleep { ms },
            Action::OpenWindow { width, height, long, short } => Step::OpenWindow {
                width,
                height,
                long,
                short,
            },
            Action::SetUpInput => Step::SetUpInput,
            Action::ReadStatus => Step::ReadStatus,
            Action::ReopenWindow { width, height, long, short } => Step::ReopenWindow {
                width,
                height,
                long,
                short,
            },
            Action::AdoptWindow => Step::AdoptWindow,
            Action::ReadPointer => Step::ReadPointer,
            Action::ReadKeys => Step::ReadKeys,
            Action::RunCommands(commands) => Step::RunCommands(commands@),
            Action::Present => Step::Present,
            Action::ReadTime => Step::ReadTime,
            Action::PollClipboard => Step::PollClipboard,
            Action::ReadInbox => Step::ReadInbox,
            Action::ApplyRemote(text) => Step::ApplyRemote(text@),
            Action::Exit(exit) => Step::Exit(exit),
        }
    }
}

/// A session.
#[derive(Debug)]
pub struct Session {
    /// Whether the keys are read once per turn. Where key-down events are delivered
    /// they are not.
    pub reads_keys: bool,
    /// Where the session stands.
    pub phase: Phase,
    /// The frame to show.
    pub current: Option<DecodedFrame>,
    /// The shape that the window was last opened, or tried, for.
    pub last_dims: (usize, usize),
    /// The longer and the shorter side of the first frame, which give the display scale
    /// of the whole session.
    pub sides: (usize, usize),
    /// The time at which the clipboard was last polled, or else at which the turns began.
    pub last_poll_ns: u64,
    /// The state of the touch.
    pub input: InputState,
}

/// Whether the session has its first frame in a phase.
pub open spec fn has_frame(phase: Phase) -> bool {
    !(phase is Clock || phase is Slot || phase is Rest || phase is Ended)
}

impl Session {
    /// Once there is a frame, the last shape handled is that of the current frame.
    pub open spec fn wf(self) -> bool {
        has_frame(self.phase) ==> self.current is Some && self.last_dims == self.current->0.dims()
    }

    /// The session goes on to `phase`.
    pub open spec fn at(self, phase: Phase) -> Session {
        Session { phase, ..self }
    }
}

/// The session before it began.
pub open spec fn fresh_session(reads_keys: bool) -> Session {
    Session {
        reads_keys,
        phase: Phase::Clock,
        current: None,
        last_dims: (0, 0),
        sides: (1, 1),
        last_poll_ns: 0,
        input: no_touch(),
    }
}

/// Begin a session. The first action is to read the clock.
pub fn new_session(reads_keys: bool) -> (start: (Session, Action))
    ensures
        start.0 == fresh_session(reads_keys),
        start.0.wf(),
        start.1@ == Step::ReadClock,
{
    (
        Session {
            reads_keys,
            phase: Phase::Clock,
            current: None,
            last_dims: (0, 0),
            sides: (1, 1),
            last_poll_ns: 0,
            input: InputState::default(),
        },
        Action::ReadClock,
    )
}

/// Whether an event is an answer to what the session waits for.
pub open spec fn accepts(phase: Phase, event: Event) -> bool {
    match phase {
        Phase::Clock => event is Clock,
        Phase::Slot | Phase::Newest => event is Frame,
        Phase::FirstOpen | Phase::Reopen => event is Opened,
        Phase::Rest | Phase::Adopt | Phase::Commands | Phase::Polling | Phase::Remote => event is
            Done,
        Phase::Setup => event is Ready,
        Phase::Status => event is Status,
        Phase::Pointer => event is Pointer,
        Phase::Keys => event is Keys,
        Phase::Present => event is Presented,
        Phase::PollTimer => event is Now,
        Phase::Inbox => event is Inbox,
        Phase::Ended => false,
    }
}

/// An exit without an error.
pub open spec fn exit_ok(raise_stop: bool) -> Step {
    Step::Exit(Exit { raise_stop, error: None })
}

/// An exit with an error, which leaves the stop flag alone.
pub open spec fn exit_err(error: WindowError) -> Step {
    Step::Exit(Exit { raise_stop: false, error: Some(error) })
}

/// The session after an event, and what to do then.
pub open spec fn next(s: Session, event: Event) -> (Session, Step) {
    match (s.phase, event) {
        (Phase::Clock, Event::Clock { stopped, now_ns }) => if stopped || now_ns
            >= FIRST_FRAME_NS {
            (s.at(Phase::Ended), exit_ok(false))
        } else {
            (s.at(Phase::Slot), Step::TakeFrame)
        },
        (Phase::Slot, Event::Frame(Some(frame))) => (
            Session {
                phase: Phase::FirstOpen,
                current: Some(frame),
                last_dims: frame.dims(),
                sides: (
                    long_side(frame.width, frame.height),
                    short_side(frame.width, frame.height),
                ),
                ..s
            },
            Step::OpenWindow {
                width: frame.width,
                height: frame.height,
                long: long_side(frame.width, frame.height),
                short: short_side(frame.width, frame.height),
            },
        ),
        (Phase::Slot, Event::Frame(None)) => (
            s.at(Phase::Rest),
            Step::Sleep { ms: FIRST_FRAME_REST_MS },
        ),
        (Phase::Rest, Event::Done) => (s.at(Phase::Clock), Step::ReadClock),
        (Phase::FirstOpen, Event::Opened(ok)) => if ok {
            (s.at(Phase::Setup), Step::SetUpInput)
        } else {
            (s.at(Phase::Ended), exit_err(WindowError::Open))
        },
        (Phase::Setup, Event::Ready { now_ns }) => (
            Session { phase: Phase::Status, last_poll_ns: now_ns, ..s },
            Step::ReadStatus,
        ),
        (Phase::Status, Event::Status { open, stopped }) => if open && !stopped {
            (s.at(Phase::Newest), Step::TakeFrame)
        } else {
            (s.at(Phase::Ended), exit_ok(true))
        },
        (Phase::Newest, Event::Frame(Some(frame))) => if frame.dims() != s.last_dims {
            (
                Session {
                    phase: Phase::Reopen,
                    current: Some(frame),
                    last_dims: frame.dims(),
                    ..s
                },
                Step::ReopenWindow {
                    width: frame.width,
                    height: frame.height,
                    long: s.sides.0,
                    short: s.sides.1,
                },
            )
        } else {
            (Session { phase: Phase::Pointer, current: Some(frame), ..s }, Step::ReadPointer)
        },
        (Phase::Newest, Event::Frame(None)) => (s.at(Phase::Pointer), Step::ReadPointer),
        (Phase::Reopen, Event::Opened(ok)) => if ok {
            (s.at(Phase::Adopt), Step::AdoptWindow)
        } else {
            (s.at(Phase::Pointer), Step::ReadPointer)
        },
        (Phase::Adopt, Event::Done) => (s.at(Phase::Pointer), Step::ReadPointer),
        (Phase::Pointer, Event::Pointer(reading)) => {
            let touched = Session { input: touch_next(s.input, reading), ..s };
            if s.reads_keys {
                (touched.at(Phase::Keys), Step::ReadKeys)
            } else {
                (touched.at(Phase::Present), Step::Present)
            }
        },
        (Phase::Keys, Event::Keys { left_ctrl, right_ctrl, pressed, repeating }) => (
            s.at(Phase::Commands),
            Step::RunCommands(frame_commands(left_ctrl || right_ctrl, pressed@, repeating@)),
        ),
        (Phase::Commands, Event::Done) => (s.at(Phase::Present), Step::Present),
        (Phase::Present, Event::Presented(ok)) => if ok {
            (s.at(Phase::PollTimer), Step::ReadTime)
        } else {
            (s.at(Phase::Ended), exit_err(WindowError::Present))
        },
        (Phase::PollTimer, Event::Now { now_ns }) => if now_ns - s.last_poll_ns
            >= CLIPBOARD_POLL_NS {
            (
                Session { phase: Phase::Polling, last_poll_ns: now_ns, ..s },
                Step::PollClipboard,
            )
        } else {
            (s.at(Phase::Inbox), Step::ReadInbox)
        },
        (Phase::Polling, Event::Done) => (s.at(Phase::Inbox), Step::ReadInbox),
        (Phase::Inbox, Event::Inbox(Some(text))) => (
            s.at(Phase::Remote),
            Step::ApplyRemote(text@),
        ),
        (Phase::Inbox, Event::Inbox(None)) => (s.at(Phase::Status), Step::ReadStatus),
        (Phase::Remote, Event::Done) => (s.at(Phase::Inbox), Step::ReadInbox),
        _ => arbitrary(),
    }
}

/// What an event says to the phone: only the mouse speaks directly.
pub open spec fn said(s: Session, event: Event) -> Option<Message> {
    match event {
        Event::Pointer(reading) => touch_said(s.input, reading),
        _ => None,
    }
}

/// Take what came of the last action and give the next one.
pub fn run_window(session: &mut Session, event: Event, tx: &mut Outbox) -> (action: Action)
    requires
        old(session).wf(),
        accepts(old(session).phase, event),
    ensures
        final(session).wf(),
        *final(session) == next(*old(session), event).0,
        action@ == next(*old(session), event).1,
        final(tx)@ == with_message(old(tx)@, said(*old(session), event)),
{
    match (session.phase, event) {
        (Phase::Clock, Event::Clock { stopped, now_ns }) => {
            if stopped || now_ns >= FIRST_FRAME_NS {
                session.phase = Phase::Ended;
                Action::Exit(Exit { raise_stop: false, error: None })
            } else {
                session.phase = Phase::Slot;
                Action::TakeFrame
            }
        },
        (Phase::Slot, Event::Frame(Some(frame))) => {
            let (width, height) = (frame.width, frame.height);
            let (long, short) = intrinsic_sides(width, height);
            session.phase = Phase::FirstOpen;
            session.last_dims = (width, height);
            session.sides = (long, short);
            session.current = Some(frame);
            Action::OpenWindow { width, height, long, short }
        },
        (Phase::Slot, Event::Frame(None)) => {
            session.phase = Phase::Rest;
            Action::Sleep { ms: FIRST_FRAME_REST_MS }
        },
        (Phase::Rest, Event::Done) => {
            session.phase = Phase::Clock;
            Action::ReadClock
        },
        (Phase::FirstOpen, Event::Opened(ok)) => {
            if ok {
                session.phase = Phase::Setup;
                Action::SetUpInput
            } else {
                session.phase = Phase::Ended;
                Action::Exit(Exit { raise_stop: false, error: Some(WindowError::Open) })
            }
        },
        (Phase::Setup, Event::Ready { now_ns }) => {
            session.last_poll_ns = now_ns;
            session.phase = Phase::Status;
            Action::ReadStatus
        },
        (Phase::Status, Event::Status { open, stopped }) => {
            if open && !stopped {
                session.phase = Phase::Newest;
                Action::TakeFrame
            } else {
                session.phase = Phase::Ended;
                Action::Exit(Exit { raise_stop: true, error: None })
            }
        },
        (Phase::Newest, Event::Frame(Some(frame))) => {
            let (width, height) = (frame.width, frame.height);
            session.current = Some(frame);
            if width != session.last_dims.0 || height != session.last_dims.1 {
                // The phone was turned. A shape is tried once: if the window cannot
                // be opened, the old one goes on showing the new shape.
                session.last_dims = (width, height);
                session.phase = Phase::Reopen;
                let (long, short) = session.sides;
                Action::ReopenWindow { width, height, long, short }
            } else {
                session.phase = Phase::Pointer;
                Action::ReadPointer
            }
        },
        (Phase::Newest, Event::Frame(None)) => {
            session.phase = Phase::Pointer;
            Action::ReadPointer
        },
        (Phase::Reopen, Event::Opened(ok)) => {
            if ok {
                session.phase = Phase::Adopt;
                Action::AdoptWindow
            } else {
                session.phase = Phase::Pointer;
                Action::ReadPointer
            }
        },
        (Phase::Adopt, Event::Done) => {
            session.phase = Phase::Pointer;
            Action::ReadPointer
        },
        (Phase::Pointer, Event::Pointer(reading)) => {
            pump_input(&mut session.input, reading, tx);
            if session.reads_keys {
                session.phase = Phase::Keys;
                Action::ReadKeys
            } else {
                session.phase = Phase::Present;
                Action::Present
            }
        },
        (Phase::Keys, Event::Keys { left_ctrl, right_ctrl, pressed, repeating }) => {
            session.phase = Phase::Commands;
            Action::RunCommands(pump_keys(left_ctrl, right_ctrl, &pressed, &repeating))
        },
        (Phase::Commands, Event::Done) => {
            session.phase = Phase::Present;
            Action::Present
        },
        (Phase::Present, Event::Presented(ok)) => {
            if ok {
                session.phase = Phase::PollTimer;
                Action::ReadTime
            } else {
                session.phase = Phase::Ended;
                Action::Exit(Exit { raise_stop: false, error: Some(WindowError::Present) })
            }
        },
        (Phase::PollTimer, Event::Now { now_ns }) => {
            if now_ns >= session.last_poll_ns && now_ns - session.last_poll_ns
                >= CLIPBOARD_POLL_NS {
                session.last_poll_ns = now_ns;
                session.phase = Phase::Polling;
                Action::PollClipboard
            } else {
                session.phase = Phase::Inbox;
                Action::ReadInbox
            }
        },
        (Phase::Polling, Event::Done) => {
            session.phase = Phase::Inbox;
            Action::ReadInbox
        },
        (Phase::Inbox, Event::Inbox(Some(text))) => {
            session.phase = Phase::Remote;
            Action::ApplyRemote(text)
        },
        (Phase::Inbox, Event::Inbox(None)) => {
            session.phase = Phase::Status;
            Action::ReadStatus
        },
        (Phase::Remote, Event::Done) => {
            session.phase = Phase::Inbox;
            Action::ReadInbox
        },
        _ => {
            assert(false);
            Action::ReadStatus
        },
    }
}

/// A session ends on these occasions and no other: a stop or a timeout before the
/// first frame, a first window that does not open, a frame that cannot be presented,
/// and a closed window or a stop at the head of a turn. Only the last raises the stop
/// flag, and nothing is accepted afterwards.
pub proof fn law_how_a_session_ends(s: Session, event: Event)
    requires
        s.wf(),
        accepts(s.phase, event),
    ensures
        next(s, event).0.phase is Ended <==> next(s, event).1 is Exit,
        next(s, event).1 == exit_ok(false) <==> (event matches Event::Clock {
            stopped,
            now_ns,
        } && (stopped || now_ns >= FIRST_FRAME_NS)),
        next(s, event).1 == exit_ok(true) <==> (event matches Event::Status { open, stopped } && (
        !open || stopped)),
        next(s, event).1 == exit_err(WindowError::Open) <==> (s.phase is FirstOpen
            && event == Event::Opened(false)),
        next(s, event).1 == exit_err(WindowError::Present) <==> event == Event::Presented(false),
        next(s, event).1 matches Step::Exit(exit) ==> {
            ||| exit_ok(false) == Step::Exit(exit)
            ||| exit_ok(true) == Step::Exit(exit)
            ||| exit_err(WindowError::Open) == Step::Exit(exit)
            ||| exit_err(WindowError::Present) == Step::Exit(exit)
        },
        forall|later: Event| !#[trigger] accepts(Phase::Ended, later),
{
}

/// Whether an event is of the kind that answers a step.
pub open spec fn answers(step: Step, event: Event) -> bool {
    match step {
        Step::ReadClock => event is Clock,
        Step::TakeFrame => event is Frame,
        Step::OpenWindow { .. } | Step::ReopenWindow { .. } => event is Opened,
        Step::Sleep { .. } | Step::AdoptWindow | Step::RunCommands(_) | Step::PollClipboard
        | Step::ApplyRemote(_) => event is Done,
        Step::SetUpInput => event is Ready,
        Step::ReadStatus => event is Status,
        Step::ReadPointer => event is Pointer,
        Step::ReadKeys => event is Keys,
        Step::Present => event is Presented,
        Step::ReadTime => event is Now,
        Step::ReadInbox => event is Inbox,
        Step::Exit(_) => false,
    }
}

/// What a session accepts next is exactly what answers the step that it handed out, at
/// its beginning and after every event.
pub proof fn law_steps_are_answered(s: Session, event: Event, reads_keys: bool, answer: Event)
    requires
        accepts(s.phase, event),
    ensures
        accepts(fresh_session(reads_keys).phase, answer) <==> answers(Step::ReadClock, answer),
        accepts(next(s, event).0.phase, answer) <==> answers(next(s, event).1, answer),
{
}

/// The window is opened anew exactly when the newest frame has another shape than the
/// frame shown before it, and for that shape. As that frame is then the current one, a
/// shape for which no window could be opened is not tried again until it changes.
pub proof fn law_reopens_when_shape_changes(s: Session, event: Event)
    requires
        s.wf(),
        accepts(s.phase, event),
    ensures
        next(s, event).1 is ReopenWindow <==> (s.phase is Newest && (event matches Event::Frame(
            Some(frame),
        ) && frame.dims() != s.current->0.dims())),
        s.phase is Newest ==> (event matches Event::Frame(Some(frame)) ==> (frame.dims()
            != s.current->0.dims() ==> next(s, event).1 == Step::ReopenWindow {
            width: frame.width,
            height: frame.height,
            long: s.sides.0,
            short: s.sides.1,
        })),
        has_frame(next(s, event).0.phase) ==> next(s, event).0.last_dims == next(
            s,
            event,
        ).0.current->0.dims(),
{
}

/// Reopening never fails a session: a window that opens is put in the place of the old
/// one, one that does not is let go, and either way the turn goes on with the mouse.
pub proof fn law_reopening_goes_on(s: Session, ok: bool)
    requires
        s.wf(),
        s.phase is Reopen,
    ensures
        ({
            let (opened, step) = next(s, Event::Opened(ok));
            &&& !ok ==> step == Step::ReadPointer && opened == s.at(Phase::Pointer)
            &&& ok ==> step == Step::AdoptWindow && next(opened, Event::Done) == (
                s.at(Phase::Pointer),
                Step::ReadPointer,
            )
        }),
{
}

/// A poll of the clipboard is asked for exactly when the least time since the last one,
/// or since the turns began, is over.
pub proof fn law_polls_when_due(s: Session, event: Event)
    requires
        s.wf(),
        accepts(s.phase, event),
    ensures
        next(s, event).1 == Step::PollClipboard <==> (event matches Event::Now { now_ns } && now_ns
            - s.last_poll_ns >= CLIPBOARD_POLL_NS),
{
}

/// A turn is over only when no text from the phone is left.
pub proof fn law_turn_ends_with_empty_inbox(s: Session, event: Event)
    requires
        s.wf(),
        accepts(s.phase, event),
    ensures
        next(s, event).0.phase is Status ==> s.phase is Setup || event == Event::Inbox(None),
{
}

/// The session after some events.
pub open spec fn session_after(reads_keys: bool, events: Seq<Event>) -> Session
    decreases events.len(),
{
    if events.len() == 0 {
        fresh_session(reads_keys)
    } else {
        next(session_after(reads_keys, events.drop_last()), events.last()).0
    }
}

/// Each event answered what the session waited for.
pub open spec fn answered(reads_keys: bool, events: Seq<Event>) -> bool
    decreases events.len(),
{
    events.len() > 0 ==> {
        &&& answered(reads_keys, events.drop_last())
        &&& accepts(session_after(reads_keys, events.drop_last()).phase, events.last())
    }
}

/// How often a session asked for something that `wanted` picks out.
pub open spec fn asked(reads_keys: bool, events: Seq<Event>, wanted: spec_fn(Step) -> bool) -> nat
    decreases events.len(),
{
    if events.len() == 0 {
        0
    } else {
        let before = asked(reads_keys, events.drop_last(), wanted);
        let step = next(session_after(reads_keys, events.drop_last()), events.last()).1;
        if wanted(step) {
            before + 1
        } else {
            before
        }
    }
}

/// How many turns began: how often the window was open and no stop was asked for.
pub open spec fn turns(events: Seq<Event>) -> nat
    decreases events.len(),
{
    if events.len() == 0 {
        0
    } else {
        let before = turns(events.drop_last());
        if events.last() == (Event::Status { open: true, stopped: false }) {
            before + 1
        } else {
            before
        }
    }
}

/// In a turn that has not yet come to the mouse.
pub open spec fn before_pointer(phase: Phase) -> bool {
    phase is Newest || phase is Reopen || phase is Adopt
}

/// In a turn that has not yet come to presenting the frame.
pub open spec fn before_present(phase: Phase) -> bool {
    before_pointer(phase) || phase is Pointer || phase is Keys || phase is Commands
}

/// 1 if so, 0 if not.
pub open spec fn one_if(b: bool) -> nat {
    if b {
        1
    } else {
        0
    }
}

/// Every turn reads the mouse once, then the keys once where keys are read at all, and
/// then presents one frame.
pub proof fn law_one_of_each_per_turn(reads_keys: bool, events: Seq<Event>)
    requires
        answered(reads_keys, events),
    ensures
        ({
            let phase = session_after(reads_keys, events).phase;
            &&& turns(events) == asked(reads_keys, events, |step: Step| step is ReadPointer)
                + one_if(before_pointer(phase))
            &&& reads_keys ==> turns(events) == asked(
                reads_keys,
                events,
                |step: Step| step is ReadKeys,
            ) + one_if(before_pointer(phase) || phase is Pointer)
            &&& !reads_keys ==> asked(reads_keys, events, |step: Step| step is ReadKeys) == 0
            &&& turns(events) == asked(reads_keys, events, |step: Step| step is Present) + one_if(
                before_present(phase),
            )
        }),
    decreases events.len(),
{
    if events.len() > 0 {
        law_one_of_each_per_turn(reads_keys, events.drop_last());
        lemma_reads_keys_kept(reads_keys, events.drop_last());
    }
}

proof fn lemma_reads_keys_kept(reads_keys: bool, events: Seq<Event>)
    requires
        answered(reads_keys, events),
    ensures
        session_after(reads_keys, events).reads_keys == reads_keys,
        session_after(reads_keys, events).wf(),
    decreases events.len(),
{
    if events.len() > 0 {
        lemma_reads_keys_kept(reads_keys, events.drop_last());
    }
}

/// The latest frame that came out of the slot.
pub open spec fn latest_frame(events: Seq<Event>) -> Option<DecodedFrame>
    decreases events.len(),
{
    if events.len() == 0 {
        None
    } else {
        match events.last() {
            Event::Frame(Some(frame)) => Some(frame),
            _ => latest_frame(events.drop_last()),
        }
    }
}

/// The frame to show is always the latest one that came out of the slot.
pub proof fn law_shows_latest_frame(reads_keys: bool, events: Seq<Event>)
    requires
        answered(reads_keys, events),
    ensures
        session_after(reads_keys, events).current == latest_frame(events),
    decreases events.len(),
{
    if events.len() > 0 {
        law_shows_latest_frame(reads_keys, events.drop_last());
    }
}

/// What the mouse did in the course of a session.
pub open spec fn readings_in(events: Seq<Event>) -> Seq<PointerReading>
    decreases events.len(),
{
    if events.len() == 0 {
        Seq::empty()
    } else {
        let before = readings_in(events.drop_last());
        match events.last() {
            Event::Pointer(reading) => before.push(reading),
            _ => before,
        }
    }
}

/// What [`run_window`] said to the phone in the course of a session.
pub open spec fn said_in(reads_keys: bool, events: Seq<Event>) -> Seq<Message>
    decreases events.len(),
{
    if events.len() == 0 {
        Seq::empty()
    } else {
        with_message(
            said_in(reads_keys, events.drop_last()),
            said(session_after(reads_keys, events.drop_last()), events.last()),
        )
    }
}

/// In the course of a session the phone sees the touches of the mouse and they are
/// well formed: it has a finger down exactly while the session thinks so.
pub proof fn law_session_touches_well_formed(reads_keys: bool, events: Seq<Event>)
    requires
        answered(reads_keys, events),
    ensures
        session_after(reads_keys, events).input == state_after(readings_in(events)),
        said_in(reads_keys, events) == touches_of(readings_in(events)),
        finger_after(said_in(reads_keys, events)) == Some(
            session_after(reads_keys, events).input.touching,
        ),
    decreases events.len(),
{
    if events.len() > 0 {
        let before = events.drop_last();
        law_session_touches_well_formed(reads_keys, before);
        match events.last() {
            Event::Pointer(reading) => {
                assert(readings_in(before).push(reading).drop_last() =~= readings_in(before));
            },
            _ => {},
        }
    }
    law_touches_well_formed(readings_in(events));
}

/// The first frame that came out of the slot.
pub open spec fn first_frame(events: Seq<Event>) -> Option<DecodedFrame>
    decreases events.len(),
{
    if events.len() == 0 {
        None
    } else {
        match (first_frame(events.drop_last()), events.last()) {
            (Some(frame), _) => Some(frame),
            (None, Event::Frame(found)) => found,
            (None, _) => None,
        }
    }
}

/// The display scale of a session never changes: from its first frame on, the sides
/// that give it are those of the first frame.
pub proof fn law_display_scale_kept(reads_keys: bool, events: Seq<Event>)
    requires
        answered(reads_keys, events),
    ensures
        first_frame(events) matches Some(frame) ==> session_after(reads_keys, events).sides == (
            long_side(frame.width, frame.height),
            short_side(frame.width, frame.height),
        ),
        has_frame(session_after(reads_keys, events).phase) ==> first_frame(events) is Some,
    decreases events.len(),
{
    if events.len() > 0 {
        law_display_scale_kept(reads_keys, events.drop_last());
        lemma_waiting_has_no_frame(reads_keys, events.drop_last());
    }
}

proof fn lemma_waiting_has_no_frame(reads_keys: bool, events: Seq<Event>)
    requires
        answered(reads_keys, events),
    ensures
        ({
            let phase = session_after(reads_keys, events).phase;
            phase is Clock || phase is Slot || phase is Rest
        }) ==> first_frame(events) is None,
        has_frame(session_after(reads_keys, events).phase) ==> first_frame(events) is Some,
    decreases events.len(),
{
    if events.len() > 0 {
        lemma_waiting_has_no_frame(reads_keys, events.drop_last());
    }
}

/// A picture that is turned in the course of a session gets the window that a launch in
/// that shape gets: the same width, height and display scale are named. So a
/// landscape-first launch sizes the same as portrait-then-landscape.
pub proof fn law_turned_as_launched(
    reads_keys: bool,
    events: Seq<Event>,
    turned: DecodedFrame,
    launched: Session,
    launch: DecodedFrame,
)
    requires
        answered(reads_keys, events),
        session_after(reads_keys, events).phase is Newest,
        turned.dims() == (first_frame(events)->0.height, first_frame(events)->0.width),
        turned.dims() != session_after(reads_keys, events).current->0.dims(),
        launched.phase is Slot,
        launch.dims() == turned.dims(),
    ensures
        ({
            let long = long_side(turned.width, turned.height);
            let short = short_side(turned.width, turned.height);
            let (width, height) = turned.dims();
            &&& next(
                session_after(reads_keys, events),
                Event::Frame(Some(turned)),
            ).1 == Step::ReopenWindow { width, height, long, short }
            &&& next(launched, Event::Frame(Some(launch))).1 == Step::OpenWindow {
                width,
                height,
                long,
                short,
            }
        }),
{
    law_display_scale_kept(reads_keys, events);
    lemma_reads_keys_kept(reads_keys, events);
    let frame = first_frame(events)->0;
    law_orientation_free(frame.width, frame.height);
}

/// The times at which a session asked for a poll of the clipboard.
pub open spec fn poll_times(reads_keys: bool, events: Seq<Event>) -> Seq<u64>
    decreases events.len(),
{
    if events.len() == 0 {
        Seq::empty()
    } else {
        let before = poll_times(reads_keys, events.drop_last());
        let s = session_after(reads_keys, events.drop_last());
        match (next(s, events.last()).1, events.last()) {
            (Step::PollClipboard, Event::Now { now_ns }) => before.push(now_ns),
            _ => before,
        }
    }
}

/// The time at which the turns of a session began.
pub open spec fn turns_began(events: Seq<Event>) -> Option<u64>
    decreases events.len(),
{
    if events.len() == 0 {
        None
    } else {
        match events.last() {
            Event::Ready { now_ns } => Some(now_ns),
            _ => turns_began(events.drop_last()),
        }
    }
}

/// In any session, two polls of the clipboard are at least [`CLIPBOARD_POLL_NS`] apart,
/// and the first comes at least that long after the turns began.
pub proof fn law_polls_are_spaced(reads_keys: bool, events: Seq<Event>)
    requires
        answered(reads_keys, events),
    ensures
        ({
            let times = poll_times(reads_keys, events);
            let began = turns_began(events);
            &&& forall|i: int, j: int|
                #![trigger times[i], times[j]]
                0 <= i < j < times.len() ==> times[j] - times[i] >= CLIPBOARD_POLL_NS
            &&& times.len() > 0 ==> began is Some
            &&& forall|i: int|
                #![trigger times[i]]
                0 <= i < times.len() ==> times[i] - began->0 >= CLIPBOARD_POLL_NS
        }),
{
    lemma_polls_follow_last_poll(reads_keys, events);
}

/// Whether a session has come to its turns.
spec fn takes_turns(phase: Phase) -> bool {
    has_frame(phase) && !(phase is FirstOpen || phase is Setup)
}

proof fn lemma_polls_follow_last_poll(reads_keys: bool, events: Seq<Event>)
    requires
        answered(reads_keys, events),
    ensures
        ({
            let times = poll_times(reads_keys, events);
            let s = session_after(reads_keys, events);
            let began = turns_began(events);
            &&& forall|i: int, j: int|
                #![trigger times[i], times[j]]
                0 <= i < j < times.len() ==> times[j] - times[i] >= CLIPBOARD_POLL_NS
            &&& times.len() > 0 ==> began is Some
            &&& forall|i: int|
                #![trigger times[i]]
                0 <= i < times.len() ==> times[i] - began->0 >= CLIPBOARD_POLL_NS
            &&& takes_turns(s.phase) ==> began is Some && s.last_poll_ns == (if times.len() == 0 {
                began->0
            } else {
                times.last()
            })
            &&& !takes_turns(s.phase) && !(s.phase is Ended) ==> times.len() == 0
        }),
    decreases events.len(),
{
    if events.len() > 0 {
        lemma_polls_follow_last_poll(reads_keys, events.drop_last());
    }
}

/// The texts that came from the phone.
pub open spec fn texts_received(events: Seq<Event>) -> Seq<Seq<char>>
    decreases events.len(),
{
    if events.len() == 0 {
        Seq::empty()
    } else {
        let before = texts_received(events.drop_last());
        match events.last() {
            Event::Inbox(Some(text)) => before.push(text@),
            _ => before,
        }
    }
}

/// The texts that a session asked to be put on the clipboard.
pub open spec fn texts_applied(reads_keys: bool, events: Seq<Event>) -> Seq<Seq<char>>
    decreases events.len(),
{
    if events.len() == 0 {
        Seq::empty()
    } else {
        let before = texts_applied(reads_keys, events.drop_last());
        match next(session_after(reads_keys, events.drop_last()), events.last()).1 {
            Step::ApplyRemote(text) => before.push(text),
            _ => before,
        }
    }
}

/// Every text that the phone sent is put on the clipboard, in order, as it came, and no
/// other text is.
pub proof fn law_texts_applied_in_order(reads_keys: bool, events: Seq<Event>)
    requires
        answered(reads_keys, events),
    ensures
        texts_applied(reads_keys, events) == texts_received(events),
    decreases events.len(),
{
    if events.len() > 0 {
        law_texts_applied_in_order(reads_keys, events.drop_last());
    }
}

/// Actions name what they ask for, with the very numbers, commands and text.
pub proof fn law_actions_say_what_they_hold(
    ms: u64,
    size: (usize, usize),
    sides: (usize, usize),
    commands: Vec<Command>,
    text: String,
    exit: Exit,
)
    ensures
        Action::ReadClock@ == Step::ReadClock,
        Action::TakeFrame@ == Step::TakeFrame,
        (Action::Sleep { ms })@ == (Step::Sleep { ms }),
        (Action::OpenWindow { width: size.0, height: size.1, long: sides.0, short: sides.1 })@ == (
        Step::OpenWindow { width: size.0, height: size.1, long: sides.0, short: sides.1 }),
        Action::SetUpInput@ == Step::SetUpInput,
        Action::ReadStatus@ == Step::ReadStatus,
        (Action::ReopenWindow { width: size.0, height: size.1, long: sides.0, short: sides.1 })@
            == (Step::ReopenWindow { width: size.0, height: size.1, long: sides.0, short: sides.1 }),
        Action::AdoptWindow@ == Step::AdoptWindow,
        Action::ReadPointer@ == Step::ReadPointer,
        Action::ReadKeys@ == Step::ReadKeys,
        Action::RunCommands(commands)@ == Step::RunCommands(commands@),
        Action::Present@ == Step::Present,
        Action::ReadTime@ == Step::ReadTime,
        Action::PollClipboard@ == Step::PollClipboard,
        Action::ReadInbox@ == Step::ReadInbox,
        Action::ApplyRemote(text)@ == Step::ApplyRemote(text@),
        Action::Exit(exit)@ == Step::Exit(exit),
{
}

/// A session begins with no frame and no touch, and takes any answer to what it asked.
pub proof fn law_sessions_begin_empty(reads_keys: bool, stopped: bool, now_ns: u64)
    ensures
        fresh_session(reads_keys) == (Session {
            reads_keys,
            phase: Phase::Clock,
            current: None,
            last_dims: (0, 0),
            sides: (1, 1),
            last_poll_ns: 0,
            input: InputState { touching: false, last: Point { x: 0, y: 0 } },
        }),
        fresh_session(reads_keys).wf(),
        accepts(Phase::Clock, Event::Clock { stopped, now_ns }),
{
}

/// In each phase exactly one kind of answer is taken, and every answer of that kind;
/// when the session has ended none is.
pub proof fn law_one_kind_of_answer(event: Event)
    ensures
        accepts(Phase::Clock, event) <==> event is Clock,
        accepts(Phase::Slot, event) <==> event is Frame,
        accepts(Phase::Rest, event) <==> event is Done,
        accepts(Phase::FirstOpen, event) <==> event is Opened,
        accepts(Phase::Setup, event) <==> event is Ready,
        accepts(Phase::Status, event) <==> event is Status,
        accepts(Phase::Newest, event) <==> event is Frame,
        accepts(Phase::Reopen, event) <==> event is Opened,
        accepts(Phase::Adopt, event) <==> event is Done,
        accepts(Phase::Pointer, event) <==> event is Pointer,
        accepts(Phase::Keys, event) <==> event is Keys,
        accepts(Phase::Commands, event) <==> event is Done,
        accepts(Phase::Present, event) <==> event is Presented,
        accepts(Phase::PollTimer, event) <==> event is Now,
        accepts(Phase::Polling, event) <==> event is Done,
        accepts(Phase::Inbox, event) <==> event is Inbox,
        accepts(Phase::Remote, event) <==> event is Done,
        !accepts(Phase::Ended, event),
{
}

/// While no frame has come, a session looks into the slot, rests for 20 milliseconds and
/// looks again, as long as no stop is asked for and less than 20 seconds have passed; it
/// is itself unchanged by that. Otherwise it ends, without an error and without a stop.
pub proof fn law_waits_for_the_first_frame(s: Session, stopped: bool, now_ns: u64)
    requires
        s.phase == Phase::Clock,
    ensures
        !stopped && now_ns < 20_000_000_000 ==> ({
            let (looking, look) = next(s, Event::Clock { stopped, now_ns });
            let (resting, rest) = next(looking, Event::Frame(None));
            &&& look == Step::TakeFrame
            &&& looking == (Session { phase: Phase::Slot, ..s })
            &&& rest == (Step::Sleep { ms: 20 })
            &&& next(resting, Event::Done) == (s, Step::ReadClock)
        }),
        stopped || now_ns >= 20_000_000_000 ==> next(s, Event::Clock { stopped, now_ns }) == (
            Session { phase: Phase::Ended, ..s },
            Step::Exit(Exit { raise_stop: false, error: None }),
        ),
{
}

/// The first frame opens a window for its own size, at the display scale of its greater
/// and lesser side, each at least 1. Then the keyboard is set up and the turns begin, at
/// that time; a window that does not open ends the session with that error.
pub proof fn law_first_frame_opens_the_window(s: Session, frame: DecodedFrame, now_ns: u64)
    requires
        s.phase == Phase::Slot,
    ensures
        ({
            let (w, h) = (frame.width as int, frame.height as int);
            let long = vstd::math::max(vstd::math::max(w, h), 1) as usize;
            let short = vstd::math::max(vstd::math::min(w, h), 1) as usize;
            let (opening, open) = next(s, Event::Frame(Some(frame)));
            let (setting_up, set_up) = next(opening, Event::Opened(true));
            &&& open == (Step::OpenWindow { width: frame.width, height: frame.height, long, short })
            &&& set_up == Step::SetUpInput
            &&& next(setting_up, Event::Ready { now_ns }) == (
                Session {
                    reads_keys: s.reads_keys,
                    phase: Phase::Status,
                    current: Some(frame),
                    last_dims: (frame.width, frame.height),
                    sides: (long, short),
                    last_poll_ns: now_ns,
                    input: s.input,
                },
                Step::ReadStatus,
            )
            &&& next(opening, Event::Opened(false)).1 == Step::Exit(
                Exit { raise_stop: false, error: Some(WindowError::Open) },
            )
            &&& next(opening, Event::Opened(false)).0.phase == Phase::Ended
        }),
{
    law_sides_are_max_and_min(frame.width, frame.height);
}

/// A turn begins if the window is open and no stop is asked for; otherwise the session
/// ends and raises the stop. With no new frame, or one of the same shape, the turn goes
/// on to the mouse, and the frame to show is the new one, if there is one.
pub proof fn law_turn_takes_the_newest_frame(
    s: Session,
    open: bool,
    stopped: bool,
    frame: DecodedFrame,
)
    requires
        s.phase == Phase::Status,
    ensures
        !open || stopped ==> next(s, Event::Status { open, stopped }) == (
            Session { phase: Phase::Ended, ..s },
            Step::Exit(Exit { raise_stop: true, error: None }),
        ),
        open && !stopped ==> ({
            let (looking, look) = next(s, Event::Status { open, stopped });
            &&& look == Step::TakeFrame
            &&& looking == (Session { phase: Phase::Newest, ..s })
            &&& next(looking, Event::Frame(None)) == (
                Session { phase: Phase::Pointer, ..s },
                Step::ReadPointer,
            )
            &&& frame.width == s.last_dims.0 && frame.height == s.last_dims.1 ==> next(
                looking,
                Event::Frame(Some(frame)),
            ) == (
                Session { phase: Phase::Pointer, current: Some(frame), ..s },
                Step::ReadPointer,
            )
        }),
{
}

/// A frame that is wider, narrower, higher or lower than the last one opens another window
/// for its own size, at the display scale of the session. Whether that window opens or
/// not, the turn goes on to the mouse, with the new frame and its shape.
pub proof fn law_turned_frame_opens_another_window(s: Session, frame: DecodedFrame)
    requires
        s.phase == Phase::Newest,
        frame.width != s.last_dims.0 || frame.height != s.last_dims.1,
    ensures
        ({
            let (opening, open) = next(s, Event::Frame(Some(frame)));
            let (adopting, adopt) = next(opening, Event::Opened(true));
            let shown = Session {
                phase: Phase::Pointer,
                current: Some(frame),
                last_dims: (frame.width, frame.height),
                ..s
            };
            &&& open == (Step::ReopenWindow {
                width: frame.width,
                height: frame.height,
                long: s.sides.0,
                short: s.sides.1,
            })
            &&& adopt == Step::AdoptWindow
            &&& next(adopting, Event::Done) == (shown, Step::ReadPointer)
            &&& next(opening, Event::Opened(false)) == (shown, Step::ReadPointer)
        }),
{
}

/// From the mouse a turn comes to presenting the frame: directly where keys are delivered,
/// and by way of the keys, whose commands are carried out, where they are read. Nothing
/// of the session changes on the way but the touch.
pub proof fn law_turn_presents_after_input(
    s: Session,
    reading: PointerReading,
    left_ctrl: bool,
    right_ctrl: bool,
    pressed: Vec<Key>,
    repeating: Vec<Key>,
)
    requires
        s.phase == Phase::Pointer,
    ensures
        ({
            let (touched, step) = next(s, Event::Pointer(reading));
            let input = touch_next(s.input, reading);
            let (acting, commands) = next(
                touched,
                Event::Keys { left_ctrl, right_ctrl, pressed, repeating },
            );
            &&& !s.reads_keys ==> step == Step::Present && touched == (Session {
                phase: Phase::Present,
                input,
                ..s
            })
            &&& s.reads_keys ==> step == Step::ReadKeys && commands == Step::RunCommands(
                frame_commands(left_ctrl || right_ctrl, pressed@, repeating@),
            ) && next(acting, Event::Done) == (
                Session { phase: Phase::Present, input, ..s },
                Step::Present,
            )
        }),
{
}

/// After a frame is presented the clipboard is polled if 300 milliseconds or more have
/// passed since the last poll, and then the inbox is read. A frame that cannot be
/// presented ends the session with that error.
pub proof fn law_turn_polls_after_presenting(s: Session, now_ns: u64)
    requires
        s.phase == Phase::Present,
    ensures
        next(s, Event::Presented(false)) == (
            Session { phase: Phase::Ended, ..s },
            Step::Exit(Exit { raise_stop: false, error: Some(WindowError::Present) }),
        ),
        ({
            let (timing, time) = next(s, Event::Presented(true));
            let (polling, step) = next(timing, Event::Now { now_ns });
            &&& time == Step::ReadTime
            &&& now_ns < s.last_poll_ns + 300_000_000 ==> step == Step::ReadInbox && polling == (
            Session { phase: Phase::Inbox, ..s })
            &&& now_ns >= s.last_poll_ns + 300_000_000 ==> step == Step::PollClipboard && next(
                polling,
                Event::Done,
            ) == (Session { phase: Phase::Inbox, last_poll_ns: now_ns, ..s }, Step::ReadInbox)
        }),
{
}

/// Each text in the inbox is put on the clipboard as it came, and the inbox read again;
/// once it is empty the next turn begins. The session is itself unchanged by that.
pub proof fn law_turn_empties_the_inbox(s: Session, text: String)
    requires
        s.phase == Phase::Inbox,
    ensures
        ({
            let (applying, apply) = next(s, Event::Inbox(Some(text)));
            &&& apply == Step::ApplyRemote(text@)
            &&& next(applying, Event::Done) == (s, Step::ReadInbox)
        }),
        next(s, Event::Inbox(None)) == (Session { phase: Phase::Status, ..s }, Step::ReadStatus),
{
}

/// The mouse says to the phone what its touch says, and no other event says anything.
pub proof fn law_only_the_mouse_speaks(s: Session, event: Event, at: Point, moved: bool)
    ensures
        !(event is Pointer) ==> said(s, event) is None,
        !s.input.touching ==> said(
            s,
            Event::Pointer(PointerReading { down: true, at: Some(at), moved }),
        ) == Some(Message::Touch { phase: TouchPhase::Down, finger: 0, at }),
        s.input.touching ==> said(
            s,
            Event::Pointer(PointerReading { down: true, at: Some(at), moved: true }),
        ) == Some(Message::Touch { phase: TouchPhase::Move, finger: 0, at }),
        s.input.touching ==> said(
            s,
            Event::Pointer(PointerReading { down: true, at: Some(at), moved: false }),
        ) is None,
        said(s, Event::Pointer(PointerReading { down: true, at: None, moved })) is None,
        s.input.touching ==> said(
            s,
            Event::Pointer(PointerReading { down: false, at: Some(at), moved }),
        ) == Some(Message::Touch { phase: TouchPhase::Up, finger: 0, at: s.input.last }),
        s.input.touching ==> said(
            s,
            Event::Pointer(PointerReading { down: false, at: None, moved }),
        ) == Some(Message::Touch { phase: TouchPhase::Up, finger: 0, at: s.input.last }),
        !s.input.touching ==> said(
            s,
            Event::Pointer(PointerReading { down: false, at: Some(at), moved }),
        ) is None && said(
            s,
            Event::Pointer(PointerReading { down: false, at: None, moved }),
        ) is None,
{
}

} // verus!
