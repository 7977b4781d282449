//! From the mouse to touches on the phone.

use vstd::prelude::*;

use crate::protocol::{send_touch, Outbox, Point, TouchPhase};
#[allow(unused_imports)]
use crate::protocol::{touch_message, with_message, Message};

verus! {

/// Whether the finger is on the phone's screen, and where it was last.
#[derive(Clone, Copy, Debug, PartialEq, Eq, Structural)]
pub struct InputState {
    pub touching: bool,
    pub last: Point,
}

impl Default for InputState {
    /// No finger on the screen.
    fn default() -> (state: InputState)
        ensures
            state == no_touch(),
    {
        InputState { touching: false, last: Point { x: 0, y: 0 } }
    }
}

/// The state before any touch.
pub open spec fn no_touch() -> InputState {
    InputState { touching: false, last: Point { x: 0, y: 0 } }
}

/// What the mouse does at one frame.
#[derive(Clone, Copy, Debug, PartialEq, Eq, Structural)]
pub struct PointerReading {
    /// Whether the left button is down.
    pub down: bool,
    /// Where on the phone's screen the cursor is, if that is known.
    pub at: Option<Point>,
    /// Whether `at` differs from the last position by more than a thousandth of the
    /// screen in either direction.
    pub moved: bool,
}

/// The state after a reading. A press without a position is not seen.
pub open spec fn touch_next(state: InputState, reading: PointerReading) -> InputState {
    if reading.down {
        match reading.at {
            Some(at) => InputState { touching: true, last: at },
            None => state,
        }
    } else {
        InputState { touching: false, last: state.last }
    }
}

/// What a reading says to the phone: a finger that comes down, one that moves, or
/// one that is lifted where it was last.
pub open spec fn touch_said(state: InputState, reading: PointerReading) -> Option<Message> {
    if reading.down {
        match reading.at {
            Some(at) => if !state.touching {
                Some(touch_message(TouchPhase::Down, at))
            } else if reading.moved {
                Some(touch_message(TouchPhase::Move, at))
            } else {
                None
            },
            None => None,
        }
    } else if state.touching {
        Some(touch_message(TouchPhase::Up, state.last))
    } else {
        None
    }
}

/// Turn what the mouse does at one frame into touches.
pub fn pump_input(state: &mut InputState, reading: PointerReading, tx: &mut Outbox)
    ensures
        *final(state) == touch_next(*old(state), reading),
        final(tx)@ == with_message(old(tx)@, touch_said(*old(state), reading)),
        reading.down ==> (reading.at matches Some(at) ==> {
            &&& final(state).touching && final(state).last == at
            &&& !old(state).touching ==> final(tx)@ == old(tx)@.push(
                Message::Touch { phase: TouchPhase::Down, finger: 0, at },
            )
            &&& old(state).touching && reading.moved ==> final(tx)@ == old(tx)@.push(
                Message::Touch { phase: TouchPhase::Move, finger: 0, at },
            )
            &&& old(state).touching && !reading.moved ==> final(tx)@ == old(tx)@
        }),
        reading.down && reading.at is None ==> final(tx)@ == old(tx)@ && *final(state) == *old(
            state,
        ),
        !reading.down ==> !final(state).touching && final(state).last == old(state).last,
        !reading.down && old(state).touching ==> final(tx)@ == old(tx)@.push(
            Message::Touch { phase: TouchPhase::Up, finger: 0, at: old(state).last },
        ),
        !reading.down && !old(state).touching ==> final(tx)@ == old(tx)@,
{
    if reading.down {
        if let Some(at) = reading.at {
            if !state.touching {
                send_touch(tx, TouchPhase::Down, at);
                state.touching = true;
            } else if reading.moved {
                // Only a position that actually changed is a move.
                send_touch(tx, TouchPhase::Move, at);
            }
            state.last = at;
        }
    } else if state.touching {
        // Lift wherever the button was released, even outside the window: without
        // this the phone keeps a finger down and ignores every later touch.
        send_touch(tx, TouchPhase::Up, state.last);
        state.touching = false;
    }
}

/// The state after a sequence of readings that starts without a touch.
pub open spec fn state_after(readings: Seq<PointerReading>) -> InputState
    decreases readings.len(),
{
    if readings.len() == 0 {
        no_touch()
    } else {
        touch_next(state_after(readings.drop_last()), readings.last())
    }
}

/// Everything that a sequence of readings says to the phone.
pub open spec fn touches_of(readings: Seq<PointerReading>) -> Seq<Message>
    decreases readings.len(),
{
    if readings.len() == 0 {
        Seq::empty()
    } else {
        with_message(
            touches_of(readings.drop_last()),
            touch_said(state_after(readings.drop_last()), readings.last()),
        )
    }
}

/// Whether the phone has a finger on its screen after some messages, and `None` if
/// they make no sense: a finger can only come down when it is up, and only move or be
/// lifted when it is down.
pub open spec fn finger_after(messages: Seq<Message>) -> Option<bool>
    decreases messages.len(),
{
    if messages.len() == 0 {
        Some(false)
    } else {
        match (finger_after(messages.drop_last()), messages.last()) {
            (Some(false), Message::Touch { phase: TouchPhase::Down, .. }) => Some(true),
            (Some(true), Message::Touch { phase: TouchPhase::Move, .. }) => Some(true),
            (Some(true), Message::Touch { phase: TouchPhase::Up, .. }) => Some(false),
            _ => None,
        }
    }
}

/// Whatever the mouse does, the phone sees well-formed touches (down, then moves,
/// then up, and so on), and it has a finger down exactly while the window thinks so.
pub proof fn law_touches_well_formed(readings: Seq<PointerReading>)
    ensures
        finger_after(touches_of(readings)) == Some(state_after(readings).touching),
    decreases readings.len(),
{
    if readings.len() > 0 {
        let before = readings.drop_last();
        law_touches_well_formed(before);
        match touch_said(state_after(before), readings.last()) {
            Some(m) => {
                assert(touches_of(before).push(m).drop_last() =~= touches_of(before));
            },
            None => {},
        }
    }
}

/// Once the button is up, no finger is left on the phone's screen, whatever came
/// before and wherever the button was released.
pub proof fn law_release_lifts(readings: Seq<PointerReading>)
    requires
        readings.len() > 0,
        !readings.last().down,
    ensures
        !state_after(readings).touching,
        finger_after(touches_of(readings)) == Some(false),
{
    law_touches_well_formed(readings);
}

/// The finger is lifted where the phone last saw it come down or could have seen it
/// move: at the position of the latest reading with the button down and a position.
pub proof fn law_lifts_at_last_position(
    before: Seq<PointerReading>,
    at: Point,
    moved: bool,
    release: PointerReading,
)
    requires
        !release.down,
    ensures
        ({
            let pressed = PointerReading { down: true, at: Some(at), moved };
            let held = before.push(pressed);
            touches_of(held.push(release)) == touches_of(held).push(
                touch_message(TouchPhase::Up, at),
            )
        }),
{
    let pressed = PointerReading { down: true, at: Some(at), moved };
    let held = before.push(pressed);
    assert(held.drop_last() =~= before);
    assert(held.push(release).drop_last() =~= held);
}

/// A press with a position puts the finger down there, and only a finger that was up: the
/// phone is told once, with that very position.
pub proof fn law_press_puts_finger_down(state: InputState, at: Point, moved: bool)
    requires
        !state.touching,
    ensures
        touch_said(state, PointerReading { down: true, at: Some(at), moved }) == Some(
            Message::Touch { phase: TouchPhase::Down, finger: 0, at },
        ),
        touch_next(state, PointerReading { down: true, at: Some(at), moved }) == (InputState {
            touching: true,
            last: at,
        }),
{
}

/// A drag moves the finger to every position that is reported as moved, wherever it was
/// before and in whichever direction; a position that is not is only remembered.
pub proof fn law_drag_moves_finger(state: InputState, at: Point)
    requires
        state.touching,
    ensures
        touch_said(state, PointerReading { down: true, at: Some(at), moved: true }) == Some(
            Message::Touch { phase: TouchPhase::Move, finger: 0, at },
        ),
        touch_said(state, PointerReading { down: true, at: Some(at), moved: false }) is None,
        forall|moved: bool|
            #![trigger touch_next(state, PointerReading { down: true, at: Some(at), moved })]
            touch_next(state, PointerReading { down: true, at: Some(at), moved }) == (InputState {
                touching: true,
                last: at,
            }),
{
}

/// A release lifts the finger at its last position, wherever the cursor is, and says
/// nothing when the finger was up already; a press without a position changes nothing.
pub proof fn law_release_and_lost_press(state: InputState, at: Option<Point>, moved: bool)
    ensures
        touch_said(state, PointerReading { down: false, at, moved }) == (if state.touching {
            Some(Message::Touch { phase: TouchPhase::Up, finger: 0, at: state.last })
        } else {
            None
        }),
        touch_next(state, PointerReading { down: false, at, moved }) == (InputState {
            touching: false,
            last: state.last,
        }),
        touch_said(state, PointerReading { down: true, at: None, moved }) is None,
        touch_next(state, PointerReading { down: true, at: None, moved }) == state,
        no_touch() == (InputState { touching: false, last: Point { x: 0, y: 0 } }),
{
}

/// A drag through any positions, each reported as moved, is one touch: the finger comes
/// down at the first, moves through each of the others in order, and is lifted at the last.
pub proof fn law_drag_is_one_touch(first: Point, path: Seq<Point>)
    ensures
        ({
            let pressed = seq![PointerReading { down: true, at: Some(first), moved: true }];
            let drag = Seq::new(
                path.len(),
                |k: int| PointerReading { down: true, at: Some(path[k]), moved: true },
            );
            let moves = Seq::new(
                path.len(),
                |k: int| Message::Touch { phase: TouchPhase::Move, finger: 0, at: path[k] },
            );
            let down = seq![Message::Touch { phase: TouchPhase::Down, finger: 0, at: first }];
            &&& touches_of(pressed + drag) == down + moves
            &&& state_after(pressed + drag).touching
            &&& state_after(pressed + drag).last == (if path.len() == 0 {
                first
            } else {
                path.last()
            })
        }),
    decreases path.len(),
{
    let reading = |at: Point| PointerReading { down: true, at: Some(at), moved: true };
    let pressed = seq![PointerReading { down: true, at: Some(first), moved: true }];
    let drag = Seq::new(
        path.len(),
        |k: int| PointerReading { down: true, at: Some(path[k]), moved: true },
    );
    let moves = Seq::new(
        path.len(),
        |k: int| Message::Touch { phase: TouchPhase::Move, finger: 0, at: path[k] },
    );
    let down = seq![Message::Touch { phase: TouchPhase::Down, finger: 0, at: first }];
    if path.len() == 0 {
        assert(pressed + drag =~= pressed);
        assert(pressed.drop_last() =~= Seq::<PointerReading>::empty());
        assert(touches_of(Seq::<PointerReading>::empty()) =~= Seq::<Message>::empty());
        assert(touches_of(pressed) =~= down + moves);
    } else {
        let shorter = path.drop_last();
        law_drag_is_one_touch(first, shorter);
        let fewer = Seq::new(
            shorter.len(),
            |k: int| PointerReading { down: true, at: Some(shorter[k]), moved: true },
        );
        let fewer_moves = Seq::new(
            shorter.len(),
            |k: int| Message::Touch { phase: TouchPhase::Move, finger: 0, at: shorter[k] },
        );
        assert((pressed + drag).drop_last() =~= pressed + fewer);
        assert((pressed + drag).last() == reading(path.last()));
        assert(down + moves =~= (down + fewer_moves).push(
            Message::Touch { phase: TouchPhase::Move, finger: 0, at: path.last() },
        ));
    }
}

} // verus!
