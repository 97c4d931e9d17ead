//! Input reduction: from the host's pointer and touch samples to the touch
//! state of one joystick.

use crate::components::{TouchState, VirtualJoystickState};
use crate::math::{rect_contains, rect_holds, vec2_differs, vec2_ne};
use bevy::input::touch::Touches;
use bevy::math::{Rect, Vec2};
use vstd::prelude::*;

verus! {

/// `Touches`, the host's record of the touches on the screen, is opaque
/// here: only `pressed_touches` speaks of what it holds.
#[verifier::external_type_specification]
#[verifier::external_body]
pub struct ExTouches(bevy::input::touch::Touches);

/// One pressed touch as the host reports it for a tick.
#[derive(Clone, Copy, Debug, PartialEq)]
pub struct TouchSample {
    pub id: u64,
    /// Where the touch began.
    pub start_position: Vec2,
    /// Where the touch is now.
    pub position: Vec2,
}

/// The touches that `touches` holds as pressed, by their id.
pub uninterp spec fn pressed_touches(touches: Touches) -> Map<u64, TouchSample>;

/// Whether `samples` lists the pressed touches of `touches`, each once and
/// under its own id, in some order.
pub open spec fn lists_pressed(samples: Seq<TouchSample>, touches: Touches) -> bool {
    &&& forall|i: int|
        0 <= i < samples.len() ==> pressed_touches(touches).contains_key(#[trigger] samples[i].id)
            && pressed_touches(touches)[samples[i].id] == samples[i]
    &&& forall|id: u64| #[trigger]
        pressed_touches(touches).contains_key(id) ==> exists|i: int|
            0 <= i < samples.len() && #[trigger] samples[i].id == id
    &&& forall|i: int, j: int|
        0 <= i < j < samples.len() ==> #[trigger] samples[i].id != #[trigger] samples[j].id
}

/// Walks `Touches::iter`, which visits every pressed touch once in an order
/// that is not specified, and copies the id, the start position and the
/// position of each. `Touches` keeps its pressed touches in a map keyed by
/// the touch's own id.
#[verifier::external_body]
pub(crate) fn pressed_samples(touches: &Touches) -> (samples: Vec<TouchSample>)
    ensures
        forall|i: int|
            0 <= i < samples@.len() ==> pressed_touches(*touches).contains_key(
                #[trigger] samples@[i].id,
            ) && pressed_touches(*touches)[samples@[i].id] == samples@[i],
        forall|id: u64| #[trigger]
            pressed_touches(*touches).contains_key(id) ==> exists|i: int|
                0 <= i < samples@.len() && #[trigger] samples@[i].id == id,
        forall|i: int, j: int|
            0 <= i < j < samples@.len() ==> #[trigger] samples@[i].id != #[trigger] samples@[j].id,
{
    touches.iter().map(
        |touch|
            TouchSample {
                id: touch.id(),
                start_position: touch.start_position(),
                position: touch.position(),
            },
    ).collect()
}

/// The first sample at or after index `from` whose start position lies in `rect`.
pub open spec fn first_inside_from(samples: Seq<TouchSample>, rect: Rect, from: int) -> Option<
    TouchSample,
>
    decreases samples.len() - from,
{
    if from < 0 || from >= samples.len() {
        None
    } else if rect_holds(rect, samples[from].start_position) {
        Some(samples[from])
    } else {
        first_inside_from(samples, rect, from + 1)
    }
}

/// The first sample whose start position lies in `rect`.
pub open spec fn first_inside(samples: Seq<TouchSample>, rect: Rect) -> Option<TouchSample> {
    first_inside_from(samples, rect, 0)
}

/// The first sample at or after index `from` with the given id.
pub open spec fn first_with_id_from(samples: Seq<TouchSample>, id: u64, from: int) -> Option<
    TouchSample,
>
    decreases samples.len() - from,
{
    if from < 0 || from >= samples.len() {
        None
    } else if samples[from].id == id {
        Some(samples[from])
    } else {
        first_with_id_from(samples, id, from + 1)
    }
}

/// The first sample with the given id.
pub open spec fn first_with_id(samples: Seq<TouchSample>, id: u64) -> Option<TouchSample> {
    first_with_id_from(samples, id, 0)
}

/// Finds the first touch that began inside `rect`.
pub fn find_touch_in_rect(samples: &Vec<TouchSample>, rect: &Rect) -> (found: Option<TouchSample>)
    ensures
        found == first_inside(samples@, *rect),
{
    let mut i: usize = 0;
    while i < samples.len()
        invariant
            i <= samples.len(),
            first_inside(samples@, *rect) == first_inside_from(samples@, *rect, i as int),
        decreases samples.len() - i,
    {
        let sample = samples[i];
        if rect_contains(rect, sample.start_position) {
            return Some(sample);
        }
        i = i + 1;
    }
    None
}

/// Finds the pressed touch with the given id.
pub fn find_touch_by_id(samples: &Vec<TouchSample>, id: u64) -> (found: Option<TouchSample>)
    ensures
        found == first_with_id(samples@, id),
{
    let mut i: usize = 0;
    while i < samples.len()
        invariant
            i <= samples.len(),
            first_with_id(samples@, id) == first_with_id_from(samples@, id, i as int),
        decreases samples.len() - i,
    {
        let sample = samples[i];
        if sample.id == id {
            return Some(sample);
        }
        i = i + 1;
    }
    None
}

/// The touch state that a press on `rect` acquires: the first touch that
/// began inside `rect`, at its current position, or else a pointer made from
/// the cursor, which stands at `position` when the host reports no cursor.
pub open spec fn acquisition(
    position: Vec2,
    rect: Rect,
    samples: Seq<TouchSample>,
    cursor: Option<Vec2>,
) -> TouchState {
    match first_inside(samples, rect) {
        Some(sample) => TouchState::acquired(sample.id, false, sample.position),
        None => TouchState::acquired(
            0,
            true,
            match cursor {
                Some(at) => at,
                None => position,
            },
        ),
    }
}

/// The position at which the host now reports the pointer of `touch`, if it
/// reports one: the cursor for a pointer made from the mouse, the pressed
/// touch of the same id for any other.
pub open spec fn live_position(
    touch: TouchState,
    samples: Seq<TouchSample>,
    cursor: Option<Vec2>,
) -> Option<Vec2> {
    if touch.is_mouse {
        cursor
    } else {
        match first_with_id(samples, touch.id) {
            Some(sample) => Some(sample.position),
            None => None,
        }
    }
}

/// `touch` one tick later while the press lasts: no longer just pressed, and
/// moved to the live position where there is one and it differs.
pub open spec fn followed(touch: TouchState, live: Option<Vec2>) -> TouchState {
    TouchState {
        just_pressed: false,
        current: match live {
            Some(at) => if vec2_differs(at, touch.current) {
                at
            } else {
                touch.current
            },
            None => touch.current,
        },
        ..touch
    }
}

/// The state of a joystick after the input reduction of one tick.
///
/// Without a touch state and without a press only the release edge is
/// cleared. A press without a touch state acquires one. With a touch state,
/// the end of the press removes it and raises the release edge; otherwise
/// the touch follows its pointer.
pub open spec fn input_reduced(
    state: VirtualJoystickState,
    pressed: bool,
    position: Vec2,
    rect: Rect,
    samples: Seq<TouchSample>,
    cursor: Option<Vec2>,
) -> VirtualJoystickState {
    match state.touch_state {
        None => if pressed {
            VirtualJoystickState {
                touch_state: Some(acquisition(position, rect, samples, cursor)),
                just_released: false,
                ..state
            }
        } else {
            VirtualJoystickState { just_released: false, ..state }
        },
        Some(touch) => if pressed {
            VirtualJoystickState {
                touch_state: Some(followed(touch, live_position(touch, samples, cursor))),
                just_released: false,
                ..state
            }
        } else {
            VirtualJoystickState { touch_state: None, just_released: true, ..state }
        },
    }
}

/// Acquires a pointer for a joystick that was just pressed.
pub fn acquire_touch(
    position: Vec2,
    rect: &Rect,
    samples: &Vec<TouchSample>,
    cursor: Option<Vec2>,
) -> (touch: TouchState)
    ensures
        touch == acquisition(position, *rect, samples@, cursor),
{
    match find_touch_in_rect(samples, rect) {
        Some(sample) => TouchState {
            id: sample.id,
            is_mouse: false,
            start: sample.position,
            current: sample.position,
            just_pressed: true,
        },
        None => {
            let at = match cursor {
                Some(at) => at,
                None => position,
            };
            TouchState { id: 0, is_mouse: true, start: at, current: at, just_pressed: true }
        },
    }
}

/// Follows the pointer of `touch` for one more tick of the press.
pub fn track_touch(touch: TouchState, samples: &Vec<TouchSample>, cursor: Option<Vec2>) -> (next:
    TouchState)
    ensures
        next == followed(touch, live_position(touch, samples@, cursor)),
{
    let live = if touch.is_mouse {
        cursor
    } else {
        match find_touch_by_id(samples, touch.id) {
            Some(sample) => Some(sample.position),
            None => None,
        }
    };
    let mut next = touch;
    next.just_pressed = false;
    match live {
        Some(at) => {
            if vec2_ne(at, touch.current) {
                next.current = at;
            }
        },
        None => {},
    }
    next
}

/// Reduces the input of one tick for one joystick.
pub fn reduce_input(
    state: VirtualJoystickState,
    pressed: bool,
    position: Vec2,
    rect: &Rect,
    samples: &Vec<TouchSample>,
    cursor: Option<Vec2>,
) -> (next: VirtualJoystickState)
    ensures
        next == input_reduced(state, pressed, position, *rect, samples@, cursor),
        next.well_formed(),
{
    let mut next = state;
    next.just_released = false;
    match state.touch_state {
        None => {
            if pressed {
                next.touch_state = Some(acquire_touch(position, rect, samples, cursor));
            }
        },
        Some(touch) => {
            if pressed {
                next.touch_state = Some(track_touch(touch, samples, cursor));
            } else {
                next.touch_state = None;
                next.just_released = true;
            }
        },
    }
    next
}

} // verus!
