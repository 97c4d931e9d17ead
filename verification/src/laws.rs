//! What holds of a joystick over ticks, proved from the definitions of the
//! stages.

use crate::action::{drag_transition, DragAction, NoAction, VirtualJoystickAction};
use crate::behavior::{
    floating_delta_stage, floating_update, JoystickFloating, VirtualJoystickBehavior,
};
use crate::components::{
    JoystickGeometry, VirtualJoystick, VirtualJoystickID, VirtualJoystickState,
};
use crate::events::{event_bodies, EventBody, VirtualJoystickEventType};
use crate::input::{
    acquisition, first_inside, first_inside_from, first_with_id, first_with_id_from,
    input_reduced, lists_pressed, pressed_touches, TouchSample,
};
use crate::math::{origin, rect_holds, vec2_clamped};
use bevy::input::touch::Touches;
use bevy::math::{Rect, Vec2};
use vstd::prelude::*;

verus! {

/// What the host reports to one joystick for one tick.
pub struct TickInput {
    pub pressed: bool,
    pub geometry: JoystickGeometry,
    pub samples: Seq<TouchSample>,
    pub cursor: Option<Vec2>,
}

/// The state of a floating joystick one tick after `state`.
pub open spec fn floating_tick(state: VirtualJoystickState, input: TickInput) -> VirtualJoystickState {
    floating_update(
        floating_delta_stage(
            input_reduced(
                state,
                input.pressed,
                input.geometry.position,
                input.geometry.rect,
                input.samples,
                input.cursor,
            ),
            input.geometry,
        ),
        input.geometry,
    )
}

/// The state of a floating joystick that began in `start`, after the first
/// `n` of `ticks`.
pub open spec fn floating_state_after(
    start: VirtualJoystickState,
    ticks: Seq<TickInput>,
    n: nat,
) -> VirtualJoystickState
    decreases n,
{
    if n == 0 {
        start
    } else {
        floating_tick(floating_state_after(start, ticks, (n - 1) as nat), ticks[n - 1])
    }
}

/// Whether `delta` is the zero vector or some vector clamped to between -1
/// and 1 on each axis.
pub open spec fn zero_or_clamped(delta: Vec2) -> bool {
    delta == origin() || exists|v: Vec2| delta == #[trigger] vec2_clamped(v, -1, 1)
}

/// Input reduction raises the press edge exactly when it acquires a pointer,
/// that is on a press without a touch state, and the release edge exactly
/// when a press ends that had a touch state. It never raises both.
pub proof fn lemma_input_edges(
    state: VirtualJoystickState,
    pressed: bool,
    position: Vec2,
    rect: Rect,
    samples: Seq<TouchSample>,
    cursor: Option<Vec2>,
)
    ensures
        input_reduced(state, pressed, position, rect, samples, cursor).press_edge() <==> (
        state.touch_state is None && pressed),
        input_reduced(state, pressed, position, rect, samples, cursor).just_released <==> (
        state.touch_state is Some && !pressed),
        !(input_reduced(state, pressed, position, rect, samples, cursor).press_edge()
            && input_reduced(state, pressed, position, rect, samples, cursor).just_released),
{
}

/// The stages of a floating joystick that follow input reduction leave the
/// touch state and the release edge as input reduction set them, so the
/// state stays well formed through the whole tick.
pub proof fn lemma_floating_keeps_edges(state: VirtualJoystickState, geometry: JoystickGeometry)
    ensures
        floating_update(floating_delta_stage(state, geometry), geometry).touch_state
            == state.touch_state,
        floating_update(floating_delta_stage(state, geometry), geometry).just_released
            == state.just_released,
        state.well_formed() ==> floating_update(
            floating_delta_stage(state, geometry),
            geometry,
        ).well_formed(),
{
}

/// Over any sequence of ticks of a floating joystick, the press edge is up
/// after a tick exactly when that tick acquired a pointer, and the release
/// edge exactly when that tick ended an engagement. Neither edge is up after
/// two ticks in a row.
pub proof fn lemma_edges_last_one_tick(start: VirtualJoystickState, ticks: Seq<TickInput>, n: nat)
    requires
        0 < n <= ticks.len(),
    ensures
        floating_state_after(start, ticks, n).press_edge() <==> (floating_state_after(
            start,
            ticks,
            (n - 1) as nat,
        ).touch_state is None && ticks[n - 1].pressed),
        floating_state_after(start, ticks, n).just_released <==> (floating_state_after(
            start,
            ticks,
            (n - 1) as nat,
        ).touch_state is Some && !ticks[n - 1].pressed),
        n < ticks.len() ==> !(floating_state_after(start, ticks, n).press_edge()
            && floating_state_after(start, ticks, n + 1).press_edge()),
        n < ticks.len() ==> !(floating_state_after(start, ticks, n).just_released
            && floating_state_after(start, ticks, n + 1).just_released),
{
    let before = floating_state_after(start, ticks, (n - 1) as nat);
    let after = floating_state_after(start, ticks, n);
    assert(after == floating_tick(before, ticks[n - 1]));
    if n < ticks.len() {
        assert(floating_state_after(start, ticks, n + 1) == floating_tick(after, ticks[n as int]));
    }
}

/// A joystick holds at most one touch state, and while the press lasts it
/// is the state of one and the same pointer: input reduction keeps the id,
/// the kind and the start of the pointer that it follows, and takes up a
/// pointer only where there was none.
pub proof fn lemma_pointer_is_kept(
    state: VirtualJoystickState,
    pressed: bool,
    position: Vec2,
    rect: Rect,
    samples: Seq<TouchSample>,
    cursor: Option<Vec2>,
)
    ensures
        input_reduced(state, pressed, position, rect, samples, cursor).touch_state is Some
            <==> pressed,
        state.touch_state is Some && pressed ==> input_reduced(
            state,
            pressed,
            position,
            rect,
            samples,
            cursor,
        ).touch_state->Some_0.same_pointer(state.touch_state->Some_0),
{
}

/// On the tick of a press a joystick emits two events, a `Press` and then a
/// `Drag`, both at the pointer's position.
pub proof fn lemma_press_precedes_drag(state: VirtualJoystickState)
    requires
        state.press_edge(),
        !state.just_released,
    ensures
        event_bodies(state).len() == 2,
        event_bodies(state)[0] == (EventBody {
            event: VirtualJoystickEventType::Press,
            value: state.touch_state->Some_0.current,
            delta: state.delta,
        }),
        event_bodies(state)[1] == (EventBody {
            event: VirtualJoystickEventType::Drag,
            value: state.touch_state->Some_0.current,
            delta: state.delta,
        }),
        drag_transition(state) == Some(DragAction::StartDrag),
{
}

/// The tick on which a floating joystick acquires a pointer is a press tick:
/// its events are a `Press` and then a `Drag`.
pub proof fn lemma_acquisition_emits_press_then_drag(state: VirtualJoystickState, input: TickInput)
    requires
        state.touch_state is None,
        input.pressed,
    ensures
        event_bodies(floating_tick(state, input)).len() == 2,
        event_bodies(floating_tick(state, input))[0].event == VirtualJoystickEventType::Press,
        event_bodies(floating_tick(state, input))[1].event == VirtualJoystickEventType::Drag,
{
}

/// A floating joystick without a touch state and without a press emits no
/// event and shows no transition; its base offset stays, its delta is zero,
/// and a further idle tick changes nothing.
pub proof fn lemma_idle_is_stable(state: VirtualJoystickState, input: TickInput, again: TickInput)
    requires
        state.touch_state is None,
        !input.pressed,
        !again.pressed,
    ensures
        event_bodies(floating_tick(state, input)) == Seq::<EventBody>::empty(),
        drag_transition(floating_tick(state, input)) is None,
        floating_tick(state, input).touch_state is None,
        floating_tick(state, input).base_offset == state.base_offset,
        floating_tick(state, input).delta == origin(),
        floating_tick(floating_tick(state, input), again) == floating_tick(state, input),
{
}

/// Input reduction alone never changes the delta or the base offset.
pub proof fn lemma_input_keeps_output(
    state: VirtualJoystickState,
    pressed: bool,
    position: Vec2,
    rect: Rect,
    samples: Seq<TouchSample>,
    cursor: Option<Vec2>,
)
    ensures
        input_reduced(state, pressed, position, rect, samples, cursor).delta == state.delta,
        input_reduced(state, pressed, position, rect, samples, cursor).base_offset
            == state.base_offset,
{
}

/// The delta of a floating joystick is the zero vector or a vector clamped
/// to between -1 and 1 on each axis: the idle state has such a delta, and a
/// tick keeps it so.
pub proof fn lemma_floating_delta_is_clamped(state: VirtualJoystickState, input: TickInput)
    requires
        zero_or_clamped(state.delta),
    ensures
        zero_or_clamped(VirtualJoystickState::idle().delta),
        zero_or_clamped(floating_tick(state, input).delta),
{
}

/// An instance with the floating behavior and no action is, one tick
/// later, what `floating_tick` and the placement of its visuals give.
pub proof fn lemma_default_instance_tick<S: VirtualJoystickID>(
    before: VirtualJoystick<S, JoystickFloating, NoAction>,
    after: VirtualJoystick<S, JoystickFloating, NoAction>,
    samples: Seq<TouchSample>,
    cursor: Option<Vec2>,
)
    requires
        before.ticked(after, samples, cursor),
    ensures
        after == (match before.state {
            Some(state) => before.with_state(
                Some(
                    floating_tick(
                        state,
                        TickInput {
                            pressed: before.pressed,
                            geometry: before.geometry,
                            samples,
                            cursor,
                        },
                    ),
                ),
            ).visuals_placed(),
            None => before,
        }),
{
}

/// Whatever the behavior and the action of an instance, a tick leaves its
/// configuration alone, and the edges of its state are those of input
/// reduction: the press edge is up after the tick exactly when the tick
/// acquired a pointer, the release edge exactly when it ended an engagement,
/// and a pointer that stays engaged stays the same pointer.
pub proof fn lemma_tick_edges<S: VirtualJoystickID, B: VirtualJoystickBehavior, A: VirtualJoystickAction<S>>(
    before: VirtualJoystick<S, B, A>,
    after: VirtualJoystick<S, B, A>,
    samples: Seq<TouchSample>,
    cursor: Option<Vec2>,
)
    requires
        before.ticked(after, samples, cursor),
        before.state is Some,
    ensures
        after.node == before.node,
        after.pressed == before.pressed,
        after.geometry == before.geometry,
        after.state is Some,
        after.state->Some_0.well_formed(),
        after.state->Some_0.press_edge() <==> (before.state->Some_0.touch_state is None
            && before.pressed),
        after.state->Some_0.just_released <==> (before.state->Some_0.touch_state is Some
            && !before.pressed),
        after.state->Some_0.touch_state is Some <==> before.pressed,
        before.state->Some_0.touch_state is Some && before.pressed
            ==> after.state->Some_0.touch_state->Some_0.same_pointer(
            before.state->Some_0.touch_state->Some_0,
        ),
{
}

/// An instance whose behavior skips every stage is, one tick later, what
/// input reduction and the placement of its visuals give.
pub proof fn lemma_skipping_behavior_tick<S: VirtualJoystickID, B: VirtualJoystickBehavior, A: VirtualJoystickAction<S>>(
    before: VirtualJoystick<S, B, A>,
    after: VirtualJoystick<S, B, A>,
    samples: Seq<TouchSample>,
    cursor: Option<Vec2>,
)
    requires
        before.ticked(after, samples, cursor),
        before.node.behavior.skips_delta_stage(),
        before.node.behavior.skips_constraint_stage(),
        before.node.behavior.skips_update(),
    ensures
        after == before.input_reduced(samples, cursor).visuals_placed(),
{
}

/// What `first_inside_from` finds is the earliest sample from `from` on
/// that began inside `rect`; it finds none only where there is none.
pub proof fn lemma_first_inside_is_earliest(samples: Seq<TouchSample>, rect: Rect, from: int)
    requires
        0 <= from <= samples.len(),
    ensures
        (match first_inside_from(samples, rect, from) {
            Some(sample) => exists|i: int|
                {
                    &&& from <= i < samples.len()
                    &&& #[trigger] samples[i] == sample
                    &&& rect_holds(rect, sample.start_position)
                    &&& forall|j: int|
                        from <= j < i ==> !rect_holds(rect, (#[trigger] samples[j]).start_position)
                },
            None => forall|j: int|
                from <= j < samples.len() ==> !rect_holds(
                    rect,
                    (#[trigger] samples[j]).start_position,
                ),
        }),
    decreases samples.len() - from,
{
    if from < samples.len() && !rect_holds(rect, samples[from].start_position) {
        lemma_first_inside_is_earliest(samples, rect, from + 1);
        match first_inside_from(samples, rect, from + 1) {
            Some(sample) => {
                let i = choose|i: int|
                    {
                        &&& from + 1 <= i < samples.len()
                        &&& #[trigger] samples[i] == sample
                        &&& rect_holds(rect, sample.start_position)
                        &&& forall|j: int|
                            from + 1 <= j < i ==> !rect_holds(
                                rect,
                                (#[trigger] samples[j]).start_position,
                            )
                    };
                assert(samples[i] == sample);
            },
            None => {},
        }
    } else if from < samples.len() {
        assert(samples[from] == samples[from]);
    }
}

/// What `first_with_id_from` finds is the earliest sample from `from` on
/// with the given id; it finds none only where there is none.
pub proof fn lemma_first_with_id_is_earliest(samples: Seq<TouchSample>, id: u64, from: int)
    requires
        0 <= from <= samples.len(),
    ensures
        (match first_with_id_from(samples, id, from) {
            Some(sample) => exists|i: int|
                {
                    &&& from <= i < samples.len()
                    &&& #[trigger] samples[i] == sample
                    &&& sample.id == id
                    &&& forall|j: int| from <= j < i ==> (#[trigger] samples[j]).id != id
                },
            None => forall|j: int| from <= j < samples.len() ==> (#[trigger] samples[j]).id != id,
        }),
    decreases samples.len() - from,
{
    if from < samples.len() && samples[from].id != id {
        lemma_first_with_id_is_earliest(samples, id, from + 1);
        match first_with_id_from(samples, id, from + 1) {
            Some(sample) => {
                let i = choose|i: int|
                    {
                        &&& from + 1 <= i < samples.len()
                        &&& #[trigger] samples[i] == sample
                        &&& sample.id == id
                        &&& forall|j: int| from + 1 <= j < i ==> (#[trigger] samples[j]).id != id
                    };
                assert(samples[i] == sample);
            },
            None => {},
        }
    } else if from < samples.len() {
        assert(samples[from] == samples[from]);
    }
}

/// In whatever order the host lists its pressed touches, the touch found
/// for an id is the pressed touch of that id, if there is one.
pub proof fn lemma_follows_the_pressed_touch(samples: Seq<TouchSample>, touches: Touches, id: u64)
    requires
        lists_pressed(samples, touches),
    ensures
        first_with_id(samples, id) == (if pressed_touches(touches).contains_key(id) {
            Some(pressed_touches(touches)[id])
        } else {
            None
        }),
{
    lemma_first_with_id_is_earliest(samples, id, 0);
    match first_with_id(samples, id) {
        Some(sample) => {
            let i = choose|i: int|
                {
                    &&& 0 <= i < samples.len()
                    &&& #[trigger] samples[i] == sample
                    &&& sample.id == id
                    &&& forall|j: int| 0 <= j < i ==> (#[trigger] samples[j]).id != id
                };
            assert(pressed_touches(touches).contains_key(samples[i].id));
        },
        None => {
            if pressed_touches(touches).contains_key(id) {
                let i = choose|i: int| 0 <= i < samples.len() && #[trigger] samples[i].id == id;
                assert(samples[i].id == id);
            }
        },
    }
}

/// In whatever order the host lists its pressed touches, a press acquires
/// one of the pressed touches that began inside the rectangle, where there
/// is one, and a pointer made from the mouse only where there is none.
pub proof fn lemma_acquires_a_pressed_touch(
    samples: Seq<TouchSample>,
    touches: Touches,
    position: Vec2,
    rect: Rect,
    cursor: Option<Vec2>,
)
    requires
        lists_pressed(samples, touches),
    ensures
        acquisition(position, rect, samples, cursor).just_pressed,
        acquisition(position, rect, samples, cursor).current == acquisition(
            position,
            rect,
            samples,
            cursor,
        ).start,
        !acquisition(position, rect, samples, cursor).is_mouse <==> exists|id: u64|
            #[trigger] pressed_touches(touches).contains_key(id) && rect_holds(
                rect,
                pressed_touches(touches)[id].start_position,
            ),
        !acquisition(position, rect, samples, cursor).is_mouse ==> ({
            let touch = acquisition(position, rect, samples, cursor);
            &&& pressed_touches(touches).contains_key(touch.id)
            &&& rect_holds(rect, pressed_touches(touches)[touch.id].start_position)
            &&& touch.start == pressed_touches(touches)[touch.id].position
        }),
        acquisition(position, rect, samples, cursor).is_mouse ==> ({
            let touch = acquisition(position, rect, samples, cursor);
            &&& touch.id == 0
            &&& touch.start == (match cursor {
                Some(at) => at,
                None => position,
            })
        }),
{
    lemma_first_inside_is_earliest(samples, rect, 0);
    match first_inside(samples, rect) {
        Some(sample) => {
            let i = choose|i: int|
                {
                    &&& 0 <= i < samples.len()
                    &&& #[trigger] samples[i] == sample
                    &&& rect_holds(rect, sample.start_position)
                    &&& forall|j: int|
                        0 <= j < i ==> !rect_holds(rect, (#[trigger] samples[j]).start_position)
                };
            assert(pressed_touches(touches).contains_key(samples[i].id));
            assert(pressed_touches(touches)[sample.id] == sample);
        },
        None => {
            assert forall|id: u64| #[trigger]
                pressed_touches(touches).contains_key(id) implies !rect_holds(
                rect,
                pressed_touches(touches)[id].start_position,
            ) by {
                let i = choose|i: int| 0 <= i < samples.len() && #[trigger] samples[i].id == id;
                assert(pressed_touches(touches)[samples[i].id] == samples[i]);
            }
        },
    }
}

} // verus!
