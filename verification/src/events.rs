//! Events: what a joystick tells the application on each tick.

use crate::components::{VirtualJoystickID, VirtualJoystickState};
use crate::math::{origin, vec2_from_ints};
use bevy::math::Vec2;
use vstd::prelude::*;

verus! {

/// The kind of an event.
#[derive(Clone, Copy, Debug, PartialEq, Eq)]
pub enum VirtualJoystickEventType {
    Press,
    Drag,
    Up,
}

/// One event of one joystick.
#[derive(Debug, PartialEq)]
pub struct VirtualJoystickEvent<S: VirtualJoystickID> {
    /// Identity of the joystick.
    pub id: S,
    pub event: VirtualJoystickEventType,
    /// Position of the pointer; zero for `Up`.
    pub value: Vec2,
    /// The joystick's delta.
    pub delta: Vec2,
}

/// What an event says, apart from the joystick it belongs to.
pub struct EventBody {
    pub event: VirtualJoystickEventType,
    pub value: Vec2,
    pub delta: Vec2,
}

impl<S: VirtualJoystickID> VirtualJoystickEvent<S> {
    /// What this event says.
    pub open spec fn body(self) -> EventBody {
        EventBody { event: self.event, value: self.value, delta: self.delta }
    }
}

/// What the events of a joystick in `state` say, in the order of emission. A
/// release gives one `Up` with value zero. Otherwise a touch state gives a
/// `Drag` at the pointer's position, and one that was just pressed gives a
/// `Press` at the same position before it. Without either there is no event.
pub open spec fn event_bodies(state: VirtualJoystickState) -> Seq<EventBody> {
    if state.just_released {
        seq![
            EventBody { event: VirtualJoystickEventType::Up, value: origin(), delta: state.delta },
        ]
    } else {
        match state.touch_state {
            Some(touch) => {
                let drag = EventBody {
                    event: VirtualJoystickEventType::Drag,
                    value: touch.current,
                    delta: state.delta,
                };
                if touch.just_pressed {
                    seq![
                        EventBody {
                            event: VirtualJoystickEventType::Press,
                            value: touch.current,
                            delta: state.delta,
                        },
                        drag,
                    ]
                } else {
                    seq![drag]
                }
            },
            None => Seq::empty(),
        }
    }
}

/// Whether `queue` ends, from index `from` on, with the events of the
/// joystick `id` in `state`: each carries a clone of `id`, and they say what
/// `event_bodies` gives, in order.
pub open spec fn events_of<S: VirtualJoystickID>(
    queue: Seq<VirtualJoystickEvent<S>>,
    from: int,
    id: S,
    state: VirtualJoystickState,
) -> bool {
    &&& queue.len() == from + event_bodies(state).len()
    &&& forall|k: int|
        #![trigger queue[k]]
        from <= k < queue.len() ==> cloned(id, queue[k].id) && queue[k].body() == event_bodies(
            state,
        )[k - from]
}

/// Appends the events of the joystick `id` in `state` to `queue`.
pub fn fire_events<S: VirtualJoystickID>(
    id: &S,
    state: &VirtualJoystickState,
    queue: &mut Vec<VirtualJoystickEvent<S>>,
)
    ensures
        forall|k: int| 0 <= k < old(queue)@.len() ==> #[trigger] final(queue)@[k] == old(queue)@[k],
        events_of(final(queue)@, old(queue)@.len() as int, *id, *state),
{
    if state.just_released {
        queue.push(
            VirtualJoystickEvent {
                id: id.clone(),
                event: VirtualJoystickEventType::Up,
                value: vec2_from_ints(0, 0),
                delta: state.delta,
            },
        );
    } else {
        match state.touch_state {
            Some(touch) => {
                if touch.just_pressed {
                    queue.push(
                        VirtualJoystickEvent {
                            id: id.clone(),
                            event: VirtualJoystickEventType::Press,
                            value: touch.current,
                            delta: state.delta,
                        },
                    );
                }
                queue.push(
                    VirtualJoystickEvent {
                        id: id.clone(),
                        event: VirtualJoystickEventType::Drag,
                        value: touch.current,
                        delta: state.delta,
                    },
                );
            },
            None => {},
        }
    }
}

} // verus!
