//! Actions: the hooks fired on the transitions of a drag.

use crate::components::{VirtualJoystickID, VirtualJoystickState};
use vstd::prelude::*;

verus! {

/// Hooks fired on the transitions of a drag. At most one of them is called
/// per tick and instance. A hook that is not written does nothing.
pub trait VirtualJoystickAction<S: VirtualJoystickID> {
    /// Called on the tick on which a pointer was acquired.
    fn on_start_drag(&self, id: S, state: VirtualJoystickState) {
    }

    /// Called on every later tick on which the pointer is still engaged.
    fn on_drag(&self, id: S, state: VirtualJoystickState) {
    }

    /// Called on the tick on which the pointer disengaged.
    fn on_end_drag(&self, id: S, state: VirtualJoystickState) {
    }
}

/// The action that does nothing.
#[derive(Clone, Copy, Debug, Default)]
pub struct NoAction;

impl<S: VirtualJoystickID> VirtualJoystickAction<S> for NoAction {

}

/// A transition of a drag.
#[derive(Clone, Copy, Debug, PartialEq, Eq)]
pub enum DragAction {
    StartDrag,
    Drag,
    EndDrag,
}

/// The transition that `state` shows, if any. A release comes before
/// anything else; then a touch state that was just pressed starts a drag,
/// and any other touch state continues one.
pub open spec fn drag_transition(state: VirtualJoystickState) -> Option<DragAction> {
    if state.just_released {
        Some(DragAction::EndDrag)
    } else {
        match state.touch_state {
            Some(touch) => if touch.just_pressed {
                Some(DragAction::StartDrag)
            } else {
                Some(DragAction::Drag)
            },
            None => None,
        }
    }
}

/// Tells which transition `state` shows.
pub fn drag_action(state: &VirtualJoystickState) -> (transition: Option<DragAction>)
    ensures
        transition == drag_transition(*state),
{
    if state.just_released {
        Some(DragAction::EndDrag)
    } else {
        match state.touch_state {
            Some(touch) => {
                if touch.just_pressed {
                    Some(DragAction::StartDrag)
                } else {
                    Some(DragAction::Drag)
                }
            },
            None => None,
        }
    }
}

/// Whether the hook of `action` that belongs to `transition` was called
/// with `id` and `state` and has returned. Without a transition there is
/// nothing to call.
pub open spec fn hook_called<S: VirtualJoystickID, A: VirtualJoystickAction<S>>(
    action: &A,
    transition: Option<DragAction>,
    id: S,
    state: VirtualJoystickState,
) -> bool {
    match transition {
        Some(DragAction::StartDrag) => call_ensures(A::on_start_drag, (action, id, state), ()),
        Some(DragAction::Drag) => call_ensures(A::on_drag, (action, id, state), ()),
        Some(DragAction::EndDrag) => call_ensures(A::on_end_drag, (action, id, state), ()),
        None => true,
    }
}

/// Calls the hook of the transition that `state` shows, with `id` and
/// `state`, and tells which it was. Without a transition no hook is called.
pub fn dispatch_action<S: VirtualJoystickID, A: VirtualJoystickAction<S>>(
    action: &A,
    id: S,
    state: VirtualJoystickState,
) -> (fired: Option<DragAction>)
    ensures
        fired == drag_transition(state),
        hook_called(action, fired, id, state),
{
    let transition = drag_action(&state);
    match transition {
        Some(DragAction::StartDrag) => {
            action.on_start_drag(id, state);
        },
        Some(DragAction::Drag) => {
            action.on_drag(id, state);
        },
        Some(DragAction::EndDrag) => {
            action.on_end_drag(id, state);
        },
        None => {},
    }
    transition
}

} // verus!
