//! A virtual on-screen joystick: the reduction of pointer and touch input to
//! a per-joystick state, pluggable behaviors and actions, the events derived
//! from the state, and the placement of the visuals.

pub mod action;
pub mod behavior;
pub mod components;
pub mod events;
pub mod input;
pub mod laws;
pub mod math;
pub mod placement;
pub mod systems;

pub use action::{dispatch_action, drag_action, DragAction, NoAction, VirtualJoystickAction};
pub use behavior::{JoystickFloating, VirtualJoystickBehavior};
pub use components::{
    JoystickGeometry, JoystickPlacement, TouchState, VirtualJoystick, VirtualJoystickID,
    VirtualJoystickNode, VirtualJoystickState, VirtualJoystickUIBackground, VirtualJoystickUIKnob,
};
pub use events::{fire_events, VirtualJoystickEvent, VirtualJoystickEventType};
pub use input::{
    acquire_touch, find_touch_by_id, find_touch_in_rect, reduce_input, track_touch, TouchSample,
};
pub use placement::{knob_position, place_visuals};
pub use systems::{
    run_tick, run_tick_from, update_action, update_behavior, update_behavior_constraints,
    update_behavior_knob_delta, update_fire_events, update_input, update_input_from,
    update_missing_state, update_ui,
};
