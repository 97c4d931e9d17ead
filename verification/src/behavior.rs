//! Behaviors: the geometric policy that turns the pointer of a joystick into
//! its delta and base offset.

use crate::components::{JoystickGeometry, TouchState, VirtualJoystickState};
use crate::math::{
    lattice_point, origin, rect_half_extent, rect_half_size, vec2_clamp, vec2_clamped,
    vec2_difference, vec2_div, vec2_from_ints, vec2_mul, vec2_product, vec2_quotient, vec2_sub,
};
use bevy::math::Vec2;
use vstd::prelude::*;

verus! {

/// A behavior is asked three times per tick and instance, in this order: at
/// the delta stage, at the constraint stage and at the general update. Each
/// hook gets the state of its own instance and what the host reports of that
/// instance, and returns the state that replaces it.
///
/// The touch state and the release edge belong to input reduction: every
/// hook hands them on as it got them, and decides on the delta and the base
/// offset alone. A behavior that skips a stage hands on the whole state.
pub trait VirtualJoystickBehavior {
    /// Whether this behavior leaves the state as it is at the delta stage.
    /// A behavior that writes the hook of that stage says `false` here.
    open spec fn skips_delta_stage(&self) -> bool {
        true
    }

    /// Whether this behavior leaves the state as it is at the constraint
    /// stage.
    open spec fn skips_constraint_stage(&self) -> bool {
        true
    }

    /// Whether this behavior leaves the state as it is at the general
    /// update.
    open spec fn skips_update(&self) -> bool {
        true
    }

    /// Computes the delta from the touch state.
    fn update_at_delta_stage(
        &self,
        state: VirtualJoystickState,
        geometry: &JoystickGeometry,
    ) -> (next: VirtualJoystickState)
        ensures
            next.touch_state == state.touch_state,
            next.just_released == state.just_released,
            self.skips_delta_stage() ==> next == state,
    {
        state
    }

    /// Adjusts the state once every instance has its delta of this tick.
    fn update_at_constraint_stage(
        &self,
        state: VirtualJoystickState,
        geometry: &JoystickGeometry,
    ) -> (next: VirtualJoystickState)
        ensures
            next.touch_state == state.touch_state,
            next.just_released == state.just_released,
            self.skips_constraint_stage() ==> next == state,
    {
        state
    }

    /// Does whatever else the behavior keeps up to date.
    fn update(&self, state: VirtualJoystickState, geometry: &JoystickGeometry) -> (next:
        VirtualJoystickState)
        ensures
            next.touch_state == state.touch_state,
            next.just_released == state.just_released,
            self.skips_update() ==> next == state,
    {
        state
    }
}

/// The joystick that recentres under the pointer: on a press the background
/// moves so that its centre is where the press began, and the delta is the
/// displacement from there.
#[derive(Clone, Copy, Debug, Default)]
pub struct JoystickFloating;

/// The delta of a floating joystick whose background has the half size
/// `half`: the displacement of the pointer from its start, divided by
/// `half`, turned upside down so that up is positive, and clamped to
/// between -1 and 1 on each axis.
pub open spec fn floating_delta(touch: TouchState, half: Vec2) -> Vec2 {
    vec2_clamped(
        vec2_product(
            vec2_quotient(vec2_difference(touch.current, touch.start), half),
            lattice_point(1, -1),
        ),
        -1,
        1,
    )
}

/// The base offset of a floating joystick pressed at `start`: it puts the
/// centre of a background of half size `half` at `start`.
pub open spec fn floating_base_offset(start: Vec2, half: Vec2) -> Vec2 {
    vec2_difference(start, half)
}

/// The state of a floating joystick after its delta stage. Without a touch
/// state the delta is zero. With one, and with a background to measure
/// against, the delta is the floating delta; without a background the state
/// stays.
pub open spec fn floating_delta_stage(
    state: VirtualJoystickState,
    geometry: JoystickGeometry,
) -> VirtualJoystickState {
    match state.touch_state {
        None => VirtualJoystickState { delta: origin(), ..state },
        Some(touch) => match geometry.background {
            Some(background) => VirtualJoystickState {
                delta: floating_delta(touch, rect_half_extent(background)),
                ..state
            },
            None => state,
        },
    }
}

/// The state of a floating joystick after its general update: on the tick of
/// a press the base offset moves under the press, if there is a background to
/// move.
pub open spec fn floating_update(
    state: VirtualJoystickState,
    geometry: JoystickGeometry,
) -> VirtualJoystickState {
    match state.touch_state {
        Some(touch) => match geometry.background {
            Some(background) => if touch.just_pressed {
                VirtualJoystickState {
                    base_offset: floating_base_offset(touch.start, rect_half_extent(background)),
                    ..state
                }
            } else {
                state
            },
            None => state,
        },
        None => state,
    }
}

impl VirtualJoystickBehavior for JoystickFloating {
    open spec fn skips_delta_stage(&self) -> bool {
        false
    }

    open spec fn skips_update(&self) -> bool {
        false
    }

    fn update_at_delta_stage(
        &self,
        state: VirtualJoystickState,
        geometry: &JoystickGeometry,
    ) -> (next: VirtualJoystickState)
        ensures
            next == floating_delta_stage(state, *geometry),
    {
        let mut next = state;
        match state.touch_state {
            None => {
                next.delta = vec2_from_ints(0, 0);
            },
            Some(touch) => match geometry.background {
                Some(background) => {
                    let half = rect_half_size(&background);
                    let displacement = vec2_sub(touch.current, touch.start);
                    let flipped = vec2_mul(vec2_div(displacement, half), vec2_from_ints(1, -1));
                    next.delta = vec2_clamp(flipped, -1, 1);
                },
                None => {},
            },
        }
        next
    }

    fn update_at_constraint_stage(
        &self,
        state: VirtualJoystickState,
        geometry: &JoystickGeometry,
    ) -> (next: VirtualJoystickState)
        ensures
            next == state,
    {
        state
    }

    fn update(&self, state: VirtualJoystickState, geometry: &JoystickGeometry) -> (next:
        VirtualJoystickState)
        ensures
            next == floating_update(state, *geometry),
    {
        let mut next = state;
        match state.touch_state {
            Some(touch) => match geometry.background {
                Some(background) => {
                    if touch.just_pressed {
                        next.base_offset = vec2_sub(touch.start, rect_half_size(&background));
                    }
                },
                None => {},
            },
            None => {},
        }
        next
    }
}

} // verus!
