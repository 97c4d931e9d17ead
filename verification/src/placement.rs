//! Placement: where the background and the knob of a joystick go on screen.

use crate::components::{JoystickGeometry, JoystickPlacement, VirtualJoystickState};
use crate::math::{
    lattice_point, rect_half_extent, rect_half_size, vec2_add, vec2_difference, vec2_from_ints,
    vec2_mul, vec2_product, vec2_sub, vec2_sum,
};
use bevy::math::Vec2;
use vstd::prelude::*;

verus! {

/// The offset of the knob. With the delta turned upside down, so that it
/// points down the screen where it is positive, it is
/// `base_offset + background_half + knob_half + (delta - 1) * background_half`
/// on each axis, summed from left to right.
pub open spec fn knob_offset(
    base_offset: Vec2,
    background_half: Vec2,
    knob_half: Vec2,
    delta: Vec2,
) -> Vec2 {
    vec2_sum(
        vec2_sum(vec2_sum(base_offset, background_half), knob_half),
        vec2_product(
            vec2_difference(vec2_product(delta, lattice_point(1, -1)), lattice_point(1, 1)),
            background_half,
        ),
    )
}

/// The placement of a joystick's visuals for `state`. Without a background
/// nothing is placed anew. With one, the background goes to the base offset,
/// and the knob, if there is one, to its offset.
pub open spec fn placed(
    state: VirtualJoystickState,
    geometry: JoystickGeometry,
    placement: JoystickPlacement,
) -> JoystickPlacement {
    match geometry.background {
        None => placement,
        Some(background) => JoystickPlacement {
            background: Some(state.base_offset),
            knob: match geometry.knob {
                Some(knob) => Some(
                    knob_offset(
                        state.base_offset,
                        rect_half_extent(background),
                        rect_half_extent(knob),
                        state.delta,
                    ),
                ),
                None => placement.knob,
            },
        },
    }
}

/// Computes the offset of the knob.
pub fn knob_position(base_offset: Vec2, background_half: Vec2, knob_half: Vec2, delta: Vec2) -> (at:
    Vec2)
    ensures
        at == knob_offset(base_offset, background_half, knob_half, delta),
{
    let corner = vec2_add(vec2_add(base_offset, background_half), knob_half);
    let downward = vec2_mul(delta, vec2_from_ints(1, -1));
    let travel = vec2_mul(vec2_sub(downward, vec2_from_ints(1, 1)), background_half);
    vec2_add(corner, travel)
}

/// Places the visuals of a joystick for `state`.
pub fn place_visuals(
    state: &VirtualJoystickState,
    geometry: &JoystickGeometry,
    placement: JoystickPlacement,
) -> (next: JoystickPlacement)
    ensures
        next == placed(*state, *geometry, placement),
{
    match geometry.background {
        None => placement,
        Some(background) => {
            let knob = match geometry.knob {
                Some(knob) => Some(
                    knob_position(
                        state.base_offset,
                        rect_half_size(&background),
                        rect_half_size(&knob),
                        state.delta,
                    ),
                ),
                None => placement.knob,
            };
            JoystickPlacement { background: Some(state.base_offset), knob }
        },
    }
}

} // verus!
