//! The data of a joystick: its configuration, its state, what the host
//! reports of its visuals, and where the visuals are placed.

use crate::action::{NoAction, VirtualJoystickAction};
use crate::behavior::{JoystickFloating, VirtualJoystickBehavior};
use crate::math::{origin, vec2_from_ints};
use bevy::math::{Rect, Vec2};
use vstd::prelude::*;

verus! {

/// Tags the visual that is a joystick's knob.
#[derive(Clone, Copy, Debug, Default)]
pub struct VirtualJoystickUIKnob;

/// Tags the visual that is a joystick's background.
#[derive(Clone, Copy, Debug, Default)]
pub struct VirtualJoystickUIBackground;

/// What identifies a joystick to the application.
pub trait VirtualJoystickID: Clone + Default + PartialEq + Eq + core::hash::Hash {

}

impl<S: Clone + Default + PartialEq + Eq + core::hash::Hash> VirtualJoystickID for S {

}

/// The pointer that a joystick tracks.
#[derive(Clone, Copy, Debug, PartialEq)]
pub struct TouchState {
    /// Identity of the pointer; 0 for the pointer made from the mouse.
    pub id: u64,
    /// Whether the pointer was made from the mouse cursor.
    pub is_mouse: bool,
    /// Position at which the pointer was acquired.
    pub start: Vec2,
    /// Most recent position.
    pub current: Vec2,
    /// True only on the tick of acquisition.
    pub just_pressed: bool,
}

impl TouchState {
    /// The touch state that `default` returns.
    pub open spec fn initial() -> TouchState {
        TouchState {
            id: 0,
            is_mouse: false,
            start: origin(),
            current: origin(),
            just_pressed: false,
        }
    }

    /// The touch state of a pointer acquired at `position` on this tick.
    pub open spec fn acquired(id: u64, is_mouse: bool, position: Vec2) -> TouchState {
        TouchState { id, is_mouse, start: position, current: position, just_pressed: true }
    }

    /// Whether `self` and `other` track the same pointer from the same start.
    pub open spec fn same_pointer(self, other: TouchState) -> bool {
        &&& self.id == other.id
        &&& self.is_mouse == other.is_mouse
        &&& self.start == other.start
    }
}

impl Default for TouchState {
    fn default() -> (r: Self)
        ensures
            r == TouchState::initial(),
    {
        let zero = vec2_from_ints(0, 0);
        TouchState { id: 0, is_mouse: false, start: zero, current: zero, just_pressed: false }
    }
}

/// The state of one joystick.
#[derive(Clone, Copy, Debug, PartialEq)]
pub struct VirtualJoystickState {
    /// The tracked pointer, while one is engaged.
    pub touch_state: Option<TouchState>,
    /// True only on the tick on which the pointer disengaged.
    pub just_released: bool,
    /// Offset of the joystick's visual origin.
    pub base_offset: Vec2,
    /// The directional output.
    pub delta: Vec2,
}

impl VirtualJoystickState {
    /// The idle state: no touch, no release edge, zero offset and zero delta.
    pub open spec fn idle() -> VirtualJoystickState {
        VirtualJoystickState {
            touch_state: None,
            just_released: false,
            base_offset: origin(),
            delta: origin(),
        }
    }

    /// Whether a pointer was acquired on this tick.
    pub open spec fn press_edge(self) -> bool {
        self.touch_state matches Some(touch) && touch.just_pressed
    }

    /// Whether the release edge agrees with the touch state: it is up only
    /// where no pointer is engaged.
    pub open spec fn well_formed(self) -> bool {
        self.just_released ==> self.touch_state is None
    }
}

impl Default for VirtualJoystickState {
    fn default() -> (r: Self)
        ensures
            r == VirtualJoystickState::idle(),
            r.well_formed(),
    {
        let zero = vec2_from_ints(0, 0);
        VirtualJoystickState {
            touch_state: None,
            just_released: false,
            base_offset: zero,
            delta: zero,
        }
    }
}

/// What the host reports of one joystick for a tick.
#[derive(Clone, Copy, Debug, PartialEq)]
pub struct JoystickGeometry {
    /// Screen position of the joystick's interactive area.
    pub position: Vec2,
    /// Screen rectangle of the joystick's interactive area.
    pub rect: Rect,
    /// Screen rectangle of the background visual, if the joystick has one.
    pub background: Option<Rect>,
    /// Screen rectangle of the knob visual, if the joystick has one.
    pub knob: Option<Rect>,
}

/// Where the visuals of one joystick are placed.
#[derive(Clone, Copy, Debug, PartialEq)]
pub struct JoystickPlacement {
    /// Offset of the background visual, once it was placed.
    pub background: Option<Vec2>,
    /// Offset of the knob visual, once it was placed.
    pub knob: Option<Vec2>,
}

impl JoystickPlacement {
    /// The placement in which nothing was placed yet.
    pub open spec fn unplaced() -> JoystickPlacement {
        JoystickPlacement { background: None, knob: None }
    }
}

impl Default for JoystickPlacement {
    fn default() -> (r: Self)
        ensures
            r == JoystickPlacement::unplaced(),
    {
        JoystickPlacement { background: None, knob: None }
    }
}

/// The configuration of one joystick.
pub struct VirtualJoystickNode<S: VirtualJoystickID, B: VirtualJoystickBehavior, A: VirtualJoystickAction<S>> {
    /// Identity of the joystick, carried by its events.
    pub id: S,
    /// The policy that computes delta and base offset.
    pub behavior: B,
    /// The hooks fired on the transitions of a drag.
    pub action: A,
}

impl<S: VirtualJoystickID> Default for VirtualJoystickNode<S, JoystickFloating, NoAction> {
    fn default() -> (r: Self)
        ensures
            call_ensures(S::default, (), r.id),
    {
        VirtualJoystickNode { id: S::default(), behavior: JoystickFloating, action: NoAction }
    }
}

impl<S: VirtualJoystickID, B: VirtualJoystickBehavior, A: VirtualJoystickAction<S>> VirtualJoystickNode<S, B, A> {
    /// Replaces the identity.
    pub fn with_id(self, id: S) -> (r: Self)
        ensures
            r.id == id,
            r.behavior == self.behavior,
            r.action == self.action,
    {
        VirtualJoystickNode { id, behavior: self.behavior, action: self.action }
    }

    /// Replaces the behavior.
    pub fn with_behavior<B2: VirtualJoystickBehavior>(self, behavior: B2) -> (r: VirtualJoystickNode<S, B2, A>)
        ensures
            r.id == self.id,
            r.behavior == behavior,
            r.action == self.action,
    {
        VirtualJoystickNode { id: self.id, behavior, action: self.action }
    }

    /// Replaces the action.
    pub fn with_action<A2: VirtualJoystickAction<S>>(self, action: A2) -> (r: VirtualJoystickNode<S, B, A2>)
        ensures
            r.id == self.id,
            r.behavior == self.behavior,
            r.action == action,
    {
        VirtualJoystickNode { id: self.id, behavior: self.behavior, action }
    }
}

/// One joystick instance: its configuration, its state once it has one, and
/// what the host reports and receives for it.
pub struct VirtualJoystick<S: VirtualJoystickID, B: VirtualJoystickBehavior, A: VirtualJoystickAction<S>> {
    pub node: VirtualJoystickNode<S, B, A>,
    /// The state; `None` until the instance was given one.
    pub state: Option<VirtualJoystickState>,
    /// Whether the host reports the instance as pressed.
    pub pressed: bool,
    /// What the host reports of the instance's visuals.
    pub geometry: JoystickGeometry,
    /// Where the visuals were placed last.
    pub placement: JoystickPlacement,
}

impl<S: VirtualJoystickID, B: VirtualJoystickBehavior, A: VirtualJoystickAction<S>> VirtualJoystick<
    S,
    B,
    A,
> {
    /// A new instance: idle, not pressed, and with nothing placed yet.
    pub fn new(node: VirtualJoystickNode<S, B, A>, geometry: JoystickGeometry) -> (r: Self)
        ensures
            r.node == node,
            r.state == Some(VirtualJoystickState::idle()),
            !r.pressed,
            r.geometry == geometry,
            r.placement == JoystickPlacement::unplaced(),
    {
        VirtualJoystick {
            node,
            state: Some(VirtualJoystickState::default()),
            pressed: false,
            geometry,
            placement: JoystickPlacement::default(),
        }
    }
}

} // verus!
