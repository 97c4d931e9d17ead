use std::cell::RefCell;

use bevy::ecs::entity::Entity;
use bevy::ecs::event::Events;
use bevy::ecs::system::RunSystemOnce;
use bevy::ecs::world::World;
use bevy::input::touch::{touch_screen_input_system, TouchInput, TouchPhase, Touches};
use bevy::math::{Rect, Vec2};
use virtual_joystick::{
    run_tick, run_tick_from, update_action, update_behavior, update_behavior_constraints,
    update_behavior_knob_delta, update_fire_events, update_input, update_input_from,
    update_missing_state, update_ui, JoystickFloating, JoystickGeometry, JoystickPlacement,
    NoAction, TouchSample, TouchState, VirtualJoystick, VirtualJoystickAction,
    VirtualJoystickBehavior, VirtualJoystickEventType, VirtualJoystickNode, VirtualJoystickState,
    VirtualJoystickUIBackground, VirtualJoystickUIKnob,
};

#[derive(Default)]
struct Log {
    calls: RefCell<Vec<(&'static str, u32, VirtualJoystickState)>>,
}

impl VirtualJoystickAction<u32> for Log {
    fn on_start_drag(&self, id: u32, state: VirtualJoystickState) {
        self.calls.borrow_mut().push(("start", id, state));
    }

    fn on_drag(&self, id: u32, state: VirtualJoystickState) {
        self.calls.borrow_mut().push(("drag", id, state));
    }

    fn on_end_drag(&self, id: u32, state: VirtualJoystickState) {
        self.calls.borrow_mut().push(("end", id, state));
    }
}

struct Stamp;

impl VirtualJoystickBehavior for Stamp {
    fn skips_delta_stage(&self) -> bool {
        false
    }

    fn skips_constraint_stage(&self) -> bool {
        false
    }

    fn skips_update(&self) -> bool {
        false
    }

    fn update_at_delta_stage(
        &self,
        state: VirtualJoystickState,
        _geometry: &JoystickGeometry,
    ) -> VirtualJoystickState {
        VirtualJoystickState { delta: Vec2::new(1.0, 0.0), ..state }
    }

    fn update_at_constraint_stage(
        &self,
        state: VirtualJoystickState,
        _geometry: &JoystickGeometry,
    ) -> VirtualJoystickState {
        VirtualJoystickState { delta: state.delta + Vec2::new(0.0, 2.0), ..state }
    }

    fn update(&self, state: VirtualJoystickState, geometry: &JoystickGeometry) -> VirtualJoystickState {
        VirtualJoystickState { base_offset: state.delta * 10.0 + geometry.position, ..state }
    }
}

fn geometry(center: Vec2) -> JoystickGeometry {
    JoystickGeometry {
        position: center,
        rect: Rect::from_center_size(center, Vec2::new(100.0, 100.0)),
        background: Some(Rect::from_center_size(center, Vec2::new(100.0, 100.0))),
        knob: Some(Rect::from_center_size(center, Vec2::new(20.0, 20.0))),
    }
}

fn stick<B: VirtualJoystickBehavior, A: VirtualJoystickAction<u32>>(
    id: u32,
    center: Vec2,
    behavior: B,
    action: A,
) -> VirtualJoystick<u32, B, A> {
    VirtualJoystick {
        node: VirtualJoystickNode::default().with_id(id).with_behavior(behavior).with_action(action),
        state: Some(VirtualJoystickState::default()),
        pressed: false,
        geometry: geometry(center),
        placement: JoystickPlacement { background: None, knob: None },
    }
}

fn sample(id: u64, start: Vec2, now: Vec2) -> TouchSample {
    TouchSample { id, start_position: start, position: now }
}

fn touches_with(started: &[(u64, Vec2)], moved: &[(u64, Vec2)]) -> Touches {
    let mut world = World::new();
    world.init_resource::<Touches>();
    world.init_resource::<Events<TouchInput>>();
    for (id, position) in started {
        world.send_event(TouchInput {
            phase: TouchPhase::Started,
            position: *position,
            window: Entity::PLACEHOLDER,
            force: None,
            id: *id,
        });
    }
    for (id, position) in moved {
        world.send_event(TouchInput {
            phase: TouchPhase::Moved,
            position: *position,
            window: Entity::PLACEHOLDER,
            force: None,
            id: *id,
        });
    }
    assert!(world.run_system_once(touch_screen_input_system).is_ok());
    world.resource::<Touches>().clone()
}

#[test]
fn node_builders_replace_one_part_each() {
    let node = VirtualJoystickNode::<String, JoystickFloating, NoAction>::default();
    assert_eq!(node.id, String::new());
    let node = node.with_id(String::from("left"));
    assert_eq!(node.id, "left");
    let node = VirtualJoystickNode::<u32, JoystickFloating, NoAction>::default();
    assert_eq!(node.id, 0);
    let node = node.with_id(4);
    let log = Log::default();
    log.calls.borrow_mut().push(("kept", 0, VirtualJoystickState::default()));
    let node = node.with_action(log).with_behavior(Stamp);
    assert_eq!(node.id, 4);
    assert_eq!(node.action.calls.borrow().len(), 1);
    let node = node.with_id(9);
    assert_eq!(node.id, 9);
    assert_eq!(node.action.calls.borrow().len(), 1);
    let geometry = geometry(Vec2::ZERO);
    let stamped = node.behavior.update_at_delta_stage(VirtualJoystickState::default(), &geometry);
    assert_eq!(stamped.delta, Vec2::new(1.0, 0.0));
}

#[test]
fn markers_are_plain_values() {
    let knob = VirtualJoystickUIKnob::default();
    let background = VirtualJoystickUIBackground::default();
    assert_eq!(format!("{:?} {:?}", knob, background), "VirtualJoystickUIKnob VirtualJoystickUIBackground");
}

#[test]
fn new_instance_is_idle_and_unplaced() {
    let node = VirtualJoystickNode::<u32, JoystickFloating, NoAction>::default().with_id(3);
    let joystick = VirtualJoystick::new(node, geometry(Vec2::new(1.0, 2.0)));
    assert_eq!(joystick.node.id, 3);
    assert_eq!(joystick.state, Some(VirtualJoystickState::default()));
    assert!(!joystick.pressed);
    assert_eq!(joystick.geometry, geometry(Vec2::new(1.0, 2.0)));
    assert_eq!(joystick.placement, JoystickPlacement { background: None, knob: None });
    assert_eq!(JoystickPlacement::default(), JoystickPlacement { background: None, knob: None });
}

#[test]
fn missing_state_is_supplied_once() {
    let mut sticks = vec![
        stick(1, Vec2::ZERO, JoystickFloating, NoAction),
        stick(2, Vec2::ZERO, JoystickFloating, NoAction),
    ];
    sticks[0].state = None;
    let kept = VirtualJoystickState {
        touch_state: None,
        just_released: true,
        base_offset: Vec2::new(1.0, 2.0),
        delta: Vec2::new(0.5, 0.5),
    };
    sticks[1].state = Some(kept);
    update_missing_state(&mut sticks);
    assert_eq!(sticks[0].state, Some(VirtualJoystickState::default()));
    assert_eq!(sticks[1].state, Some(kept));
}

#[test]
fn stages_skip_an_instance_without_state() {
    let mut sticks = vec![stick(1, Vec2::ZERO, Stamp, Log::default())];
    sticks[0].state = None;
    sticks[0].pressed = true;
    let samples = vec![sample(5, Vec2::new(10.0, 0.0), Vec2::new(10.0, 0.0))];
    let mut events = Vec::new();
    run_tick_from(&mut sticks, &samples, None, &mut events);
    assert_eq!(sticks[0].state, None);
    assert!(events.is_empty());
    assert!(sticks[0].node.action.calls.borrow().is_empty());
    assert_eq!(sticks[0].placement, JoystickPlacement { background: None, knob: None });
}

#[test]
fn input_stage_reduces_each_instance_by_its_own_rect() {
    let mut sticks = vec![
        stick(1, Vec2::ZERO, JoystickFloating, NoAction),
        stick(2, Vec2::new(500.0, 0.0), JoystickFloating, NoAction),
        stick(3, Vec2::new(1000.0, 0.0), JoystickFloating, NoAction),
    ];
    sticks[0].pressed = true;
    sticks[1].pressed = true;
    let samples = vec![
        sample(8, Vec2::new(510.0, 0.0), Vec2::new(511.0, 0.0)),
        sample(9, Vec2::new(10.0, 0.0), Vec2::new(11.0, 0.0)),
    ];
    update_input_from(&mut sticks, &samples, Some(Vec2::new(-1.0, -1.0)));
    assert_eq!(sticks[0].state.unwrap().touch_state.unwrap().id, 9);
    assert_eq!(sticks[0].state.unwrap().touch_state.unwrap().start, Vec2::new(11.0, 0.0));
    assert_eq!(sticks[1].state.unwrap().touch_state.unwrap().id, 8);
    assert_eq!(sticks[2].state, Some(VirtualJoystickState::default()));
}

#[test]
fn input_stage_reads_the_pressed_touches() {
    let touches = touches_with(
        &[(4, Vec2::new(10.0, 0.0)), (6, Vec2::new(900.0, 900.0))],
        &[(4, Vec2::new(25.0, 5.0))],
    );
    let mut sticks = vec![stick(1, Vec2::ZERO, JoystickFloating, NoAction)];
    sticks[0].pressed = true;
    update_input(&mut sticks, &touches, None);
    assert_eq!(
        sticks[0].state.unwrap().touch_state,
        Some(TouchState {
            id: 4,
            is_mouse: false,
            start: Vec2::new(25.0, 5.0),
            current: Vec2::new(25.0, 5.0),
            just_pressed: true,
        })
    );
}

#[test]
fn input_stage_without_touches_makes_a_mouse_pointer() {
    let touches = Touches::default();
    let mut sticks = vec![stick(1, Vec2::new(3.0, 4.0), JoystickFloating, NoAction)];
    sticks[0].pressed = true;
    update_input(&mut sticks, &touches, None);
    let touch = sticks[0].state.unwrap().touch_state.unwrap();
    assert!(touch.is_mouse);
    assert_eq!(touch.id, 0);
    assert_eq!(touch.start, Vec2::new(3.0, 4.0));
}

#[test]
fn behavior_stages_ask_their_own_hook() {
    let mut sticks = vec![stick(1, Vec2::new(5.0, 5.0), Stamp, NoAction)];
    update_behavior_knob_delta(&mut sticks);
    assert_eq!(sticks[0].state.unwrap().delta, Vec2::new(1.0, 0.0));
    assert_eq!(sticks[0].state.unwrap().base_offset, Vec2::ZERO);
    update_behavior_constraints(&mut sticks);
    assert_eq!(sticks[0].state.unwrap().delta, Vec2::new(1.0, 2.0));
    assert_eq!(sticks[0].state.unwrap().base_offset, Vec2::ZERO);
    update_behavior(&mut sticks);
    assert_eq!(sticks[0].state.unwrap().delta, Vec2::new(1.0, 2.0));
    assert_eq!(sticks[0].state.unwrap().base_offset, Vec2::new(15.0, 25.0));
}

#[test]
fn action_stage_fires_once_per_transition() {
    let mut sticks = vec![
        stick(1, Vec2::ZERO, JoystickFloating, Log::default()),
        stick(2, Vec2::new(500.0, 0.0), JoystickFloating, Log::default()),
    ];
    sticks[0].pressed = true;
    let samples = vec![sample(5, Vec2::new(10.0, 0.0), Vec2::new(10.0, 0.0))];
    let mut events = Vec::new();
    run_tick_from(&mut sticks, &samples, None, &mut events);
    run_tick_from(&mut sticks, &samples, None, &mut events);
    sticks[0].pressed = false;
    run_tick_from(&mut sticks, &samples, None, &mut events);
    run_tick_from(&mut sticks, &samples, None, &mut events);
    let calls = sticks[0].node.action.calls.borrow();
    let names: Vec<&str> = calls.iter().map(|call| call.0).collect();
    assert_eq!(names, vec!["start", "drag", "end"]);
    assert!(calls.iter().all(|call| call.1 == 1));
    assert!(calls[0].2.touch_state.unwrap().just_pressed);
    assert!(calls[2].2.just_released);
    assert!(sticks[1].node.action.calls.borrow().is_empty());
}

#[test]
fn action_stage_leaves_the_state_alone() {
    let mut sticks = vec![stick(1, Vec2::ZERO, JoystickFloating, Log::default())];
    let state = VirtualJoystickState {
        touch_state: None,
        just_released: true,
        base_offset: Vec2::new(1.0, 1.0),
        delta: Vec2::new(0.5, 0.5),
    };
    sticks[0].state = Some(state);
    update_action(&sticks);
    assert_eq!(sticks[0].state, Some(state));
    assert_eq!(*sticks[0].node.action.calls.borrow(), vec![("end", 1, state)]);
}

#[test]
fn events_come_instance_after_instance() {
    let mut sticks = vec![
        stick(1, Vec2::ZERO, JoystickFloating, NoAction),
        stick(2, Vec2::ZERO, JoystickFloating, NoAction),
        stick(3, Vec2::ZERO, JoystickFloating, NoAction),
    ];
    let touch = TouchState {
        id: 1,
        is_mouse: false,
        start: Vec2::ZERO,
        current: Vec2::new(2.0, 2.0),
        just_pressed: true,
    };
    sticks[0].state = Some(VirtualJoystickState { touch_state: Some(touch), ..VirtualJoystickState::default() });
    sticks[2].state = Some(VirtualJoystickState { just_released: true, ..VirtualJoystickState::default() });
    let mut events = Vec::new();
    update_fire_events(&sticks, &mut events);
    let seen: Vec<(u32, VirtualJoystickEventType)> =
        events.iter().map(|event| (event.id, event.event)).collect();
    assert_eq!(
        seen,
        vec![
            (1, VirtualJoystickEventType::Press),
            (1, VirtualJoystickEventType::Drag),
            (3, VirtualJoystickEventType::Up),
        ]
    );
}

#[test]
fn placement_stage_follows_the_state() {
    let mut sticks = vec![stick(1, Vec2::ZERO, JoystickFloating, NoAction)];
    sticks[0].state = Some(VirtualJoystickState {
        touch_state: None,
        just_released: false,
        base_offset: Vec2::new(30.0, 40.0),
        delta: Vec2::new(0.0, 0.0),
    });
    update_ui(&mut sticks);
    assert_eq!(sticks[0].placement.background, Some(Vec2::new(30.0, 40.0)));
    assert_eq!(sticks[0].placement.knob, Some(Vec2::new(40.0, 50.0)));
}

#[test]
fn floating_tick_by_tick() {
    let mut sticks = vec![stick(1, Vec2::new(200.0, 200.0), JoystickFloating, NoAction)];
    let mut events = Vec::new();
    sticks[0].pressed = true;
    let first = vec![sample(5, Vec2::new(210.0, 190.0), Vec2::new(210.0, 190.0))];
    run_tick_from(&mut sticks, &first, None, &mut events);
    let state = sticks[0].state.unwrap();
    assert_eq!(state.base_offset, Vec2::new(160.0, 140.0));
    assert_eq!(state.delta, Vec2::new(0.0, 0.0));
    assert_eq!(sticks[0].placement.background, Some(Vec2::new(160.0, 140.0)));
    assert_eq!(sticks[0].placement.knob, Some(Vec2::new(160.0 + 50.0 + 10.0 - 50.0, 140.0 + 50.0 + 10.0 - 50.0)));
    let second = vec![sample(5, Vec2::new(210.0, 190.0), Vec2::new(235.0, 165.0))];
    run_tick_from(&mut sticks, &second, None, &mut events);
    let state = sticks[0].state.unwrap();
    assert_eq!(state.base_offset, Vec2::new(160.0, 140.0));
    assert_eq!(state.delta, Vec2::new(0.5, 0.5));
    assert_eq!(events.len(), 3);
    assert_eq!(events[2].delta, Vec2::new(0.5, 0.5));
    assert_eq!(sticks[0].placement.knob, Some(Vec2::new(160.0 + 60.0 - 25.0, 140.0 + 60.0 - 75.0)));
}

#[test]
fn idle_ticks_change_nothing_and_emit_nothing() {
    let mut sticks = vec![stick(1, Vec2::ZERO, JoystickFloating, Log::default())];
    sticks[0].state = Some(VirtualJoystickState {
        touch_state: None,
        just_released: false,
        base_offset: Vec2::new(12.0, 13.0),
        delta: Vec2::new(0.0, 0.0),
    });
    let mut events = Vec::new();
    run_tick_from(&mut sticks, &Vec::new(), Some(Vec2::new(1.0, 1.0)), &mut events);
    let settled = sticks[0].state.unwrap();
    assert_eq!(settled.base_offset, Vec2::new(12.0, 13.0));
    assert_eq!(settled.delta, Vec2::new(0.0, 0.0));
    for _ in 0..3 {
        run_tick_from(&mut sticks, &Vec::new(), Some(Vec2::new(1.0, 1.0)), &mut events);
        assert_eq!(sticks[0].state, Some(settled));
    }
    assert!(events.is_empty());
    assert!(sticks[0].node.action.calls.borrow().is_empty());
}

#[test]
fn up_is_emitted_on_one_tick_only() {
    let mut sticks = vec![stick(1, Vec2::ZERO, JoystickFloating, NoAction)];
    let samples = vec![sample(5, Vec2::new(10.0, 0.0), Vec2::new(10.0, 0.0))];
    let mut events = Vec::new();
    sticks[0].pressed = true;
    run_tick_from(&mut sticks, &samples, None, &mut events);
    sticks[0].pressed = false;
    run_tick_from(&mut sticks, &samples, None, &mut events);
    run_tick_from(&mut sticks, &samples, None, &mut events);
    run_tick_from(&mut sticks, &samples, None, &mut events);
    let kinds: Vec<VirtualJoystickEventType> = events.iter().map(|event| event.event).collect();
    assert_eq!(
        kinds,
        vec![
            VirtualJoystickEventType::Press,
            VirtualJoystickEventType::Drag,
            VirtualJoystickEventType::Up,
        ]
    );
}

#[test]
fn tick_reads_the_pressed_touches() {
    let touches = touches_with(&[(4, Vec2::new(10.0, 0.0))], &[]);
    let mut sticks = vec![stick(1, Vec2::ZERO, JoystickFloating, NoAction)];
    sticks[0].pressed = true;
    let mut events = Vec::new();
    run_tick(&mut sticks, &touches, None, &mut events);
    assert_eq!(sticks[0].state.unwrap().touch_state.unwrap().id, 4);
    assert_eq!(events.len(), 2);
    let moved = touches_with(&[(4, Vec2::new(10.0, 0.0))], &[(4, Vec2::new(60.0, 0.0))]);
    run_tick(&mut sticks, &moved, None, &mut events);
    assert_eq!(sticks[0].state.unwrap().touch_state.unwrap().current, Vec2::new(60.0, 0.0));
    assert_eq!(sticks[0].state.unwrap().delta, Vec2::new(1.0, 0.0));
    assert_eq!(events.len(), 3);
}
