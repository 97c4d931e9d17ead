use bevy::math::{Rect, Vec2};
use virtual_joystick::{
    run_tick_from, JoystickFloating, JoystickGeometry, JoystickPlacement, NoAction, TouchSample,
    TouchState, VirtualJoystick, VirtualJoystickEvent, VirtualJoystickEventType,
    VirtualJoystickNode, VirtualJoystickState,
};

type Stick = VirtualJoystick<u32, JoystickFloating, NoAction>;

fn stick(id: u32, center: Vec2, size: Vec2) -> Stick {
    let rect = Rect::from_center_size(center, size);
    VirtualJoystick {
        node: VirtualJoystickNode::default().with_id(id),
        state: Some(VirtualJoystickState::default()),
        pressed: false,
        geometry: JoystickGeometry {
            position: center,
            rect,
            background: Some(rect),
            knob: Some(Rect::from_center_size(center, Vec2::new(20.0, 20.0))),
        },
        placement: JoystickPlacement { background: None, knob: None },
    }
}

fn touch(id: u64, start: Vec2, now: Vec2) -> TouchSample {
    TouchSample { id, start_position: start, position: now }
}

fn kinds(events: &[VirtualJoystickEvent<u32>]) -> Vec<VirtualJoystickEventType> {
    events.iter().map(|event| event.event).collect()
}

#[test]
fn touch_inside_rect_is_acquired() {
    let mut sticks = vec![stick(1, Vec2::ZERO, Vec2::new(100.0, 100.0))];
    sticks[0].pressed = true;
    let samples = vec![touch(5, Vec2::new(10.0, 0.0), Vec2::new(10.0, 0.0))];
    let mut events = Vec::new();
    run_tick_from(&mut sticks, &samples, None, &mut events);
    let state = sticks[0].state.unwrap();
    assert_eq!(
        state.touch_state,
        Some(TouchState {
            id: 5,
            is_mouse: false,
            start: Vec2::new(10.0, 0.0),
            current: Vec2::new(10.0, 0.0),
            just_pressed: true,
        })
    );
    assert!(!state.just_released);
    assert_eq!(
        kinds(&events),
        vec![VirtualJoystickEventType::Press, VirtualJoystickEventType::Drag]
    );
    assert_eq!(events[0].value, Vec2::new(10.0, 0.0));
    assert_eq!(events[1].value, Vec2::new(10.0, 0.0));
    assert_eq!(events[0].id, 1);
    assert_eq!(events[1].id, 1);
}

#[test]
fn touch_leaving_rect_is_retained() {
    let mut sticks = vec![stick(1, Vec2::ZERO, Vec2::new(100.0, 100.0))];
    sticks[0].pressed = true;
    let mut events = Vec::new();
    let first = vec![touch(5, Vec2::new(10.0, 0.0), Vec2::new(10.0, 0.0))];
    run_tick_from(&mut sticks, &first, None, &mut events);
    events.clear();
    let second = vec![touch(5, Vec2::new(10.0, 0.0), Vec2::new(60.0, 0.0))];
    run_tick_from(&mut sticks, &second, None, &mut events);
    let touch_state = sticks[0].state.unwrap().touch_state.unwrap();
    assert_eq!(touch_state.current, Vec2::new(60.0, 0.0));
    assert_eq!(touch_state.start, Vec2::new(10.0, 0.0));
    assert_eq!(touch_state.id, 5);
    assert!(!touch_state.just_pressed);
    assert_eq!(kinds(&events), vec![VirtualJoystickEventType::Drag]);
    assert_eq!(events[0].value, Vec2::new(60.0, 0.0));
}

#[test]
fn end_of_interaction_releases() {
    let mut sticks = vec![stick(1, Vec2::ZERO, Vec2::new(100.0, 100.0))];
    sticks[0].pressed = true;
    let mut events = Vec::new();
    let first = vec![touch(5, Vec2::new(10.0, 0.0), Vec2::new(10.0, 0.0))];
    run_tick_from(&mut sticks, &first, None, &mut events);
    let second = vec![touch(5, Vec2::new(10.0, 0.0), Vec2::new(60.0, 0.0))];
    run_tick_from(&mut sticks, &second, None, &mut events);
    events.clear();
    sticks[0].pressed = false;
    run_tick_from(&mut sticks, &second, None, &mut events);
    let state = sticks[0].state.unwrap();
    assert_eq!(state.touch_state, None);
    assert!(state.just_released);
    assert_eq!(kinds(&events), vec![VirtualJoystickEventType::Up]);
    assert_eq!(events[0].value, Vec2::new(0.0, 0.0));
    assert_eq!(events[0].delta, state.delta);
}

#[test]
fn only_the_pressed_instance_emits() {
    let mut sticks = vec![
        stick(1, Vec2::ZERO, Vec2::new(100.0, 100.0)),
        stick(2, Vec2::new(500.0, 0.0), Vec2::new(100.0, 100.0)),
    ];
    sticks[0].pressed = true;
    let idle_before = sticks[1].state.unwrap();
    let samples = vec![touch(5, Vec2::new(10.0, 0.0), Vec2::new(10.0, 0.0))];
    let mut events = Vec::new();
    run_tick_from(&mut sticks, &samples, None, &mut events);
    assert_eq!(events.len(), 2);
    assert!(events.iter().all(|event| event.id == 1));
    assert_eq!(sticks[1].state.unwrap(), idle_before);
    assert_eq!(sticks[1].node.id, 2);
    assert!(sticks[0].state.unwrap().touch_state.is_some());
}

#[test]
fn knob_offsets() {
    let mut sticks = vec![stick(1, Vec2::ZERO, Vec2::new(100.0, 100.0))];
    sticks[0].state = Some(VirtualJoystickState {
        touch_state: None,
        just_released: false,
        base_offset: Vec2::new(0.0, 0.0),
        delta: Vec2::new(1.0, 0.0),
    });
    virtual_joystick::update_ui(&mut sticks);
    assert_eq!(sticks[0].placement.knob.unwrap().x, 60.0);
    assert_eq!(sticks[0].placement.background, Some(Vec2::new(0.0, 0.0)));
    sticks[0].state = Some(VirtualJoystickState {
        touch_state: None,
        just_released: false,
        base_offset: Vec2::new(0.0, 0.0),
        delta: Vec2::new(0.0, 1.0),
    });
    virtual_joystick::update_ui(&mut sticks);
    assert_eq!(sticks[0].placement.knob.unwrap().y, -40.0);
}
