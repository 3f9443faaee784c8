use vertix::app_resource::{App, WindowInput};
use vertix::assets::AssetServer;
use vertix::gpu::{BindGroupId, BufferId, BufferUsage};
use vertix::handle::Handle;
use vertix::instance::Instance;
use vertix::model::Material;
use vertix::primitives::rect;
use vertix::resources::{
    ElementState, KeyCode, MouseButton, MouseClickType, Timer, WindowEvents, MIN_TIME_LEFT,
    NANOS_PER_SECOND,
};
use vertix::shapes::line_3d;
use vertix::structs::CameraController;

fn events() -> WindowEvents {
    WindowEvents {
        keys_pressed: Vec::new(),
        screen_mouse_pos: [0; 2],
        world_mouse_pos: [0; 2],
        left_mouse: MouseClickType::NotHeld,
        right_mouse: MouseClickType::NotHeld,
        middle_mouse: MouseClickType::NotHeld,
        aspect_ratio: 1.5f32.to_bits(),
        mouse_ray_direction: [0; 3],
    }
}

fn app() -> App {
    let quad = rect([(-0.5f32).to_bits(); 2], [0.5f32.to_bits(); 2]);
    let (asset_server, _, _) = AssetServer::new(String::from("out"), quad);
    App {
        asset_server,
        camera_controller: CameraController::new(5.0f32.to_bits(), 2.0f32.to_bits()),
        window_events: events(),
    }
}

#[test]
fn key_counts_as_pressed_by_its_first_event() {
    let mut window = events();
    assert!(!window.is_key_pressed(KeyCode::D, None));
    window.key_input(KeyCode::W, ElementState::Pressed);
    window.key_input(KeyCode::D, ElementState::Released);
    window.key_input(KeyCode::D, ElementState::Pressed);
    window.key_input(KeyCode::Other(42), ElementState::Pressed);
    assert!(window.is_key_pressed(KeyCode::D, None));
    assert!(window.is_key_pressed(KeyCode::D, Some(ElementState::Released)));
    assert!(!window.is_key_pressed(KeyCode::D, Some(ElementState::Pressed)));
    assert!(window.is_key_pressed(KeyCode::W, Some(ElementState::Pressed)));
    assert!(!window.is_key_pressed(KeyCode::W, Some(ElementState::Released)));
    assert!(window.is_key_pressed(KeyCode::Other(42), None));
    assert!(!window.is_key_pressed(KeyCode::Other(43), None));
    assert!(!window.is_key_pressed(KeyCode::A, None));
    assert!(!window.is_key_pressed(KeyCode::A, Some(ElementState::Released)));
}

#[test]
fn left_button_is_clicked_then_held() {
    let mut window = events();
    assert!(!window.left_clicked());
    assert!(!window.left_held());
    window.mouse_input(MouseButton::Left, ElementState::Pressed);
    assert!(window.left_clicked());
    assert!(!window.left_held());
    window.next_frame();
    assert!(!window.left_clicked());
    assert!(window.left_held());
    window.next_frame();
    assert!(window.left_held());
    window.mouse_input(MouseButton::Left, ElementState::Released);
    assert_eq!(window.left_mouse, MouseClickType::Released);
    window.next_frame();
    assert_eq!(window.left_mouse, MouseClickType::NotHeld);
    window.next_frame();
    assert_eq!(window.left_mouse, MouseClickType::NotHeld);
}

#[test]
fn next_frame_forgets_the_keys() {
    let mut window = events();
    window.key_input(KeyCode::W, ElementState::Pressed);
    window.key_input(KeyCode::Space, ElementState::Released);
    assert_eq!(
        window.keys_pressed,
        vec![(KeyCode::W, ElementState::Pressed), (KeyCode::Space, ElementState::Released)]
    );
    window.next_frame();
    assert!(window.keys_pressed.is_empty());
    assert!(!window.is_key_pressed(KeyCode::W, None));
    assert_eq!(window.aspect_ratio, 1.5f32.to_bits());
}

#[test]
fn other_buttons_keep_their_state_over_frames() {
    let mut window = events();
    window.mouse_input(MouseButton::Right, ElementState::Pressed);
    window.mouse_input(MouseButton::Other(4), ElementState::Pressed);
    assert_eq!(window.right_mouse, MouseClickType::Clicked);
    assert_eq!(window.left_mouse, MouseClickType::NotHeld);
    assert_eq!(window.middle_mouse, MouseClickType::NotHeld);
    window.next_frame();
    assert_eq!(window.right_mouse, MouseClickType::Clicked);
    assert_eq!(window.left_mouse, MouseClickType::Held);
    window.mouse_input(MouseButton::Middle, ElementState::Released);
    assert_eq!(window.middle_mouse, MouseClickType::Released);
    window.next_frame();
    assert_eq!(window.middle_mouse, MouseClickType::Released);
    assert_eq!(window.right_mouse, MouseClickType::Clicked);
    assert_eq!(window.left_mouse, MouseClickType::NotHeld);
    window.mouse_input(MouseButton::Middle, ElementState::Pressed);
    window.mouse_input(MouseButton::Right, ElementState::Released);
    window.next_frame();
    assert_eq!(window.left_mouse, MouseClickType::Held);
}

#[test]
fn timer_counts_down_to_zero_and_below() {
    let mut timer = Timer::new(2, 500_000_000);
    assert_eq!(timer.time_left, 2_500_000_000);
    assert!(!timer.finished());
    timer.tick(1, 0);
    assert_eq!(timer.time_left, 1_500_000_000);
    timer.tick(1, 499_999_999);
    assert_eq!(timer.time_left, 1);
    assert!(!timer.finished());
    timer.tick(0, 1);
    assert_eq!(timer.time_left, 0);
    assert!(timer.finished());
    timer.tick(0, 16_000_000);
    assert_eq!(timer.time_left, -16_000_000);
    assert!(timer.finished());
    assert!(Timer::new(0, 0).finished());
}

#[test]
fn timer_reads_seconds_as_signed() {
    assert_eq!(Timer::new(i64::MAX as u64, 7).time_left, i64::MAX as i128 * NANOS_PER_SECOND + 7);
    assert_eq!(
        Timer::new(i64::MAX as u64 + 1, 0).time_left,
        i64::MIN as i128 * NANOS_PER_SECOND
    );
    assert_eq!(Timer::new(u64::MAX, 5).time_left, -NANOS_PER_SECOND + 5);
    assert!(Timer::new(u64::MAX, 5).finished());
    assert_eq!(
        Timer::new(5, 6).time_left,
        time::Duration::new(5, 6).whole_nanoseconds()
    );
}

#[test]
fn timer_refuses_what_it_cannot_count() {
    let mut timer = Timer::new(1, 0);
    assert!(!timer.try_tick(i64::MAX as u64 + 1, 0));
    assert_eq!(timer.time_left, NANOS_PER_SECOND);
    assert!(timer.try_tick(3, 250));
    assert_eq!(timer.time_left, -2 * NANOS_PER_SECOND - 250);
    let mut low = Timer { time_left: MIN_TIME_LEFT + 10 };
    assert!(!low.try_tick(0, 11));
    assert_eq!(low.time_left, MIN_TIME_LEFT + 10);
    assert!(low.try_tick(0, 10));
    assert_eq!(low.time_left, MIN_TIME_LEFT);
    assert!(!low.try_tick(0, 1));
    assert!(low.try_tick(0, 0));
    assert_eq!(MIN_TIME_LEFT, time::Duration::MIN.whole_nanoseconds());
}

#[test]
fn controller_starts_at_rest() {
    let controller = CameraController::new(5.0f32.to_bits(), 2.0f32.to_bits());
    assert_eq!(f32::from_bits(controller.speed), 5.0);
    assert_eq!(f32::from_bits(controller.sensitivity), 2.0);
    for amount in [
        controller.amount_left,
        controller.amount_right,
        controller.amount_forward,
        controller.amount_backward,
        controller.amount_up,
        controller.amount_down,
        controller.rotate_horizontal,
        controller.rotate_vertical,
        controller.scroll,
    ] {
        assert_eq!(f32::from_bits(amount), 0.0);
    }
}

#[test]
fn keys_set_the_amount_of_their_direction() {
    let one = 1.0f32.to_bits();
    let rest = CameraController::new(5.0f32.to_bits(), 2.0f32.to_bits());
    let pressed = |key: KeyCode| {
        let mut controller = rest;
        assert!(controller.process_keyboard(key, ElementState::Pressed));
        controller
    };
    for key in [KeyCode::W, KeyCode::Up] {
        assert_eq!(pressed(key), CameraController { amount_forward: one, ..rest });
    }
    for key in [KeyCode::S, KeyCode::Down] {
        assert_eq!(pressed(key), CameraController { amount_backward: one, ..rest });
    }
    for key in [KeyCode::A, KeyCode::Left] {
        assert_eq!(pressed(key), CameraController { amount_left: one, ..rest });
    }
    for key in [KeyCode::D, KeyCode::Right] {
        assert_eq!(pressed(key), CameraController { amount_right: one, ..rest });
    }
    assert_eq!(pressed(KeyCode::Space), CameraController { amount_up: one, ..rest });
    assert_eq!(pressed(KeyCode::LShift), CameraController { amount_down: one, ..rest });
    let mut controller = pressed(KeyCode::W);
    assert!(controller.process_keyboard(KeyCode::Up, ElementState::Released));
    assert_eq!(controller, rest);
    for key in [KeyCode::Escape, KeyCode::Other(0), KeyCode::Other(77)] {
        let mut controller = pressed(KeyCode::A);
        assert!(!controller.process_keyboard(key, ElementState::Pressed));
        assert_eq!(controller, CameraController { amount_left: one, ..rest });
    }
}

#[test]
fn mouse_and_wheel_are_stored() {
    let rest = CameraController::new(5.0f32.to_bits(), 2.0f32.to_bits());
    let mut controller = rest;
    controller.process_mouse((3.5f64 as f32).to_bits(), (-1.25f64 as f32).to_bits());
    assert_eq!(f32::from_bits(controller.rotate_horizontal), 3.5);
    assert_eq!(f32::from_bits(controller.rotate_vertical), -1.25);
    controller.process_scroll((2.0f32 * 3.0).to_bits());
    assert_eq!(f32::from_bits(controller.scroll), 6.0);
    assert_eq!(controller.speed, rest.speed);
    assert_eq!(controller.amount_forward, rest.amount_forward);
}

#[test]
fn input_routes_events() {
    let mut state = app();
    let rest = state.camera_controller;
    assert!(state.input(WindowInput::Keyboard { key: Some(KeyCode::W), state: ElementState::Pressed }));
    assert_eq!(state.window_events.keys_pressed, vec![(KeyCode::W, ElementState::Pressed)]);
    assert_eq!(f32::from_bits(state.camera_controller.amount_forward), 1.0);
    assert!(!state.input(WindowInput::Keyboard {
        key: Some(KeyCode::Other(9)),
        state: ElementState::Pressed
    }));
    assert_eq!(state.window_events.keys_pressed.len(), 2);
    assert!(state.window_events.is_key_pressed(KeyCode::Other(9), Some(ElementState::Pressed)));
    assert!(!state.input(WindowInput::Keyboard { key: None, state: ElementState::Pressed }));
    assert_eq!(state.window_events.keys_pressed.len(), 2);
    assert!(state.input(WindowInput::MouseWheel { scroll: 4.0f32.to_bits() }));
    assert_eq!(f32::from_bits(state.camera_controller.scroll), 4.0);
    assert!(state.input(WindowInput::MouseInput {
        button: MouseButton::Left,
        state: ElementState::Pressed
    }));
    assert!(state.window_events.left_clicked());
    assert!(state.input(WindowInput::MouseInput {
        button: MouseButton::Other(9),
        state: ElementState::Pressed
    }));
    assert_eq!(state.window_events.right_mouse, MouseClickType::NotHeld);
    assert!(!state.input(WindowInput::Other));
    assert_eq!(state.camera_controller.speed, rest.speed);
    assert!(state.asset_server.handles().is_empty());
}

#[test]
fn line_segment_becomes_a_static_batch() {
    let mut state = app();
    let material = state.asset_server.compile_material(Material { bind_group: BindGroupId(3) });
    let start = [0.0f32.to_bits(); 3];
    let end = [1.0f32.to_bits(), 2.0f32.to_bits(), 3.0f32.to_bits()];
    let line = line_3d(start, end, 0.5f32.to_bits(), 1.5f32.to_bits());
    let mut identity = [[0u32; 4]; 4];
    for i in 0..4 {
        identity[i][i] = 1.0f32.to_bits();
    }
    let (handle, vertices, indices, instances) = state.draw_line_segment(line, identity, material);
    assert_eq!(handle, Handle { index: 0, generation: 1 });
    assert_eq!(vertices.contents.len(), 20);
    assert_eq!(indices.contents, vec![2, 1, 0, 1, 2, 3]);
    assert_eq!(instances.usage, BufferUsage::Vertex);
    assert_eq!(instances.buffer, BufferId(4));
    assert_eq!(instances.contents.len(), 21);
    assert_eq!(&instances.contents[16..20], &Instance::default().color);
    let prefab = state.asset_server.get(handle).unwrap();
    assert_eq!(prefab.length, 1);
    assert!(!prefab.dynamic);
}

#[test]
fn timer_counts_like_a_signed_duration() {
    let spans = [
        (0u64, 0u32),
        (0, 1),
        (0, 999_999_999),
        (1, 0),
        (3, 500_000_000),
        (86_400, 123_456_789),
        (i64::MAX as u64 / 4, 7),
    ];
    for (secs, nanos) in spans {
        for (delta_secs, delta_nanos) in spans {
            let mut timer = Timer::new(secs, nanos);
            let mut expected = time::Duration::new(secs as i64, nanos as i32);
            assert_eq!(timer.time_left, expected.whole_nanoseconds());
            for _ in 0..3 {
                timer.tick(delta_secs, delta_nanos);
                expected -= std::time::Duration::new(delta_secs, delta_nanos);
                assert_eq!(timer.time_left, expected.whole_nanoseconds());
                assert_eq!(timer.finished(), expected.is_negative() || expected.is_zero());
            }
        }
    }
}

#[test]
fn timer_stops_where_a_signed_duration_overflows() {
    let lowest = time::Duration::MIN;
    let mut timer = Timer { time_left: lowest.whole_nanoseconds() };
    assert!(lowest.checked_sub(time::Duration::new(0, 1)).is_none());
    assert!(!timer.try_tick(0, 1));
    let near = time::Duration::new(i64::MIN + 1, -5);
    let mut timer_near = Timer { time_left: near.whole_nanoseconds() };
    assert_eq!(
        near.checked_sub(time::Duration::new(1, 999_999_994)).map(|d| d.whole_nanoseconds()),
        Some(MIN_TIME_LEFT)
    );
    assert!(timer_near.try_tick(1, 999_999_994));
    assert_eq!(timer_near.time_left, MIN_TIME_LEFT);
    assert!(near.checked_sub(time::Duration::new(1, 999_999_995)).is_none());
    let mut again = Timer { time_left: near.whole_nanoseconds() };
    assert!(!again.try_tick(1, 999_999_995));
    assert_eq!(again.time_left, near.whole_nanoseconds());
    assert!(near.checked_sub(time::Duration::new(2, 0)).is_none());
    assert!(!again.try_tick(2, 0));
    assert!(!timer.try_tick(0, 5));
}
