use vertix::camera::{clamp_pitch, default_3d_cam, Camera, NEG_SAFE_FRAC_PI_2, SAFE_FRAC_PI_2};
use vertix::resources::{ElementState, KeyCode};
use vertix::structs::CameraController;

#[test]
fn pitch_limit_is_a_quarter_turn_less_a_little() {
    let safe = std::f32::consts::FRAC_PI_2 - 0.0001;
    assert_eq!(SAFE_FRAC_PI_2, safe.to_bits());
    assert_eq!(NEG_SAFE_FRAC_PI_2, (-safe).to_bits());
}

#[test]
fn pitch_is_kept_within_its_limits() {
    let safe = f32::from_bits(SAFE_FRAC_PI_2);
    for pitch in [0.0f32, -0.0, 0.3, -1.2, safe, -safe, 1.5, -1.5] {
        assert_eq!(clamp_pitch(pitch.to_bits()), pitch.to_bits(), "{pitch}");
    }
    let above = f32::from_bits(SAFE_FRAC_PI_2 + 1);
    for pitch in [above, 1.58, 3.0, 1.0e30, f32::INFINITY] {
        assert_eq!(clamp_pitch(pitch.to_bits()), SAFE_FRAC_PI_2, "{pitch}");
        assert_eq!(clamp_pitch((-pitch).to_bits()), NEG_SAFE_FRAC_PI_2, "-{pitch}");
    }
    assert!(f32::from_bits(clamp_pitch(f32::NAN.to_bits())).is_nan());
}

#[test]
fn camera_step_takes_the_move_and_clears_what_was_collected() {
    let mut camera = Camera::new([0; 3], 0.5f32.to_bits(), 0.25f32.to_bits());
    let mut controller = CameraController::new(5.0f32.to_bits(), 2.0f32.to_bits());
    controller.process_keyboard(KeyCode::W, ElementState::Pressed);
    controller.process_mouse(3.0f32.to_bits(), 4.0f32.to_bits());
    controller.process_scroll(6.0f32.to_bits());
    let before = controller;
    let position = [1.0f32.to_bits(), 2.0f32.to_bits(), 3.0f32.to_bits()];
    default_3d_cam(&mut camera, &mut controller, position, 0.75f32.to_bits(), 2.0f32.to_bits());
    assert_eq!(camera, Camera { position, yaw: 0.75f32.to_bits(), pitch: SAFE_FRAC_PI_2 });
    assert_eq!(
        controller,
        CameraController { scroll: 0, rotate_horizontal: 0, rotate_vertical: 0, ..before }
    );
    assert_eq!(f32::from_bits(controller.amount_forward), 1.0);
    default_3d_cam(&mut camera, &mut controller, position, 0.75f32.to_bits(), (-0.5f32).to_bits());
    assert_eq!(f32::from_bits(camera.pitch), -0.5);
}
