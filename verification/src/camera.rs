use crate::scalar::{greater, gt, is_nan, less, lt, rank};
use crate::structs::CameraController;
use vstd::prelude::*;

verus! {

/// Bit pattern of the steepest pitch the camera may take: a quarter turn
/// less a ten-thousandth.
pub const SAFE_FRAC_PI_2: u32 = 0x3FC9_0C94;

/// Bit pattern of the steepest downward pitch: `SAFE_FRAC_PI_2` negated.
pub const NEG_SAFE_FRAC_PI_2: u32 = 0xBFC9_0C94;

/// Where the camera stands and where it looks. All numbers are IEEE-754
/// single-precision bit patterns; yaw and pitch are angles in radians.
#[derive(Clone, Copy, Debug, PartialEq, Eq)]
pub struct Camera {
    pub position: [u32; 3],
    pub yaw: u32,
    pub pitch: u32,
}

/// The pitch kept from going too high or too low: a pitch below the
/// steepest downward one becomes that one, a pitch above the steepest
/// upward one becomes that one, any other stays.
pub open spec fn clamped(pitch: u32) -> u32 {
    if lt(pitch, NEG_SAFE_FRAC_PI_2) {
        NEG_SAFE_FRAC_PI_2
    } else if gt(pitch, SAFE_FRAC_PI_2) {
        SAFE_FRAC_PI_2
    } else {
        pitch
    }
}

/// Keeps a pitch from going too high or too low.
pub fn clamp_pitch(pitch: u32) -> (safe: u32)
    ensures
        safe == clamped(pitch),
{
    if less(pitch, NEG_SAFE_FRAC_PI_2) {
        NEG_SAFE_FRAC_PI_2
    } else if greater(pitch, SAFE_FRAC_PI_2) {
        SAFE_FRAC_PI_2
    } else {
        pitch
    }
}

/// A clamped pitch that is a number lies between the two steepest ones.
pub proof fn lemma_clamped_in_range(pitch: u32)
    requires
        !is_nan(pitch),
    ensures
        rank(NEG_SAFE_FRAC_PI_2) <= rank(clamped(pitch)) <= rank(SAFE_FRAC_PI_2),
        !lt(clamped(pitch), NEG_SAFE_FRAC_PI_2),
        !gt(clamped(pitch), SAFE_FRAC_PI_2),
{
}

impl Camera {
    /// A camera at `position`, looking along the given angles.
    pub fn new(position: [u32; 3], yaw: u32, pitch: u32) -> (camera: Camera)
        ensures
            camera == (Camera { position, yaw, pitch }),
    {
        Camera { position, yaw, pitch }
    }
}

/// Ends one step of the free-flying camera.
///
/// `position`, `yaw` and `pitch` are where the controller's amounts have
/// moved and turned the camera during the step. The camera takes them,
/// the pitch kept within its limits, and the controller forgets the
/// scroll and the rotation it had collected; what the keys hold down
/// stays.
pub fn default_3d_cam(
    camera: &mut Camera,
    controller: &mut CameraController,
    position: [u32; 3],
    yaw: u32,
    pitch: u32,
)
    ensures
        *final(camera) == (Camera { position, yaw, pitch: clamped(pitch) }),
        *final(controller) == (CameraController {
            scroll: 0,
            rotate_horizontal: 0,
            rotate_vertical: 0,
            ..*old(controller)
        }),
{
    camera.position = position;
    camera.yaw = yaw;
    controller.scroll = 0;
    controller.rotate_horizontal = 0;
    controller.rotate_vertical = 0;
    camera.pitch = clamp_pitch(pitch);
}

} // verus!
