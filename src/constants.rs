//! Default contents of a freshly initialised region.
//!
//! Floating-point defaults are given as the bit pattern of their `f32` value,
//! which is how the region stores them.
use vstd::prelude::*;

verus! {

/// Seed of the round's deterministic random generator.
pub const SEED: u64 = 69;

/// Base radius of the pyramid, `2.5`.
pub const PYRAMID_BASE_RADIUS_BITS: u32 = 0x4020_0000;

/// Height of the pyramid, `4.0`.
pub const PYRAMID_HEIGHT_BITS: u32 = 0x4080_0000;

/// Start orientation of the pyramid in radians, `0.0`.
pub const PYRAMID_START_ANGLE_OFFSET_RAD_BITS: u32 = 0;

/// Index of the face whose door is the target.
pub const PYRAMID_TARGET_DOOR_INDEX: u32 = 0;

/// `0.0`.
pub const ZERO_BITS: u32 = 0;

/// `1.0`.
pub const ONE_BITS: u32 = 0x3f80_0000;

/// Decorations on each face.
pub const PYRAMID_DECORATIONS_COUNT_0: u32 = 50;
pub const PYRAMID_DECORATIONS_COUNT_1: u32 = 20;
pub const PYRAMID_DECORATIONS_COUNT_2: u32 = 10;

/// Decoration sizes on each face: `0.1`, `0.2`, `0.3`.
pub const PYRAMID_DECORATIONS_SIZE_0_BITS: u32 = 0x3dcc_cccd;
pub const PYRAMID_DECORATIONS_SIZE_1_BITS: u32 = 0x3e4c_cccd;
pub const PYRAMID_DECORATIONS_SIZE_2_BITS: u32 = 0x3e99_999a;

/// Cosine between camera and target door above which the round is won, `0.95`.
pub const COSINE_ALIGNMENT_TO_WIN_BITS: u32 = 0x3f73_3333;

/// Door animation phases in seconds, `0.5` each.
pub const DOOR_ANIM_FADE_OUT_BITS: u32 = 0x3f00_0000;
pub const DOOR_ANIM_STAY_OPEN_BITS: u32 = 0x3f00_0000;
pub const DOOR_ANIM_FADE_IN_BITS: u32 = 0x3f00_0000;

/// Main spotlight intensity, `5_000_000.0`.
pub const SPOTLIGHT_LIGHT_INTENSITY_BITS: u32 = 0x4a98_9680;

/// Ambient brightness, `200.0`.
pub const GLOBAL_AMBIENT_LIGHT_INTENSITY_BITS: u32 = 0x4348_0000;

/// Upper bound of the spotlight intensity, `1_000_000.0`.
pub const MAX_SPOTLIGHT_INTENSITY_BITS: u32 = 0x4974_2400;

/// Initial camera position and orbit radius: `(0.0, 1.0, 15.0)`, `15.0`.
pub const CAMERA_3D_INITIAL_X_BITS: u32 = 0;
pub const CAMERA_3D_INITIAL_Y_BITS: u32 = 0x3f80_0000;
pub const CAMERA_3D_INITIAL_Z_BITS: u32 = 0x4170_0000;
pub const CAMERA_3D_INITIAL_RADIUS_BITS: u32 = 0x4170_0000;

} // verus!
