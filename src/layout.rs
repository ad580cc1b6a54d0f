//! The fixed layout of the shared region.
//!
//! The region holds a command block (controller writes, runner reads), two
//! game structures of the same shape (one written by the controller, one by
//! the runner) and one sequence counter per one-way channel.
use vstd::prelude::*;
use crate::constants;

verus! {

/// Commands sent from the controller to the runner.
///
/// The first four flags are continuous: the runner samples them every tick
/// and never clears them. The others are pulses: the runner clears each one
/// in the same step in which it reads it.
#[derive(Clone, Copy, Debug, PartialEq, Eq)]
pub struct SharedCommands {
    pub rotate_left: bool,
    pub rotate_right: bool,
    pub zoom_in: bool,
    pub zoom_out: bool,
    pub check_alignment: bool,
    pub reset: bool,
    pub blank_screen: bool,
    pub stop_rendering: bool,
    pub resume_rendering: bool,
    pub animation_door: bool,
}

impl SharedCommands {
    /// No flag is set.
    pub open spec fn is_clear(self) -> bool {
        &&& !self.rotate_left
        &&& !self.rotate_right
        &&& !self.zoom_in
        &&& !self.zoom_out
        &&& !self.check_alignment
        &&& !self.reset
        &&& !self.blank_screen
        &&& !self.stop_rendering
        &&& !self.resume_rendering
        &&& !self.animation_door
    }

    /// A command block with every flag cleared.
    pub fn new() -> (r: Self)
        ensures
            r.is_clear(),
    {
        SharedCommands {
            rotate_left: false,
            rotate_right: false,
            zoom_in: false,
            zoom_out: false,
            check_alignment: false,
            reset: false,
            blank_screen: false,
            stop_rendering: false,
            resume_rendering: false,
            animation_door: false,
        }
    }
}
impl Default for SharedCommands {
    fn default() -> (r: Self)
        ensures
            r.is_clear(),
    {
        Self::new()
    }
}

/// Phase of a round as the runner reports it.
#[derive(Clone, Copy, Debug, PartialEq, Eq)]
pub enum Phase {
    Playing,
    Won,
}

/// One game structure: the configuration of a round and its live telemetry.
///
/// Fields that hold a floating-point quantity carry its `f32` bit pattern.
/// `colors` holds three faces of four channels each, face-major.
#[derive(Clone, Copy, Debug, PartialEq, Eq)]
pub struct SharedGameStructure {
    // Configuration of the round
    pub seed: u64,
    pub base_radius: u32,
    pub height: u32,
    pub start_orient: u32,
    pub target_door: u32,
    pub colors: [u32; 12],
    pub decorations_count: [u32; 3],
    pub decorations_size: [u32; 3],
    pub cosine_alignment_threshold: u32,
    pub door_anim_fade_out: u32,
    pub door_anim_stay_open: u32,
    pub door_anim_fade_in: u32,
    pub main_spotlight_intensity: u32,
    pub ambient_brightness: u32,
    pub max_spotlight_intensity: u32,
    // Live telemetry
    pub frame_number: u64,
    pub elapsed_secs: u32,
    pub camera_radius: u32,
    pub camera_x: u32,
    pub camera_y: u32,
    pub camera_z: u32,
    pub attempts: u32,
    pub current_alignment: u32,
    pub current_angle: u32,
    pub is_animating: bool,
    pub win_time: u32,
}

impl SharedGameStructure {
    /// The default colours: red, green and blue faces, all opaque.
    pub open spec fn initial_colors() -> Seq<u32> {
        seq![
            constants::ONE_BITS, constants::ZERO_BITS, constants::ZERO_BITS, constants::ONE_BITS,
            constants::ZERO_BITS, constants::ONE_BITS, constants::ZERO_BITS, constants::ONE_BITS,
            constants::ZERO_BITS, constants::ZERO_BITS, constants::ONE_BITS, constants::ONE_BITS,
        ]
    }

    /// The contents of a structure in a freshly initialised region.
    pub open spec fn is_initial(self) -> bool {
        &&& self.seed == constants::SEED
        &&& self.base_radius == constants::PYRAMID_BASE_RADIUS_BITS
        &&& self.height == constants::PYRAMID_HEIGHT_BITS
        &&& self.start_orient == constants::PYRAMID_START_ANGLE_OFFSET_RAD_BITS
        &&& self.target_door == constants::PYRAMID_TARGET_DOOR_INDEX
        &&& self.colors@ == Self::initial_colors()
        &&& self.decorations_count@ == seq![
            constants::PYRAMID_DECORATIONS_COUNT_0,
            constants::PYRAMID_DECORATIONS_COUNT_1,
            constants::PYRAMID_DECORATIONS_COUNT_2,
        ]
        &&& self.decorations_size@ == seq![
            constants::PYRAMID_DECORATIONS_SIZE_0_BITS,
            constants::PYRAMID_DECORATIONS_SIZE_1_BITS,
            constants::PYRAMID_DECORATIONS_SIZE_2_BITS,
        ]
        &&& self.cosine_alignment_threshold == constants::COSINE_ALIGNMENT_TO_WIN_BITS
        &&& self.door_anim_fade_out == constants::DOOR_ANIM_FADE_OUT_BITS
        &&& self.door_anim_stay_open == constants::DOOR_ANIM_STAY_OPEN_BITS
        &&& self.door_anim_fade_in == constants::DOOR_ANIM_FADE_IN_BITS
        &&& self.main_spotlight_intensity == constants::SPOTLIGHT_LIGHT_INTENSITY_BITS
        &&& self.ambient_brightness == constants::GLOBAL_AMBIENT_LIGHT_INTENSITY_BITS
        &&& self.max_spotlight_intensity == constants::MAX_SPOTLIGHT_INTENSITY_BITS
        &&& self.frame_number == 0
        &&& self.elapsed_secs == 0
        &&& self.camera_radius == constants::CAMERA_3D_INITIAL_RADIUS_BITS
        &&& self.camera_x == constants::CAMERA_3D_INITIAL_X_BITS
        &&& self.camera_y == constants::CAMERA_3D_INITIAL_Y_BITS
        &&& self.camera_z == constants::CAMERA_3D_INITIAL_Z_BITS
        &&& self.attempts == 0
        &&& self.current_alignment == constants::ZERO_BITS
        &&& self.current_angle == 0
        &&& !self.is_animating
        &&& self.win_time == 0
    }

    /// `self` with the animation flag set to `b`.
    pub open spec fn with_animating(self, b: bool) -> SharedGameStructure {
        SharedGameStructure { is_animating: b, ..self }
    }

    /// A structure holding the default configuration and zeroed telemetry.
    pub fn new() -> (r: Self)
        ensures
            r.is_initial(),
    {
        let r = SharedGameStructure {
            seed: constants::SEED,
            base_radius: constants::PYRAMID_BASE_RADIUS_BITS,
            height: constants::PYRAMID_HEIGHT_BITS,
            start_orient: constants::PYRAMID_START_ANGLE_OFFSET_RAD_BITS,
            target_door: constants::PYRAMID_TARGET_DOOR_INDEX,
            colors: [
                constants::ONE_BITS, constants::ZERO_BITS, constants::ZERO_BITS, constants::ONE_BITS,
                constants::ZERO_BITS, constants::ONE_BITS, constants::ZERO_BITS, constants::ONE_BITS,
                constants::ZERO_BITS, constants::ZERO_BITS, constants::ONE_BITS, constants::ONE_BITS,
            ],
            decorations_count: [
                constants::PYRAMID_DECORATIONS_COUNT_0,
                constants::PYRAMID_DECORATIONS_COUNT_1,
                constants::PYRAMID_DECORATIONS_COUNT_2,
            ],
            decorations_size: [
                constants::PYRAMID_DECORATIONS_SIZE_0_BITS,
                constants::PYRAMID_DECORATIONS_SIZE_1_BITS,
                constants::PYRAMID_DECORATIONS_SIZE_2_BITS,
            ],
            cosine_alignment_threshold: constants::COSINE_ALIGNMENT_TO_WIN_BITS,
            door_anim_fade_out: constants::DOOR_ANIM_FADE_OUT_BITS,
            door_anim_stay_open: constants::DOOR_ANIM_STAY_OPEN_BITS,
            door_anim_fade_in: constants::DOOR_ANIM_FADE_IN_BITS,
            main_spotlight_intensity: constants::SPOTLIGHT_LIGHT_INTENSITY_BITS,
            ambient_brightness: constants::GLOBAL_AMBIENT_LIGHT_INTENSITY_BITS,
            max_spotlight_intensity: constants::MAX_SPOTLIGHT_INTENSITY_BITS,
            frame_number: 0,
            elapsed_secs: 0,
            camera_radius: constants::CAMERA_3D_INITIAL_RADIUS_BITS,
            camera_x: constants::CAMERA_3D_INITIAL_X_BITS,
            camera_y: constants::CAMERA_3D_INITIAL_Y_BITS,
            camera_z: constants::CAMERA_3D_INITIAL_Z_BITS,
            attempts: 0,
            current_alignment: constants::ZERO_BITS,
            current_angle: 0,
            is_animating: false,
            win_time: 0,
        };
        assert(r.colors@ =~= Self::initial_colors());
        assert(r.decorations_count@ =~= seq![
            constants::PYRAMID_DECORATIONS_COUNT_0,
            constants::PYRAMID_DECORATIONS_COUNT_1,
            constants::PYRAMID_DECORATIONS_COUNT_2,
        ]);
        assert(r.decorations_size@ =~= seq![
            constants::PYRAMID_DECORATIONS_SIZE_0_BITS,
            constants::PYRAMID_DECORATIONS_SIZE_1_BITS,
            constants::PYRAMID_DECORATIONS_SIZE_2_BITS,
        ]);
        r
    }

    /// Copies every field of `other` into `self`, slot by slot.
    ///
    /// This is the one path by which a round's configuration crosses from
    /// the controller's structure into the runner's.
    pub fn reset_all_fields(&mut self, other: &SharedGameStructure)
        ensures
            *final(self) == *other,
    {
        let mut i: usize = 0;
        while i < 12
            invariant
                i <= 12,
                forall|j: int| 0 <= j < i ==> self.colors[j] == other.colors[j],
            decreases 12 - i,
        {
            self.colors[i] = other.colors[i];
            i = i + 1;
        }
        let mut i: usize = 0;
        while i < 3
            invariant
                i <= 3,
                forall|j: int| 0 <= j < 12 ==> self.colors[j] == other.colors[j],
                forall|j: int| 0 <= j < i ==> self.decorations_count[j] == other.decorations_count[j],
                forall|j: int| 0 <= j < i ==> self.decorations_size[j] == other.decorations_size[j],
            decreases 3 - i,
        {
            self.decorations_count[i] = other.decorations_count[i];
            self.decorations_size[i] = other.decorations_size[i];
            i = i + 1;
        }
        self.seed = other.seed;
        self.base_radius = other.base_radius;
        self.height = other.height;
        self.start_orient = other.start_orient;
        self.target_door = other.target_door;
        self.cosine_alignment_threshold = other.cosine_alignment_threshold;
        self.door_anim_fade_out = other.door_anim_fade_out;
        self.door_anim_stay_open = other.door_anim_stay_open;
        self.door_anim_fade_in = other.door_anim_fade_in;
        self.main_spotlight_intensity = other.main_spotlight_intensity;
        self.ambient_brightness = other.ambient_brightness;
        self.max_spotlight_intensity = other.max_spotlight_intensity;
        self.frame_number = other.frame_number;
        self.elapsed_secs = other.elapsed_secs;
        self.camera_radius = other.camera_radius;
        self.camera_x = other.camera_x;
        self.camera_y = other.camera_y;
        self.camera_z = other.camera_z;
        self.attempts = other.attempts;
        self.current_alignment = other.current_alignment;
        self.current_angle = other.current_angle;
        self.is_animating = other.is_animating;
        self.win_time = other.win_time;
        broadcast use vstd::array::group_array_axioms;
        assert(self.colors =~= other.colors);
        assert(self.decorations_count =~= other.decorations_count);
        assert(self.decorations_size =~= other.decorations_size);
    }
}

impl Default for SharedGameStructure {
    fn default() -> (r: Self)
        ensures
            r.is_initial(),
    {
        Self::new()
    }
}

/// The whole shared region.
///
/// Each sequence counter is bumped by the writer of its channel after each
/// logical update; readers may poll it to learn that new data has arrived.
#[derive(Clone, Copy, Debug, PartialEq, Eq)]
pub struct SharedMemory {
    pub commands: SharedCommands,
    pub game_structure_game: SharedGameStructure,
    pub game_structure_control: SharedGameStructure,
    pub commands_seq: u64,
    pub game_structure_game_seq: u64,
    pub game_structure_control_seq: u64,
}

impl SharedMemory {
    /// A freshly initialised region: no command, default structures, counters at zero.
    pub open spec fn is_initial(self) -> bool {
        &&& self.commands.is_clear()
        &&& self.game_structure_game.is_initial()
        &&& self.game_structure_control.is_initial()
        &&& self.commands_seq == 0
        &&& self.game_structure_game_seq == 0
        &&& self.game_structure_control_seq == 0
    }

    /// The region's invariant: the controller's structure never reports an
    /// animation or a win, since only the runner writes those fields.
    pub open spec fn wf(self) -> bool {
        &&& !self.game_structure_control.is_animating
        &&& self.game_structure_control.win_time == 0
    }

    /// The region once the runner has adopted the controller's configuration:
    /// its own structure is a copy of the controller's, with no animation in
    /// flight and no win recorded.
    pub open spec fn round_adopted(self) -> SharedMemory {
        SharedMemory {
            game_structure_game: SharedGameStructure {
                is_animating: false,
                win_time: 0,
                ..self.game_structure_control
            },
            ..self
        }
    }

    /// A freshly initialised region.
    pub fn new() -> (r: Self)
        ensures
            r.is_initial(),
            r.wf(),
    {
        SharedMemory {
            commands: SharedCommands::new(),
            game_structure_game: SharedGameStructure::new(),
            game_structure_control: SharedGameStructure::new(),
            commands_seq: 0,
            game_structure_game_seq: 0,
            game_structure_control_seq: 0,
        }
    }
}

impl Default for SharedMemory {
    fn default() -> (r: Self)
        ensures
            r.is_initial(),
            r.wf(),
    {
        Self::new()
    }
}

} // verus!
