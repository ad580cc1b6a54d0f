//! Publishing a round's configuration, and the readiness gate.
//!
//! The controller writes a whole configuration into its own structure, then
//! sets the reset pulse and bumps the control sequence counter. It refuses
//! to publish while the command sequence counter is still at zero, that is
//! before any command has ever been issued.
use vstd::prelude::*;
use crate::layout::{SharedCommands, SharedGameStructure, SharedMemory};

verus! {

/// A complete configuration for one round.
///
/// Floating-point quantities are given as `f32` bit patterns. `colors` must
/// hold three faces of four channels (RGBA) each.
#[derive(Clone, Debug, PartialEq)]
pub struct RoundConfig {
    pub seed: u64,
    pub base_radius: u32,
    pub height: u32,
    pub start_orient: u32,
    pub target_door: u32,
    pub colors: Vec<Vec<u32>>,
    pub decorations_count: [u32; 3],
    pub decorations_size: [u32; 3],
    pub cosine_alignment_threshold: u32,
    pub door_anim_fade_out: u32,
    pub door_anim_stay_open: u32,
    pub door_anim_fade_in: u32,
    pub main_spotlight_intensity: u32,
    pub ambient_brightness: u32,
    pub max_spotlight_intensity: u32,
}

/// Why a configuration was not published. Nothing is written in either case.
#[derive(Clone, Debug, PartialEq, Eq)]
pub enum PublishError {
    /// `colors` is not three faces of four channels; `face_lengths` gives
    /// the length of each face that was supplied.
    ColorShape { face_lengths: Vec<usize> },
    /// No command has been issued yet.
    NotReady,
}

/// `colors` holds three faces of four channels each.
pub open spec fn colors_well_shaped(colors: Seq<Vec<u32>>) -> bool {
    &&& colors.len() == 3
    &&& forall|i: int| 0 <= i < 3 ==> (#[trigger] colors[i])@.len() == 4
}

/// The length of each face of `colors`.
pub open spec fn face_lengths(colors: Seq<Vec<u32>>) -> Seq<usize> {
    Seq::new(colors.len(), |i: int| colors[i]@.len() as usize)
}

/// Three faces of four channels laid out face-major in twelve slots.
pub open spec fn flat_colors(colors: Seq<Vec<u32>>) -> Seq<u32> {
    Seq::new(12, |k: int| colors[k / 4]@[k % 4])
}

impl SharedGameStructure {
    /// `self` is `before` with every configuration field taken from `c` and
    /// the telemetry fields left as they were.
    pub open spec fn holds_config(self, before: SharedGameStructure, c: RoundConfig) -> bool {
        &&& self.seed == c.seed
        &&& self.base_radius == c.base_radius
        &&& self.height == c.height
        &&& self.start_orient == c.start_orient
        &&& self.target_door == c.target_door
        &&& self.colors@ == flat_colors(c.colors@)
        &&& self.decorations_count == c.decorations_count
        &&& self.decorations_size == c.decorations_size
        &&& self.cosine_alignment_threshold == c.cosine_alignment_threshold
        &&& self.door_anim_fade_out == c.door_anim_fade_out
        &&& self.door_anim_stay_open == c.door_anim_stay_open
        &&& self.door_anim_fade_in == c.door_anim_fade_in
        &&& self.main_spotlight_intensity == c.main_spotlight_intensity
        &&& self.ambient_brightness == c.ambient_brightness
        &&& self.max_spotlight_intensity == c.max_spotlight_intensity
        &&& self.frame_number == before.frame_number
        &&& self.elapsed_secs == before.elapsed_secs
        &&& self.camera_radius == before.camera_radius
        &&& self.camera_x == before.camera_x
        &&& self.camera_y == before.camera_y
        &&& self.camera_z == before.camera_z
        &&& self.attempts == before.attempts
        &&& self.current_alignment == before.current_alignment
        &&& self.current_angle == before.current_angle
        &&& self.is_animating == before.is_animating
        &&& self.win_time == before.win_time
    }
}

/// Checks that `colors` is three faces of four channels.
fn check_color_shape(colors: &Vec<Vec<u32>>) -> (r: Result<(), PublishError>)
    ensures
        r is Ok <==> colors_well_shaped(colors@),
        r matches Err(PublishError::ColorShape { face_lengths: l }) && l@ == face_lengths(colors@)
            || r is Ok,
{
    let mut ok = colors.len() == 3;
    let mut lengths: Vec<usize> = Vec::new();
    let mut i: usize = 0;
    while i < colors.len()
        invariant
            i <= colors@.len(),
            lengths@ == face_lengths(colors@).take(i as int),
            ok <==> (colors@.len() == 3 && forall|j: int| 0 <= j < i ==> (#[trigger] colors@[j])@.len() == 4),
        decreases colors@.len() - i,
    {
        let n = colors[i].len();
        if n != 4 {
            ok = false;
        }
        lengths.push(n);
        i = i + 1;
        assert(lengths@ =~= face_lengths(colors@).take(i as int));
    }
    assert(lengths@ =~= face_lengths(colors@));
    if ok {
        Ok(())
    } else {
        Err(PublishError::ColorShape { face_lengths: lengths })
    }
}

impl SharedMemory {
    /// `self` is `before` after a successful publication of `c`: the
    /// controller's structure holds `c`, the reset pulse is set, the control
    /// sequence counter went up by one, and nothing else changed.
    pub open spec fn is_published(self, before: SharedMemory, c: RoundConfig) -> bool {
        &&& self.game_structure_control.holds_config(before.game_structure_control, c)
        &&& self.commands == SharedCommands { reset: true, ..before.commands }
        &&& self.game_structure_game == before.game_structure_game
        &&& self.commands_seq == before.commands_seq
        &&& self.game_structure_game_seq == before.game_structure_game_seq
        &&& self.game_structure_control_seq == before.game_structure_control_seq + 1
    }

    /// Publishes the configuration of a new round.
    ///
    /// A malformed colour table is refused first, then a publication before
    /// any command was issued. Otherwise every configuration field of the
    /// controller's structure is written, the reset pulse is set and the
    /// control sequence counter is bumped.
    pub fn write_game_structure(&mut self, config: &RoundConfig) -> (r: Result<(), PublishError>)
        requires
            colors_well_shaped(config.colors@) && old(self).commands_seq != 0
                ==> old(self).game_structure_control_seq < u64::MAX,
        ensures
            old(self).wf() ==> final(self).wf(),
            match r {
                Ok(()) => {
                    &&& colors_well_shaped(config.colors@)
                    &&& old(self).commands_seq != 0
                    &&& final(self).is_published(*old(self), *config)
                },
                Err(PublishError::ColorShape { face_lengths: l }) => {
                    &&& !colors_well_shaped(config.colors@)
                    &&& l@ == face_lengths(config.colors@)
                    &&& *final(self) == *old(self)
                },
                Err(PublishError::NotReady) => {
                    &&& colors_well_shaped(config.colors@)
                    &&& old(self).commands_seq == 0
                    &&& *final(self) == *old(self)
                },
            },
    {
        match check_color_shape(&config.colors) {
            Err(e) => {
                return Err(e);
            },
            Ok(()) => {},
        }
        if self.commands_seq == 0 {
            return Err(PublishError::NotReady);
        }
        let mut colors: [u32; 12] = [0; 12];
        let mut k: usize = 0;
        while k < 12
            invariant
                k <= 12,
                colors_well_shaped(config.colors@),
                forall|j: int| 0 <= j < k ==> colors[j] == flat_colors(config.colors@)[j],
            decreases 12 - k,
        {
            colors[k] = config.colors[k / 4][k % 4];
            k = k + 1;
        }
        assert(colors@ =~= flat_colors(config.colors@));

        let gs = &mut self.game_structure_control;
        gs.seed = config.seed;
        gs.base_radius = config.base_radius;
        gs.height = config.height;
        gs.start_orient = config.start_orient;
        gs.target_door = config.target_door;
        gs.colors = colors;
        gs.decorations_count = config.decorations_count;
        gs.decorations_size = config.decorations_size;
        gs.cosine_alignment_threshold = config.cosine_alignment_threshold;
        gs.door_anim_fade_out = config.door_anim_fade_out;
        gs.door_anim_stay_open = config.door_anim_stay_open;
        gs.door_anim_fade_in = config.door_anim_fade_in;
        gs.main_spotlight_intensity = config.main_spotlight_intensity;
        gs.ambient_brightness = config.ambient_brightness;
        gs.max_spotlight_intensity = config.max_spotlight_intensity;

        self.commands.reset = true;
        self.game_structure_control_seq = self.game_structure_control_seq + 1;
        Ok(())
    }

    /// The control sequence counter.
    pub fn read_game_structure_control_seq(&self) -> (r: u64)
        ensures
            r == self.game_structure_control_seq,
    {
        self.game_structure_control_seq
    }
}

} // verus!
