//! Live telemetry: the runner writes its structure each tick and the
//! controller reads it back as a snapshot.
use vstd::prelude::*;
use crate::layout::{SharedGameStructure, SharedMemory};

verus! {

/// Camera orbit radius and position, as `f32` bit patterns.
#[derive(Clone, Copy, Debug, PartialEq, Eq)]
pub struct CameraTelemetry {
    pub radius: u32,
    pub x: u32,
    pub y: u32,
    pub z: u32,
}

/// Cosine between the camera and the target door, and the angle between
/// them in radians, as `f32` bit patterns.
#[derive(Clone, Copy, Debug, PartialEq, Eq)]
pub struct AlignmentTelemetry {
    pub alignment: u32,
    pub angle: u32,
}

/// What the runner measured in one tick. A part that could not be measured
/// (no camera, no target door) is `None` and leaves its fields as they were.
#[derive(Clone, Copy, Debug, PartialEq, Eq)]
pub struct Telemetry {
    pub frame_number: u64,
    pub elapsed_secs: u32,
    pub camera: Option<CameraTelemetry>,
    pub alignment: Option<AlignmentTelemetry>,
}

impl SharedGameStructure {
    /// `self` with the measurements of `t` written over it.
    pub open spec fn with_telemetry(self, t: Telemetry) -> SharedGameStructure {
        let s = SharedGameStructure {
            frame_number: t.frame_number,
            elapsed_secs: t.elapsed_secs,
            ..self
        };
        let s = match t.camera {
            Some(c) => SharedGameStructure {
                camera_radius: c.radius,
                camera_x: c.x,
                camera_y: c.y,
                camera_z: c.z,
                ..s
            },
            None => s,
        };
        match t.alignment {
            Some(a) => SharedGameStructure {
                current_alignment: a.alignment,
                current_angle: a.angle,
                ..s
            },
            None => s,
        }
    }

    /// Counts one more alignment check.
    pub fn record_attempt(&mut self)
        requires
            old(self).attempts < u32::MAX,
        ensures
            *final(self) == (SharedGameStructure { attempts: (old(self).attempts + 1) as u32, ..*old(self) }),
    {
        self.attempts = self.attempts + 1;
    }
}

impl SharedMemory {
    /// The region after the runner has emitted `t`.
    pub open spec fn emitted(self, t: Telemetry) -> SharedMemory {
        SharedMemory {
            game_structure_game: self.game_structure_game.with_telemetry(t),
            game_structure_game_seq: (self.game_structure_game_seq + 1) as u64,
            ..self
        }
    }

    /// Writes the runner's measurements into its structure and bumps the
    /// game sequence counter.
    pub fn emit_state_to_shm(&mut self, t: &Telemetry)
        requires
            old(self).game_structure_game_seq < u64::MAX,
        ensures
            *final(self) == old(self).emitted(*t),
            old(self).wf() ==> final(self).wf(),
    {
        let gs = &mut self.game_structure_game;
        gs.frame_number = t.frame_number;
        gs.elapsed_secs = t.elapsed_secs;
        match t.camera {
            Some(c) => {
                gs.camera_radius = c.radius;
                gs.camera_x = c.x;
                gs.camera_y = c.y;
                gs.camera_z = c.z;
            },
            None => {},
        }
        match t.alignment {
            Some(a) => {
                gs.current_alignment = a.alignment;
                gs.current_angle = a.angle;
            },
            None => {},
        }
        self.game_structure_game_seq = self.game_structure_game_seq + 1;
    }

    /// A snapshot of every field of the runner's structure.
    pub fn read_game_structure(&self) -> (r: SharedGameStructure)
        ensures
            r == self.game_structure_game,
    {
        self.game_structure_game
    }

    /// The game sequence counter.
    pub fn read_game_structure_game_seq(&self) -> (r: u64)
        ensures
            r == self.game_structure_game_seq,
    {
        self.game_structure_game_seq
    }
}

} // verus!
