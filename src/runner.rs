//! The runner's side of a round: adopting a published configuration, the
//! door animation state, and the frame counter.
use vstd::prelude::*;
use crate::channel::PendingCommands;
use crate::constants;
use crate::layout::{SharedGameStructure, SharedMemory};

verus! {

/// rand_chacha's `ChaCha8Rng`, held opaque.
#[verifier::external_type_specification]
#[verifier::external_body]
pub struct ExChaCha8Rng(rand_chacha::ChaCha8Rng);

/// Relies on rand_core's `SeedableRng::seed_from_u64` for `ChaCha8Rng`:
/// builds the generator from the seed alone.
#[verifier::external_body]
fn chacha8_from_seed(seed: u64) -> rand_chacha::ChaCha8Rng {
    <rand_chacha::ChaCha8Rng as rand_chacha::rand_core::SeedableRng>::seed_from_u64(seed)
}

/// The round's deterministic random generator, with the seed it was built from.
pub struct RandomGen {
    pub random_gen: rand_chacha::ChaCha8Rng,
    pub seed: u64,
}

impl RandomGen {
    /// A generator seeded with `seed`.
    pub fn from_seed(seed: u64) -> (r: Self)
        ensures
            r.seed == seed,
    {
        RandomGen { random_gen: chacha8_from_seed(seed), seed }
    }
}

/// Entities of the door animation in flight, and when it started.
///
/// Entities are given by their 64-bit identifiers; times are nanoseconds
/// since the runner started.
#[derive(Clone, Copy, Debug, PartialEq, Eq)]
pub struct DoorWinEntities {
    pub animating_door: Option<u64>,
    pub animating_light: Option<u64>,
    pub animating_emissive: Option<u64>,
    pub animation_start_time: Option<u64>,
}

impl DoorWinEntities {
    /// No animation in flight.
    pub open spec fn is_clear(self) -> bool {
        &&& self.animating_door is None
        &&& self.animating_light is None
        &&& self.animating_emissive is None
        &&& self.animation_start_time is None
    }

    /// The state once an animation of `light` and `emissive` started at `now`.
    pub open spec fn started(self, light: Option<u64>, emissive: Option<u64>, now: u64) -> Self {
        DoorWinEntities {
            animating_light: light,
            animating_emissive: emissive,
            animation_start_time: Some(now),
            ..self
        }
    }

    /// The outcome of checking the state while the runner's structure says
    /// `animating`: the status, the state afterwards, and whether the
    /// structure still reports an animation.
    pub open spec fn checked(self, animating: bool, light_alive: bool) -> (
        AnimationStatus,
        DoorWinEntities,
        bool,
    ) {
        if !animating {
            (AnimationStatus::Idle, self, false)
        } else if self.animation_start_time is None {
            (AnimationStatus::Cleared, self, false)
        } else if self.animating_light is None {
            (AnimationStatus::Cleared, DoorWinEntities { animation_start_time: None, ..self }, false)
        } else if !light_alive {
            (
                AnimationStatus::Cleared,
                DoorWinEntities {
                    animating_light: None,
                    animating_emissive: None,
                    animation_start_time: None,
                    ..self
                },
                false,
            )
        } else {
            (
                AnimationStatus::Running {
                    start_time: self.animation_start_time->Some_0,
                    light: self.animating_light->Some_0,
                },
                self,
                true,
            )
        }
    }

    /// No animation in flight.
    pub fn new() -> (r: Self)
        ensures
            r.is_clear(),
    {
        DoorWinEntities {
            animating_door: None,
            animating_light: None,
            animating_emissive: None,
            animation_start_time: None,
        }
    }
}

/// What a tick of the door animation should do.
#[derive(Clone, Copy, Debug, PartialEq, Eq)]
pub enum AnimationStatus {
    /// No animation is running.
    Idle,
    /// The animation state referred to something that is gone; it was cleared.
    Cleared,
    /// The animation runs: it started at `start_time` and drives `light`.
    Running { start_time: u64, light: u64 },
}

/// The runner's own state between ticks.
pub struct RunnerState {
    pub pending: PendingCommands,
    pub frame_counter: u64,
    /// When the current round started, in nanoseconds since the runner started.
    pub round_start: Option<u64>,
    pub door_win_entities: DoorWinEntities,
    pub random_gen: RandomGen,
}

impl RunnerState {
    /// Nothing pending, no round started, the generator built from the default seed.
    pub fn new() -> (r: Self)
        ensures
            r.pending == PendingCommands::cleared_spec(r.pending),
            !r.pending.rendering_paused,
            !r.pending.reset,
            r.pending.rotation_steps == 0,
            r.frame_counter == 0,
            r.round_start is None,
            r.door_win_entities.is_clear(),
            r.random_gen.seed == constants::SEED,
    {
        RunnerState {
            pending: PendingCommands::new(),
            frame_counter: 0,
            round_start: None,
            door_win_entities: DoorWinEntities::new(),
            random_gen: RandomGen::from_seed(constants::SEED),
        }
    }

    /// Counts a rendered frame; a paused runner counts none.
    pub fn increment_frame_counter(&mut self)
        requires
            old(self).frame_counter < u64::MAX,
        ensures
            final(self).frame_counter == if old(self).pending.rendering_paused {
                old(self).frame_counter
            } else {
                (old(self).frame_counter + 1) as u64
            },
            final(self).pending == old(self).pending,
            final(self).round_start == old(self).round_start,
            final(self).door_win_entities == old(self).door_win_entities,
            final(self).random_gen == old(self).random_gen,
    {
        if !self.pending.rendering_paused {
            self.frame_counter = self.frame_counter + 1;
        }
    }

    /// Starts a new round if a reset is pending.
    ///
    /// The runner's structure becomes a field-for-field copy of the
    /// controller's, then reports no animation and no win; the generator is
    /// reseeded from the copied seed, the round starts at `now`, the frame
    /// counter restarts at zero and any animation state is dropped. Returns whether a round started; without a pending
    /// reset nothing changes.
    pub fn handle_reset_command(&mut self, shm: &mut SharedMemory, now: u64) -> (r: bool)
        ensures
            r == old(self).pending.reset,
            r ==> {
                &&& *final(shm) == old(shm).round_adopted()
                &&& !final(shm).game_structure_game.is_animating
                &&& final(shm).game_structure_game.win_time == 0
                &&& final(self).pending == (PendingCommands { reset: false, ..old(self).pending })
                &&& final(self).frame_counter == 0
                &&& final(self).round_start == Some(now)
                &&& final(self).door_win_entities.is_clear()
                &&& final(self).random_gen.seed == old(shm).game_structure_control.seed
            },
            !r ==> *final(shm) == *old(shm) && *final(self) == *old(self),
            old(shm).wf() ==> final(shm).wf(),
    {
        if !self.pending.reset {
            return false;
        }
        self.pending.reset = false;
        self.frame_counter = 0;
        self.door_win_entities = DoorWinEntities::new();
        self.round_start = Some(now);
        shm.game_structure_game.reset_all_fields(&shm.game_structure_control);
        shm.game_structure_game.is_animating = false;
        shm.game_structure_game.win_time = 0;
        self.random_gen = RandomGen::from_seed(shm.game_structure_game.seed);
        true
    }

    /// Starts the door animation if one is pending.
    ///
    /// `found_light` and `found_emissive` are the light and glow of the
    /// target door, where they exist. The pending request is consumed; it is
    /// ignored while an animation runs or when neither entity exists.
    /// Otherwise the animation starts at `now` and the runner's structure
    /// reports it. Returns whether it started.
    pub fn handle_animation_door_command(
        &mut self,
        game: &mut SharedGameStructure,
        found_light: Option<u64>,
        found_emissive: Option<u64>,
        now: u64,
    ) -> (r: bool)
        ensures
            r == (old(self).pending.animation && !old(game).is_animating && (found_light.is_some()
                || found_emissive.is_some())),
            final(self).pending == (PendingCommands { animation: false, ..old(self).pending }),
            final(self).frame_counter == old(self).frame_counter,
            final(self).round_start == old(self).round_start,
            final(self).random_gen == old(self).random_gen,
            r ==> {
                &&& final(self).door_win_entities == old(self).door_win_entities.started(
                    found_light,
                    found_emissive,
                    now,
                )
                &&& *final(game) == old(game).with_animating(true)
            },
            !r ==> final(self).door_win_entities == old(self).door_win_entities && *final(game)
                == *old(game),
    {
        if !self.pending.animation {
            return false;
        }
        self.pending.animation = false;
        if game.is_animating {
            return false;
        }
        if found_light.is_none() && found_emissive.is_none() {
            return false;
        }
        self.door_win_entities.animating_light = found_light;
        self.door_win_entities.animating_emissive = found_emissive;
        self.door_win_entities.animation_start_time = Some(now);
        game.is_animating = true;
        true
    }

    /// Checks the animation state before a tick of the door animation.
    ///
    /// `light_alive` tells whether the light entity recorded in the state
    /// still exists. When the runner's structure reports an animation but the
    /// state lacks its start time or its light, or the light is gone, the
    /// stale state is cleared and the structure reports no animation.
    pub fn check_door_animation(&mut self, game: &mut SharedGameStructure, light_alive: bool) -> (r:
        AnimationStatus)
        ensures
            final(self).pending == old(self).pending,
            final(self).frame_counter == old(self).frame_counter,
            final(self).round_start == old(self).round_start,
            final(self).random_gen == old(self).random_gen,
            ({
                let (status, entities, animating) = old(self).door_win_entities.checked(
                    old(game).is_animating,
                    light_alive,
                );
                &&& r == status
                &&& final(self).door_win_entities == entities
                &&& *final(game) == old(game).with_animating(animating)
            }),
    {
        if !game.is_animating {
            return AnimationStatus::Idle;
        }
        let start_time = match self.door_win_entities.animation_start_time {
            Some(t) => t,
            None => {
                game.is_animating = false;
                return AnimationStatus::Cleared;
            },
        };
        let light = match self.door_win_entities.animating_light {
            Some(l) => l,
            None => {
                self.door_win_entities.animation_start_time = None;
                game.is_animating = false;
                return AnimationStatus::Cleared;
            },
        };
        if !light_alive {
            self.door_win_entities.animating_light = None;
            self.door_win_entities.animating_emissive = None;
            self.door_win_entities.animation_start_time = None;
            game.is_animating = false;
            return AnimationStatus::Cleared;
        }
        AnimationStatus::Running { start_time, light }
    }
}

} // verus!
