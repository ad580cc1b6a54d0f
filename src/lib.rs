//! The logic of a shared-memory link between a rendering process (the
//! runner) and a decision process (the controller).
//!
//! The region holds a one-way command block, two game structures of the same
//! shape (one per writer) and one sequence counter per channel. Every slot is
//! a plain integer word, which a mapping can hold as an independent atomic:
//! floating-point quantities travel as their raw bit pattern, so nothing here
//! rounds, clamps or canonicalises a value.
//!
//! - `layout`: the region's fields and their defaults.
//! - `channel`: continuous commands and read-and-clear pulses.
//! - `round`: publishing a round's configuration behind the readiness gate.
//! - `runner`: adopting a round, the door animation state, the frame counter.
//! - `telemetry`: the runner's measurements and the controller's snapshot.
//! - `region`: a region created once per process and attached to later.
//! - `offsets`: byte offsets of a game structure's fields.
//! - `laws`: properties that relate several of these operations.
use vstd::prelude::*;

pub mod constants;
pub mod layout;
pub mod channel;
pub mod round;
pub mod runner;
pub mod telemetry;
pub mod laws;
pub mod region;
pub mod offsets;

verus! {

} // verus!
