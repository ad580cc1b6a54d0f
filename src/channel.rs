//! The command channel: continuous flags and pulses.
//!
//! The runner reads the command block once per tick. A continuous flag is
//! sampled and left as it is, so every tick that finds it set applies its
//! effect again. A pulse is read and cleared in one step, so exactly one tick
//! observes it, however many ticks pass between the controller setting it and
//! the runner reading it.
use vstd::prelude::*;
use crate::layout::{SharedCommands, SharedMemory};

verus! {

/// What the runner has taken from the command block and not yet acted on.
///
/// `rotation_steps` and `zoom_steps` count steps of the fixed rotation and
/// zoom speeds (negative: left, or in); they stop at the ends of `i64`. `rendering_paused` and `reset`
/// persist across ticks; the other fields hold for the current tick only.
#[derive(Clone, Copy, Debug, PartialEq, Eq)]
pub struct PendingCommands {
    pub rotation_steps: i64,
    pub zoom_steps: i64,
    pub check_alignment: bool,
    pub blank_screen: bool,
    pub rendering_paused: bool,
    pub animation: bool,
    pub reset: bool,
}

/// `v` held to the range of `i64`.
pub open spec fn saturate(v: int) -> i64 {
    if v > i64::MAX {
        i64::MAX
    } else if v < i64::MIN {
        i64::MIN
    } else {
        v as i64
    }
}

/// Adds one step in direction `d` to `x`, staying within `i64`.
fn add_step(x: i64, d: i64) -> (r: i64)
    requires
        -1 <= d <= 1,
    ensures
        r == saturate(x + d),
{
    if d > 0 && x == i64::MAX {
        x
    } else if d < 0 && x == i64::MIN {
        x
    } else {
        x + d
    }
}

/// Reads a pulse and clears it.
fn take(flag: &mut bool) -> (r: bool)
    ensures
        r == *old(flag),
        *final(flag) == false,
{
    let r = *flag;
    *flag = false;
    r
}

impl SharedCommands {
    /// No pulse is set.
    pub open spec fn pulses_clear(self) -> bool {
        &&& !self.check_alignment
        &&& !self.reset
        &&& !self.blank_screen
        &&& !self.stop_rendering
        &&& !self.resume_rendering
        &&& !self.animation_door
    }

    /// The block after the runner has read it: pulses cleared, continuous flags kept.
    pub open spec fn after_read(self) -> SharedCommands {
        SharedCommands {
            check_alignment: false,
            reset: false,
            blank_screen: false,
            stop_rendering: false,
            resume_rendering: false,
            animation_door: false,
            ..self
        }
    }

    /// Rotation steps that one tick applies: right counts one up, left one down.
    pub open spec fn rotation_step(self) -> int {
        (if self.rotate_right { 1int } else { 0int }) - (if self.rotate_left { 1int } else { 0int })
    }

    /// Zoom steps that one tick applies: out counts one up, in one down.
    pub open spec fn zoom_step(self) -> int {
        (if self.zoom_out { 1int } else { 0int }) - (if self.zoom_in { 1int } else { 0int })
    }

    /// Reads the block into `pending` as one tick of the runner does.
    ///
    /// Continuous flags add their step to the pending rotation and zoom.
    /// Each pulse that is set is cleared and recorded: check alignment,
    /// blank screen and door animation set their pending flag, stop and then
    /// resume rendering set and clear the pause, reset sets the pending reset.
    pub fn read_into(&mut self, pending: &mut PendingCommands)
        ensures
            *final(self) == old(self).after_read(),
            *final(pending) == old(pending).after_read(*old(self)),
    {
        let rotate: i64 = (if self.rotate_right { 1 } else { 0 }) - (if self.rotate_left { 1 } else { 0 });
        let zoom: i64 = (if self.zoom_out { 1 } else { 0 }) - (if self.zoom_in { 1 } else { 0 });
        pending.rotation_steps = add_step(pending.rotation_steps, rotate);
        pending.zoom_steps = add_step(pending.zoom_steps, zoom);

        let check = take(&mut self.check_alignment);
        let blank = take(&mut self.blank_screen);
        let stop = take(&mut self.stop_rendering);
        let resume = take(&mut self.resume_rendering);
        let animation = take(&mut self.animation_door);
        let reset = take(&mut self.reset);

        pending.check_alignment = pending.check_alignment || check;
        pending.blank_screen = pending.blank_screen || blank;
        pending.rendering_paused = if resume {
            false
        } else {
            pending.rendering_paused || stop
        };
        pending.animation = pending.animation || animation;
        pending.reset = pending.reset || reset;
    }
}

impl PendingCommands {
    /// Nothing pending, rendering running.
    pub fn new() -> (r: Self)
        ensures
            r == PendingCommands::cleared_spec(r),
            r.rotation_steps == 0,
            !r.rendering_paused,
            !r.reset,
    {
        PendingCommands {
            rotation_steps: 0,
            zoom_steps: 0,
            check_alignment: false,
            blank_screen: false,
            rendering_paused: false,
            animation: false,
            reset: false,
        }
    }

    /// The pending state at the start of a tick: per-tick fields reset,
    /// the pause and the pending reset kept.
    pub open spec fn cleared_spec(self) -> PendingCommands {
        PendingCommands {
            rotation_steps: 0,
            zoom_steps: 0,
            check_alignment: false,
            blank_screen: false,
            animation: false,
            ..self
        }
    }

    /// The pending state after reading the block `c`.
    pub open spec fn after_read(self, c: SharedCommands) -> PendingCommands {
        PendingCommands {
            rotation_steps: saturate(self.rotation_steps + c.rotation_step()),
            zoom_steps: saturate(self.zoom_steps + c.zoom_step()),
            check_alignment: self.check_alignment || c.check_alignment,
            blank_screen: self.blank_screen || c.blank_screen,
            rendering_paused: if c.resume_rendering {
                false
            } else if c.stop_rendering {
                true
            } else {
                self.rendering_paused
            },
            animation: self.animation || c.animation_door,
            reset: self.reset || c.reset,
        }
    }

    /// Resets the per-tick fields at the start of a tick.
    pub fn clear_pending_actions(&mut self)
        ensures
            *final(self) == old(self).cleared_spec(),
    {
        self.rotation_steps = 0;
        self.zoom_steps = 0;
        self.check_alignment = false;
        self.blank_screen = false;
        self.animation = false;
    }
}
impl SharedMemory {
    /// The region after the controller has stored `cmds` as the command block.
    pub open spec fn commands_written(self, cmds: SharedCommands) -> SharedMemory {
        SharedMemory { commands: cmds, commands_seq: (self.commands_seq + 1) as u64, ..self }
    }

    /// Stores every flag of `cmds` and bumps the command sequence counter.
    pub fn write_commands(&mut self, cmds: SharedCommands)
        requires
            old(self).commands_seq < u64::MAX,
        ensures
            *final(self) == old(self).commands_written(cmds),
            old(self).wf() ==> final(self).wf(),
    {
        self.commands = cmds;
        self.commands_seq = self.commands_seq + 1;
    }

    /// The command sequence counter.
    pub fn read_commands_seq(&self) -> (r: u64)
        ensures
            r == self.commands_seq,
    {
        self.commands_seq
    }
}

/// Sum of the rotation steps that `n` consecutive ticks observe, starting
/// from the block `c` with no write by the controller in between.
pub open spec fn rotation_over_ticks(c: SharedCommands, n: nat) -> int
    decreases n,
{
    if n == 0 {
        0
    } else {
        c.rotation_step() + rotation_over_ticks(c.after_read(), (n - 1) as nat)
    }
}

/// Sum of the zoom steps that `n` consecutive ticks observe.
pub open spec fn zoom_over_ticks(c: SharedCommands, n: nat) -> int
    decreases n,
{
    if n == 0 {
        0
    } else {
        c.zoom_step() + zoom_over_ticks(c.after_read(), (n - 1) as nat)
    }
}

/// A pulse is delivered at most once.
///
/// After one read the block holds no pulse, a second read with no write in
/// between changes nothing, and a tick that starts from a cleared pending
/// state and reads it observes no pulse: the pause and the pending reset
/// stay as they were.
pub proof fn lemma_pulse_delivered_at_most_once(c: SharedCommands, p: PendingCommands)
    ensures
        c.after_read().pulses_clear(),
        c.after_read().after_read() == c.after_read(),
        ({
            let q = p.cleared_spec().after_read(c.after_read());
            &&& !q.check_alignment
            &&& !q.blank_screen
            &&& !q.animation
            &&& q.rendering_paused == p.rendering_paused
            &&& q.reset == p.reset
        }),
{
}

/// A continuous flag persists.
///
/// Reading the block leaves every continuous flag as it was, each tick that
/// starts from a cleared pending state applies the block's step once, and
/// `n` consecutive ticks apply it `n` times.
pub proof fn lemma_continuous_flags_persist(c: SharedCommands, p: PendingCommands, n: nat)
    ensures
        c.after_read().rotate_left == c.rotate_left,
        c.after_read().rotate_right == c.rotate_right,
        c.after_read().zoom_in == c.zoom_in,
        c.after_read().zoom_out == c.zoom_out,
        p.cleared_spec().after_read(c).rotation_steps == c.rotation_step(),
        p.cleared_spec().after_read(c).zoom_steps == c.zoom_step(),
        rotation_over_ticks(c, n) == n * c.rotation_step(),
        zoom_over_ticks(c, n) == n * c.zoom_step(),
    decreases n,
{
    if n > 0 {
        lemma_continuous_flags_persist(c.after_read(), p, (n - 1) as nat);
        assert(c.after_read().rotation_step() == c.rotation_step());
        assert(c.after_read().zoom_step() == c.zoom_step());
        assert(n * c.rotation_step() == c.rotation_step() + (n - 1) * c.rotation_step())
            by (nonlinear_arith);
        assert(n * c.zoom_step() == c.zoom_step() + (n - 1) * c.zoom_step())
            by (nonlinear_arith);
    }
}

} // verus!
