//! Properties that relate several operations of the protocol.
use vstd::prelude::*;
use crate::channel::PendingCommands;
use crate::layout::{SharedCommands, SharedGameStructure, SharedMemory};
use crate::round::RoundConfig;
use crate::telemetry::{AlignmentTelemetry, CameraTelemetry, Telemetry};

verus! {

/// The region after the runner has read the command block.
pub open spec fn commands_read(m: SharedMemory) -> SharedMemory {
    SharedMemory { commands: m.commands.after_read(), ..m }
}

/// A published round is adopted whole.
///
/// In a region whose invariant holds, after the controller publishes `c`,
/// the runner's next read of the command block consumes the reset pulse and
/// records a pending reset; adopting the round then leaves the runner's
/// structure equal to the controller's, field for field, holding `c`, with
/// no animation and no win reported, and the reset flag reads false.
pub proof fn lemma_full_copy_fidelity(
    m: SharedMemory,
    published: SharedMemory,
    c: RoundConfig,
    p: PendingCommands,
)
    requires
        m.wf(),
        published.is_published(m, c),
    ensures
        published.wf(),
        p.after_read(published.commands).reset,
        ({
            let adopted = commands_read(published).round_adopted();
            &&& adopted.game_structure_game == adopted.game_structure_control
            &&& !adopted.game_structure_game.is_animating
            &&& adopted.game_structure_game.win_time == 0
            &&& adopted.game_structure_control.holds_config(m.game_structure_control, c)
            &&& !adopted.commands.reset
        }),
{
}

/// Sequence counters only move forward.
///
/// Writing commands, publishing a round and emitting telemetry each raise
/// their own counter by exactly one and leave the others alone; reading the
/// command block and adopting a round change no counter.
pub proof fn lemma_sequence_monotonic(
    m: SharedMemory,
    cmds: SharedCommands,
    published: SharedMemory,
    c: RoundConfig,
    t: Telemetry,
)
    requires
        m.commands_seq < u64::MAX,
        m.game_structure_game_seq < u64::MAX,
        published.is_published(m, c),
    ensures
        m.commands_written(cmds).commands_seq == m.commands_seq + 1,
        m.commands_written(cmds).game_structure_game_seq == m.game_structure_game_seq,
        m.commands_written(cmds).game_structure_control_seq == m.game_structure_control_seq,
        published.game_structure_control_seq == m.game_structure_control_seq + 1,
        published.commands_seq == m.commands_seq,
        published.game_structure_game_seq == m.game_structure_game_seq,
        m.emitted(t).game_structure_game_seq == m.game_structure_game_seq + 1,
        m.emitted(t).commands_seq == m.commands_seq,
        m.emitted(t).game_structure_control_seq == m.game_structure_control_seq,
        commands_read(m).commands_seq == m.commands_seq,
        commands_read(m).game_structure_game_seq == m.game_structure_game_seq,
        commands_read(m).game_structure_control_seq == m.game_structure_control_seq,
        m.round_adopted().commands_seq == m.commands_seq,
        m.round_adopted().game_structure_game_seq == m.game_structure_game_seq,
        m.round_adopted().game_structure_control_seq == m.game_structure_control_seq,
{
}

/// The runner's structure after emitting each telemetry record of `ts` in turn.
pub open spec fn emit_all(gs: SharedGameStructure, ts: Seq<Telemetry>) -> SharedGameStructure
    decreases ts.len(),
{
    if ts.len() == 0 {
        gs
    } else {
        emit_all(gs, ts.drop_last()).with_telemetry(ts.last())
    }
}

/// The camera fields of a structure, as one record.
pub open spec fn camera_of(gs: SharedGameStructure) -> CameraTelemetry {
    CameraTelemetry { radius: gs.camera_radius, x: gs.camera_x, y: gs.camera_y, z: gs.camera_z }
}

/// The alignment fields of a structure, as one record.
pub open spec fn alignment_of(gs: SharedGameStructure) -> AlignmentTelemetry {
    AlignmentTelemetry { alignment: gs.current_alignment, angle: gs.current_angle }
}

/// No value is ever mixed from two writes.
///
/// However many records the runner emits, each field holds either its
/// initial value or a value that one record wrote to it; the camera fields
/// and the alignment fields each come whole from a single record. The
/// configuration fields are never touched.
pub proof fn lemma_no_mixed_values(gs: SharedGameStructure, ts: Seq<Telemetry>)
    ensures
        ({
            let r = emit_all(gs, ts);
            &&& r.frame_number == gs.frame_number || exists|i: int|
                0 <= i < ts.len() && r.frame_number == (#[trigger] ts[i]).frame_number
            &&& r.elapsed_secs == gs.elapsed_secs || exists|i: int|
                0 <= i < ts.len() && r.elapsed_secs == (#[trigger] ts[i]).elapsed_secs
            &&& camera_of(r) == camera_of(gs) || exists|i: int|
                0 <= i < ts.len() && (#[trigger] ts[i]).camera == Some(camera_of(r))
            &&& alignment_of(r) == alignment_of(gs) || exists|i: int|
                0 <= i < ts.len() && (#[trigger] ts[i]).alignment == Some(alignment_of(r))
            &&& r.seed == gs.seed
            &&& r.colors == gs.colors
            &&& r.target_door == gs.target_door
            &&& r.is_animating == gs.is_animating
        }),
    decreases ts.len(),
{
    if ts.len() > 0 {
        let prefix = ts.drop_last();
        lemma_no_mixed_values(gs, prefix);
        let last = ts.len() - 1;
        assert(ts[last] == ts.last());
        assert forall|i: int| 0 <= i < prefix.len() implies prefix[i] == ts[i] by {}
    }
}

} // verus!
