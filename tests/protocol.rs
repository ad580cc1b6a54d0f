use monkey_shared::channel::PendingCommands;
use monkey_shared::layout::{SharedCommands, SharedGameStructure, SharedMemory};
use monkey_shared::round::{PublishError, RoundConfig};
use monkey_shared::runner::RunnerState;
use monkey_shared::telemetry::{AlignmentTelemetry, CameraTelemetry, Telemetry};

fn config(seed: u64, target_door: u32, base_radius: f32) -> RoundConfig {
    RoundConfig {
        seed,
        base_radius: base_radius.to_bits(),
        height: 5.0f32.to_bits(),
        start_orient: 0.25f32.to_bits(),
        target_door,
        colors: vec![
            vec![0.1f32.to_bits(), 0.2f32.to_bits(), 0.3f32.to_bits(), 1.0f32.to_bits()],
            vec![0.4f32.to_bits(), 0.5f32.to_bits(), 0.6f32.to_bits(), 1.0f32.to_bits()],
            vec![0.7f32.to_bits(), 0.8f32.to_bits(), 0.9f32.to_bits(), 0.5f32.to_bits()],
        ],
        decorations_count: [7, 8, 9],
        decorations_size: [0.15f32.to_bits(), 0.25f32.to_bits(), 0.35f32.to_bits()],
        cosine_alignment_threshold: 0.9f32.to_bits(),
        door_anim_fade_out: 1.0f32.to_bits(),
        door_anim_stay_open: 2.0f32.to_bits(),
        door_anim_fade_in: 3.0f32.to_bits(),
        main_spotlight_intensity: 100.0f32.to_bits(),
        ambient_brightness: 50.0f32.to_bits(),
        max_spotlight_intensity: 1000.0f32.to_bits(),
    }
}

fn one_command(f: impl Fn(&mut SharedCommands)) -> SharedCommands {
    let mut c = SharedCommands::new();
    f(&mut c);
    c
}

/// One runner tick: clear the per-tick state, then read the block.
fn tick(m: &mut SharedMemory, pending: &mut PendingCommands) {
    pending.clear_pending_actions();
    m.commands.read_into(pending);
}

#[test]
fn fresh_region_has_defaults() {
    let m = SharedMemory::new();
    assert_eq!(m.commands, SharedCommands::new());
    assert_eq!(m.commands_seq, 0);
    assert_eq!(m.game_structure_game_seq, 0);
    assert_eq!(m.game_structure_control_seq, 0);
    assert_eq!(m.game_structure_game, m.game_structure_control);
    let gs = SharedGameStructure::new();
    assert_eq!(gs.seed, 69);
    assert_eq!(f32::from_bits(gs.base_radius), 2.5);
    assert_eq!(f32::from_bits(gs.height), 4.0);
    assert_eq!(f32::from_bits(gs.start_orient), 0.0);
    assert_eq!(gs.target_door, 0);
    let colors: Vec<f32> = gs.colors.iter().map(|b| f32::from_bits(*b)).collect();
    assert_eq!(
        colors,
        vec![1.0, 0.0, 0.0, 1.0, 0.0, 1.0, 0.0, 1.0, 0.0, 0.0, 1.0, 1.0]
    );
    assert_eq!(gs.decorations_count, [50, 20, 10]);
    assert_eq!(f32::from_bits(gs.decorations_size[0]), 0.1);
    assert_eq!(f32::from_bits(gs.decorations_size[1]), 0.2);
    assert_eq!(f32::from_bits(gs.decorations_size[2]), 0.3);
    assert_eq!(f32::from_bits(gs.cosine_alignment_threshold), 0.95);
    assert_eq!(f32::from_bits(gs.door_anim_fade_out), 0.5);
    assert_eq!(f32::from_bits(gs.door_anim_stay_open), 0.5);
    assert_eq!(f32::from_bits(gs.door_anim_fade_in), 0.5);
    assert_eq!(f32::from_bits(gs.main_spotlight_intensity), 5_000_000.0);
    assert_eq!(f32::from_bits(gs.ambient_brightness), 200.0);
    assert_eq!(f32::from_bits(gs.max_spotlight_intensity), 1_000_000.0);
    assert_eq!(f32::from_bits(gs.camera_radius), 15.0);
    assert_eq!(f32::from_bits(gs.camera_x), 0.0);
    assert_eq!(f32::from_bits(gs.camera_y), 1.0);
    assert_eq!(f32::from_bits(gs.camera_z), 15.0);
    assert_eq!(gs.frame_number, 0);
    assert_eq!(gs.attempts, 0);
    assert!(!gs.is_animating);
    assert_eq!(SharedMemory::default(), m);
    assert_eq!(SharedGameStructure::default(), gs);
    assert_eq!(SharedCommands::default(), SharedCommands::new());
}

#[test]
fn reset_all_fields_copies_every_field() {
    let mut src = SharedGameStructure::new();
    src.seed = 1234;
    src.colors[11] = 77;
    src.decorations_size[2] = 99;
    src.frame_number = 5;
    src.is_animating = true;
    src.win_time = 3;
    let mut dst = SharedGameStructure::new();
    dst.reset_all_fields(&src);
    assert_eq!(dst, src);
}

#[test]
fn pulse_is_delivered_at_most_once() {
    let mut m = SharedMemory::new();
    let mut pending = PendingCommands::new();
    m.write_commands(one_command(|c| c.check_alignment = true));
    tick(&mut m, &mut pending);
    assert!(pending.check_alignment);
    assert!(!m.commands.check_alignment);
    tick(&mut m, &mut pending);
    assert!(!pending.check_alignment);
    // a second read within the same tick observes nothing either
    m.commands.read_into(&mut pending);
    assert!(!pending.check_alignment);
}

#[test]
fn pulse_survives_idle_ticks_until_read() {
    let mut m = SharedMemory::new();
    m.write_commands(one_command(|c| c.blank_screen = true));
    // the controller sets the pulse; the runner only reads it later, once
    let mut pending = PendingCommands::new();
    tick(&mut m, &mut pending);
    assert!(pending.blank_screen);
    tick(&mut m, &mut pending);
    assert!(!pending.blank_screen);
}

#[test]
fn continuous_flag_applies_every_tick() {
    let mut m = SharedMemory::new();
    let mut pending = PendingCommands::new();
    m.write_commands(one_command(|c| {
        c.rotate_right = true;
        c.zoom_in = true;
    }));
    let mut total_rotation: i64 = 0;
    let mut total_zoom: i64 = 0;
    for _ in 0..7 {
        tick(&mut m, &mut pending);
        assert_eq!(pending.rotation_steps, 1);
        assert_eq!(pending.zoom_steps, -1);
        total_rotation += pending.rotation_steps;
        total_zoom += pending.zoom_steps;
    }
    assert_eq!(total_rotation, 7);
    assert_eq!(total_zoom, -7);
    assert!(m.commands.rotate_right);
    assert!(m.commands.zoom_in);
}

#[test]
fn opposite_continuous_flags_cancel() {
    let mut m = SharedMemory::new();
    let mut pending = PendingCommands::new();
    m.write_commands(one_command(|c| {
        c.rotate_left = true;
        c.rotate_right = true;
        c.zoom_out = true;
    }));
    tick(&mut m, &mut pending);
    assert_eq!(pending.rotation_steps, 0);
    assert_eq!(pending.zoom_steps, 1);
}

#[test]
fn stop_and_resume_rendering() {
    let mut m = SharedMemory::new();
    let mut pending = PendingCommands::new();
    m.write_commands(one_command(|c| c.stop_rendering = true));
    tick(&mut m, &mut pending);
    assert!(pending.rendering_paused);
    tick(&mut m, &mut pending);
    assert!(pending.rendering_paused);
    m.write_commands(one_command(|c| c.resume_rendering = true));
    tick(&mut m, &mut pending);
    assert!(!pending.rendering_paused);
    m.write_commands(one_command(|c| {
        c.stop_rendering = true;
        c.resume_rendering = true;
    }));
    tick(&mut m, &mut pending);
    assert!(!pending.rendering_paused);
}

#[test]
fn publish_before_any_command_is_refused() {
    let mut m = SharedMemory::new();
    let before = m;
    let r = m.write_game_structure(&config(42, 2, 3.0));
    assert_eq!(r, Err(PublishError::NotReady));
    assert_eq!(m, before);
    assert_eq!(m.read_game_structure_control_seq(), 0);
}

#[test]
fn malformed_colors_are_refused() {
    let mut m = SharedMemory::new();
    m.write_commands(SharedCommands::new());
    let before = m;
    let mut cfg = config(1, 0, 1.0);
    cfg.colors.pop();
    assert_eq!(
        m.write_game_structure(&cfg),
        Err(PublishError::ColorShape { face_lengths: vec![4, 4] })
    );
    let mut cfg = config(1, 0, 1.0);
    cfg.colors[1].pop();
    assert_eq!(
        m.write_game_structure(&cfg),
        Err(PublishError::ColorShape { face_lengths: vec![4, 3, 4] })
    );
    let mut cfg = config(1, 0, 1.0);
    cfg.colors.push(vec![0, 0, 0, 0]);
    assert_eq!(
        m.write_game_structure(&cfg),
        Err(PublishError::ColorShape { face_lengths: vec![4, 4, 4, 4] })
    );
    assert_eq!(m, before);
}

#[test]
fn malformed_colors_are_refused_before_the_gate() {
    let mut m = SharedMemory::new();
    let mut cfg = config(1, 0, 1.0);
    cfg.colors[0].push(0);
    assert_eq!(
        m.write_game_structure(&cfg),
        Err(PublishError::ColorShape { face_lengths: vec![5, 4, 4] })
    );
}

#[test]
fn published_round_is_copied_whole() {
    let mut m = SharedMemory::new();
    let mut runner = RunnerState::new();
    m.write_commands(SharedCommands::new());
    let cfg = config(42, 2, 3.0);
    assert_eq!(m.write_game_structure(&cfg), Ok(()));
    assert!(m.commands.reset);
    let gs = m.game_structure_control;
    assert_eq!(gs.seed, 42);
    assert_eq!(gs.target_door, 2);
    assert_eq!(f32::from_bits(gs.base_radius), 3.0);
    assert_eq!(f32::from_bits(gs.colors[6]), 0.6);
    assert_eq!(f32::from_bits(gs.colors[11]), 0.5);
    assert_eq!(gs.decorations_count, [7, 8, 9]);

    tick(&mut m, &mut runner.pending);
    assert!(runner.pending.reset);
    assert!(!m.commands.reset);
    runner.frame_counter = 30;
    assert!(runner.handle_reset_command(&mut m, 1_000));
    assert_eq!(m.game_structure_game, m.game_structure_control);
    assert!(!m.commands.reset);
    assert!(!runner.pending.reset);
    assert_eq!(runner.frame_counter, 0);
    assert_eq!(runner.round_start, Some(1_000));
    assert_eq!(runner.random_gen.seed, 42);
    // no pending reset: nothing more happens
    assert!(!runner.handle_reset_command(&mut m, 2_000));
    assert_eq!(runner.round_start, Some(1_000));
}

#[test]
fn sequence_counters_only_grow() {
    let mut m = SharedMemory::new();
    let mut pending = PendingCommands::new();
    m.write_commands(SharedCommands::new());
    assert_eq!(m.read_commands_seq(), 1);
    m.write_commands(one_command(|c| c.zoom_out = true));
    assert_eq!(m.read_commands_seq(), 2);
    m.write_game_structure(&config(3, 1, 2.0)).unwrap();
    assert_eq!(m.read_game_structure_control_seq(), 1);
    assert_eq!(m.read_commands_seq(), 2);
    let t = Telemetry { frame_number: 1, elapsed_secs: 0, camera: None, alignment: None };
    m.emit_state_to_shm(&t);
    m.emit_state_to_shm(&t);
    assert_eq!(m.read_game_structure_game_seq(), 2);
    tick(&mut m, &mut pending);
    assert_eq!(m.read_commands_seq(), 2);
    assert_eq!(m.read_game_structure_control_seq(), 1);
    assert_eq!(m.read_game_structure_game_seq(), 2);
}

#[test]
fn telemetry_values_come_from_whole_writes() {
    let mut m = SharedMemory::new();
    let initial = m.read_game_structure();
    let mut written_x = vec![initial.camera_x];
    let mut written_alignment = vec![(initial.current_alignment, initial.current_angle)];
    for i in 0..500u32 {
        let camera = if i % 3 == 0 {
            None
        } else {
            Some(CameraTelemetry { radius: i, x: i.wrapping_mul(2654435761), y: !i, z: i << 7 })
        };
        let alignment = if i % 5 == 0 {
            None
        } else {
            Some(AlignmentTelemetry { alignment: i ^ 0xdead_beef, angle: i })
        };
        if let Some(c) = camera {
            written_x.push(c.x);
        }
        if let Some(a) = alignment {
            written_alignment.push((a.alignment, a.angle));
        }
        m.emit_state_to_shm(&Telemetry { frame_number: i as u64, elapsed_secs: i, camera, alignment });
        let snap = m.read_game_structure();
        assert!(written_x.contains(&snap.camera_x));
        assert!(written_alignment.contains(&(snap.current_alignment, snap.current_angle)));
        assert_eq!(snap.frame_number, i as u64);
        assert_eq!(snap.seed, initial.seed);
    }
}

#[test]
fn emit_state_writes_measured_fields_only() {
    let mut m = SharedMemory::new();
    let before = m.read_game_structure();
    let t = Telemetry {
        frame_number: 12,
        elapsed_secs: 1.5f32.to_bits(),
        camera: Some(CameraTelemetry {
            radius: 14.0f32.to_bits(),
            x: 1.0f32.to_bits(),
            y: 2.0f32.to_bits(),
            z: 3.0f32.to_bits(),
        }),
        alignment: None,
    };
    m.emit_state_to_shm(&t);
    let snap = m.read_game_structure();
    assert_eq!(snap.frame_number, 12);
    assert_eq!(f32::from_bits(snap.elapsed_secs), 1.5);
    assert_eq!(f32::from_bits(snap.camera_radius), 14.0);
    assert_eq!(f32::from_bits(snap.camera_z), 3.0);
    assert_eq!(snap.current_alignment, before.current_alignment);
    assert_eq!(m.game_structure_control, SharedGameStructure::new());
}

#[test]
fn record_attempt_counts_checks() {
    let mut gs = SharedGameStructure::new();
    gs.record_attempt();
    gs.record_attempt();
    assert_eq!(gs.attempts, 2);
}

#[test]
fn step_counts_stop_at_the_ends_of_i64() {
    let mut m = SharedMemory::new();
    let mut pending = PendingCommands::new();
    pending.rotation_steps = i64::MAX;
    pending.zoom_steps = i64::MIN;
    m.write_commands(one_command(|c| {
        c.rotate_right = true;
        c.zoom_in = true;
    }));
    m.commands.read_into(&mut pending);
    assert_eq!(pending.rotation_steps, i64::MAX);
    assert_eq!(pending.zoom_steps, i64::MIN);
    m.write_commands(one_command(|c| c.rotate_left = true));
    m.commands.read_into(&mut pending);
    assert_eq!(pending.rotation_steps, i64::MAX - 1);
}

#[test]
fn adopted_round_reports_no_animation_and_no_win() {
    let mut m = SharedMemory::new();
    let mut runner = RunnerState::new();
    m.game_structure_control.is_animating = true;
    m.game_structure_control.win_time = 2.5f32.to_bits();
    m.game_structure_control.seed = 11;
    m.game_structure_game.win_time = 9;
    runner.pending.reset = true;
    assert!(runner.handle_reset_command(&mut m, 0));
    assert!(!m.game_structure_game.is_animating);
    assert_eq!(m.game_structure_game.win_time, 0);
    assert_eq!(m.game_structure_game.seed, 11);
}

#[test]
fn publish_at_counter_limit_is_still_refused_before_commands() {
    let mut m = SharedMemory::new();
    m.game_structure_control_seq = u64::MAX;
    assert_eq!(m.write_game_structure(&config(1, 0, 1.0)), Err(PublishError::NotReady));
    assert_eq!(m.game_structure_control_seq, u64::MAX);
}
