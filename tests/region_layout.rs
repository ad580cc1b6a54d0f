use monkey_shared::layout::SharedMemory;
use monkey_shared::offsets::{game_structure_fields, game_structure_offsets, game_structure_size, GameField};
use monkey_shared::region::{AttachError, RegionCell};

#[test]
fn attach_before_creation_fails() {
    let cell = RegionCell::new();
    assert_eq!(cell.open_shared_memory().err(), Some(AttachError::NotInitialized));
}

#[test]
fn creation_is_idempotent() {
    let mut cell = RegionCell::new();
    assert_eq!(*cell.create_shared_memory(), SharedMemory::new());
    cell.get_mut().unwrap().commands_seq = 9;
    let again = *cell.create_shared_memory();
    assert_eq!(again.commands_seq, 9);
    assert_eq!(cell.open_shared_memory().unwrap().commands_seq, 9);
}

#[test]
fn get_mut_before_creation_is_none() {
    let mut cell = RegionCell::new();
    assert!(cell.get_mut().is_none());
}

#[test]
fn offsets_follow_c_layout() {
    let offsets = game_structure_offsets();
    assert_eq!(offsets.len(), 26);
    let at = |f: GameField| offsets.iter().find(|(g, _)| *g == f).unwrap().1;
    assert_eq!(at(GameField::Seed), 0);
    assert_eq!(at(GameField::BaseRadius), 8);
    assert_eq!(at(GameField::TargetDoor), 20);
    assert_eq!(at(GameField::Colors), 24);
    assert_eq!(at(GameField::DecorationsCount), 72);
    assert_eq!(at(GameField::DecorationsSize), 84);
    assert_eq!(at(GameField::CosineAlignmentThreshold), 96);
    assert_eq!(at(GameField::MaxSpotlightIntensity), 120);
    // a u64 after an odd number of u32 words is padded to 8
    assert_eq!(at(GameField::FrameNumber), 128);
    assert_eq!(at(GameField::ElapsedSecs), 136);
    assert_eq!(at(GameField::CurrentAngle), 164);
    assert_eq!(at(GameField::IsAnimating), 168);
    // a u32 after a bool is padded to 4
    assert_eq!(at(GameField::WinTime), 172);
    assert_eq!(game_structure_size(), 176);
}

#[test]
fn offsets_are_in_field_order() {
    let fields = game_structure_fields();
    let offsets = game_structure_offsets();
    for (i, (f, off)) in offsets.iter().enumerate() {
        assert_eq!(*f, fields[i]);
        assert_eq!(off % f.align(), 0);
        if i > 0 {
            let (g, prev) = offsets[i - 1];
            assert!(*off >= prev + g.width());
        }
    }
    assert_eq!(fields[0].name(), "seed");
    assert_eq!(GameField::CurrentAlignment.name(), "current_alignment");
    assert_eq!(GameField::IsAnimating.width(), 1);
    assert_eq!(GameField::Colors.width(), 48);
}
