//! Byte offsets of the fields of a game structure in the shared region.
//!
//! A host that views the region through its own typed window queries these
//! offsets at startup instead of hard-coding them. Fields follow each other
//! in declaration order, each at the next multiple of its alignment, as a
//! C-layout structure places them.
use vstd::prelude::*;

verus! {

/// A field of a game structure, in layout order.
#[derive(Clone, Copy, Debug, PartialEq, Eq)]
pub enum GameField {
    Seed,
    BaseRadius,
    Height,
    StartOrient,
    TargetDoor,
    Colors,
    DecorationsCount,
    DecorationsSize,
    CosineAlignmentThreshold,
    DoorAnimFadeOut,
    DoorAnimStayOpen,
    DoorAnimFadeIn,
    MainSpotlightIntensity,
    AmbientBrightness,
    MaxSpotlightIntensity,
    FrameNumber,
    ElapsedSecs,
    CameraRadius,
    CameraX,
    CameraY,
    CameraZ,
    Attempts,
    CurrentAlignment,
    CurrentAngle,
    IsAnimating,
    WinTime,
}

/// The fields of a game structure, in layout order.
pub open spec fn game_fields() -> Seq<GameField> {
    seq![
        GameField::Seed,
        GameField::BaseRadius,
        GameField::Height,
        GameField::StartOrient,
        GameField::TargetDoor,
        GameField::Colors,
        GameField::DecorationsCount,
        GameField::DecorationsSize,
        GameField::CosineAlignmentThreshold,
        GameField::DoorAnimFadeOut,
        GameField::DoorAnimStayOpen,
        GameField::DoorAnimFadeIn,
        GameField::MainSpotlightIntensity,
        GameField::AmbientBrightness,
        GameField::MaxSpotlightIntensity,
        GameField::FrameNumber,
        GameField::ElapsedSecs,
        GameField::CameraRadius,
        GameField::CameraX,
        GameField::CameraY,
        GameField::CameraZ,
        GameField::Attempts,
        GameField::CurrentAlignment,
        GameField::CurrentAngle,
        GameField::IsAnimating,
        GameField::WinTime,
    ]
}

impl GameField {
    /// Size of the field in bytes.
    pub open spec fn width_spec(self) -> nat {
        match self {
            GameField::Seed => 8,
            GameField::BaseRadius => 4,
            GameField::Height => 4,
            GameField::StartOrient => 4,
            GameField::TargetDoor => 4,
            GameField::Colors => 48,
            GameField::DecorationsCount => 12,
            GameField::DecorationsSize => 12,
            GameField::CosineAlignmentThreshold => 4,
            GameField::DoorAnimFadeOut => 4,
            GameField::DoorAnimStayOpen => 4,
            GameField::DoorAnimFadeIn => 4,
            GameField::MainSpotlightIntensity => 4,
            GameField::AmbientBrightness => 4,
            GameField::MaxSpotlightIntensity => 4,
            GameField::FrameNumber => 8,
            GameField::ElapsedSecs => 4,
            GameField::CameraRadius => 4,
            GameField::CameraX => 4,
            GameField::CameraY => 4,
            GameField::CameraZ => 4,
            GameField::Attempts => 4,
            GameField::CurrentAlignment => 4,
            GameField::CurrentAngle => 4,
            GameField::IsAnimating => 1,
            GameField::WinTime => 4,
        }
    }

    /// Alignment of the field in bytes.
    pub open spec fn align_spec(self) -> nat {
        match self {
            GameField::Seed => 8,
            GameField::BaseRadius => 4,
            GameField::Height => 4,
            GameField::StartOrient => 4,
            GameField::TargetDoor => 4,
            GameField::Colors => 4,
            GameField::DecorationsCount => 4,
            GameField::DecorationsSize => 4,
            GameField::CosineAlignmentThreshold => 4,
            GameField::DoorAnimFadeOut => 4,
            GameField::DoorAnimStayOpen => 4,
            GameField::DoorAnimFadeIn => 4,
            GameField::MainSpotlightIntensity => 4,
            GameField::AmbientBrightness => 4,
            GameField::MaxSpotlightIntensity => 4,
            GameField::FrameNumber => 8,
            GameField::ElapsedSecs => 4,
            GameField::CameraRadius => 4,
            GameField::CameraX => 4,
            GameField::CameraY => 4,
            GameField::CameraZ => 4,
            GameField::Attempts => 4,
            GameField::CurrentAlignment => 4,
            GameField::CurrentAngle => 4,
            GameField::IsAnimating => 1,
            GameField::WinTime => 4,
        }
    }

    /// The field's name as the structure declares it.
    pub open spec fn name_spec(self) -> Seq<char> {
        match self {
            GameField::Seed => "seed"@,
            GameField::BaseRadius => "base_radius"@,
            GameField::Height => "height"@,
            GameField::StartOrient => "start_orient"@,
            GameField::TargetDoor => "target_door"@,
            GameField::Colors => "colors"@,
            GameField::DecorationsCount => "decorations_count"@,
            GameField::DecorationsSize => "decorations_size"@,
            GameField::CosineAlignmentThreshold => "cosine_alignment_threshold"@,
            GameField::DoorAnimFadeOut => "door_anim_fade_out"@,
            GameField::DoorAnimStayOpen => "door_anim_stay_open"@,
            GameField::DoorAnimFadeIn => "door_anim_fade_in"@,
            GameField::MainSpotlightIntensity => "main_spotlight_intensity"@,
            GameField::AmbientBrightness => "ambient_brightness"@,
            GameField::MaxSpotlightIntensity => "max_spotlight_intensity"@,
            GameField::FrameNumber => "frame_number"@,
            GameField::ElapsedSecs => "elapsed_secs"@,
            GameField::CameraRadius => "camera_radius"@,
            GameField::CameraX => "camera_x"@,
            GameField::CameraY => "camera_y"@,
            GameField::CameraZ => "camera_z"@,
            GameField::Attempts => "attempts"@,
            GameField::CurrentAlignment => "current_alignment"@,
            GameField::CurrentAngle => "current_angle"@,
            GameField::IsAnimating => "is_animating"@,
            GameField::WinTime => "win_time"@,
        }
    }

    /// Size of the field in bytes.
    pub fn width(&self) -> (r: u32)
        ensures
            r == self.width_spec(),
    {
        match self {
            GameField::Seed => 8,
            GameField::BaseRadius => 4,
            GameField::Height => 4,
            GameField::StartOrient => 4,
            GameField::TargetDoor => 4,
            GameField::Colors => 48,
            GameField::DecorationsCount => 12,
            GameField::DecorationsSize => 12,
            GameField::CosineAlignmentThreshold => 4,
            GameField::DoorAnimFadeOut => 4,
            GameField::DoorAnimStayOpen => 4,
            GameField::DoorAnimFadeIn => 4,
            GameField::MainSpotlightIntensity => 4,
            GameField::AmbientBrightness => 4,
            GameField::MaxSpotlightIntensity => 4,
            GameField::FrameNumber => 8,
            GameField::ElapsedSecs => 4,
            GameField::CameraRadius => 4,
            GameField::CameraX => 4,
            GameField::CameraY => 4,
            GameField::CameraZ => 4,
            GameField::Attempts => 4,
            GameField::CurrentAlignment => 4,
            GameField::CurrentAngle => 4,
            GameField::IsAnimating => 1,
            GameField::WinTime => 4,
        }
    }

    /// Alignment of the field in bytes.
    pub fn align(&self) -> (r: u32)
        ensures
            r == self.align_spec(),
    {
        match self {
            GameField::Seed => 8,
            GameField::BaseRadius => 4,
            GameField::Height => 4,
            GameField::StartOrient => 4,
            GameField::TargetDoor => 4,
            GameField::Colors => 4,
            GameField::DecorationsCount => 4,
            GameField::DecorationsSize => 4,
            GameField::CosineAlignmentThreshold => 4,
            GameField::DoorAnimFadeOut => 4,
            GameField::DoorAnimStayOpen => 4,
            GameField::DoorAnimFadeIn => 4,
            GameField::MainSpotlightIntensity => 4,
            GameField::AmbientBrightness => 4,
            GameField::MaxSpotlightIntensity => 4,
            GameField::FrameNumber => 8,
            GameField::ElapsedSecs => 4,
            GameField::CameraRadius => 4,
            GameField::CameraX => 4,
            GameField::CameraY => 4,
            GameField::CameraZ => 4,
            GameField::Attempts => 4,
            GameField::CurrentAlignment => 4,
            GameField::CurrentAngle => 4,
            GameField::IsAnimating => 1,
            GameField::WinTime => 4,
        }
    }

    /// The field's name as the structure declares it.
    pub fn name(&self) -> (r: &'static str)
        ensures
            r@ == self.name_spec(),
    {
        match self {
            GameField::Seed => {
                proof {
                    reveal_strlit("seed");
                }
                "seed"
            },
            GameField::BaseRadius => {
                proof {
                    reveal_strlit("base_radius");
                }
                "base_radius"
            },
            GameField::Height => {
                proof {
                    reveal_strlit("height");
                }
                "height"
            },
            GameField::StartOrient => {
                proof {
                    reveal_strlit("start_orient");
                }
                "start_orient"
            },
            GameField::TargetDoor => {
                proof {
                    reveal_strlit("target_door");
                }
                "target_door"
            },
            GameField::Colors => {
                proof {
                    reveal_strlit("colors");
                }
                "colors"
            },
            GameField::DecorationsCount => {
                proof {
                    reveal_strlit("decorations_count");
                }
                "decorations_count"
            },
            GameField::DecorationsSize => {
                proof {
                    reveal_strlit("decorations_size");
                }
                "decorations_size"
            },
            GameField::CosineAlignmentThreshold => {
                proof {
                    reveal_strlit("cosine_alignment_threshold");
                }
                "cosine_alignment_threshold"
            },
            GameField::DoorAnimFadeOut => {
                proof {
                    reveal_strlit("door_anim_fade_out");
                }
                "door_anim_fade_out"
            },
            GameField::DoorAnimStayOpen => {
                proof {
                    reveal_strlit("door_anim_stay_open");
                }
                "door_anim_stay_open"
            },
            GameField::DoorAnimFadeIn => {
                proof {
                    reveal_strlit("door_anim_fade_in");
                }
                "door_anim_fade_in"
            },
            GameField::MainSpotlightIntensity => {
                proof {
                    reveal_strlit("main_spotlight_intensity");
                }
                "main_spotlight_intensity"
            },
            GameField::AmbientBrightness => {
                proof {
                    reveal_strlit("ambient_brightness");
                }
                "ambient_brightness"
            },
            GameField::MaxSpotlightIntensity => {
                proof {
                    reveal_strlit("max_spotlight_intensity");
                }
                "max_spotlight_intensity"
            },
            GameField::FrameNumber => {
                proof {
                    reveal_strlit("frame_number");
                }
                "frame_number"
            },
            GameField::ElapsedSecs => {
                proof {
                    reveal_strlit("elapsed_secs");
                }
                "elapsed_secs"
            },
            GameField::CameraRadius => {
                proof {
                    reveal_strlit("camera_radius");
                }
                "camera_radius"
            },
            GameField::CameraX => {
                proof {
                    reveal_strlit("camera_x");
                }
                "camera_x"
            },
            GameField::CameraY => {
                proof {
                    reveal_strlit("camera_y");
                }
                "camera_y"
            },
            GameField::CameraZ => {
                proof {
                    reveal_strlit("camera_z");
                }
                "camera_z"
            },
            GameField::Attempts => {
                proof {
                    reveal_strlit("attempts");
                }
                "attempts"
            },
            GameField::CurrentAlignment => {
                proof {
                    reveal_strlit("current_alignment");
                }
                "current_alignment"
            },
            GameField::CurrentAngle => {
                proof {
                    reveal_strlit("current_angle");
                }
                "current_angle"
            },
            GameField::IsAnimating => {
                proof {
                    reveal_strlit("is_animating");
                }
                "is_animating"
            },
            GameField::WinTime => {
                proof {
                    reveal_strlit("win_time");
                }
                "win_time"
            },
        }
    }
}

/// The fields of a game structure, in layout order.
pub fn game_structure_fields() -> (r: Vec<GameField>)
    ensures
        r@ == game_fields(),
{
    let r = vec![
        GameField::Seed,
        GameField::BaseRadius,
        GameField::Height,
        GameField::StartOrient,
        GameField::TargetDoor,
        GameField::Colors,
        GameField::DecorationsCount,
        GameField::DecorationsSize,
        GameField::CosineAlignmentThreshold,
        GameField::DoorAnimFadeOut,
        GameField::DoorAnimStayOpen,
        GameField::DoorAnimFadeIn,
        GameField::MainSpotlightIntensity,
        GameField::AmbientBrightness,
        GameField::MaxSpotlightIntensity,
        GameField::FrameNumber,
        GameField::ElapsedSecs,
        GameField::CameraRadius,
        GameField::CameraX,
        GameField::CameraY,
        GameField::CameraZ,
        GameField::Attempts,
        GameField::CurrentAlignment,
        GameField::CurrentAngle,
        GameField::IsAnimating,
        GameField::WinTime,
    ];
    assert(r@ =~= game_fields());
    r
}

/// `x` rounded up to the next multiple of `a`.
pub open spec fn align_up_spec(x: nat, a: nat) -> nat {
    if a == 0 {
        x
    } else {
        (((x + a - 1) as int) / (a as int) * (a as int)) as nat
    }
}

/// Where the first `n` fields of `fields` end.
pub open spec fn layout_end(fields: Seq<GameField>, n: nat) -> nat
    decreases n,
{
    if n == 0 {
        0
    } else {
        align_up_spec(layout_end(fields, (n - 1) as nat), fields[n - 1].align_spec())
            + fields[n - 1].width_spec()
    }
}

/// Offset of the field at position `i` of `fields`.
pub open spec fn field_offset(fields: Seq<GameField>, i: nat) -> nat {
    align_up_spec(layout_end(fields, i), fields[i as int].align_spec())
}

/// `x` rounded up to the next multiple of `a`.
fn align_up(x: u32, a: u32) -> (r: u32)
    requires
        0 < a <= 8,
        x <= 0x1000_0000,
    ensures
        r == align_up_spec(x as nat, a as nat),
        x <= r < x + a,
{
    let q = (x + a - 1) / a;
    let ghost xi = x as int;
    let ghost ai = a as int;
    assert(xi <= q * ai < xi + ai) by (nonlinear_arith)
        requires
            q as int == (xi + ai - 1) / ai,
            0 < ai,
            0 <= xi,
    ;
    q * a
}

/// The offset of every field of a game structure, in layout order.
pub fn game_structure_offsets() -> (r: Vec<(GameField, u32)>)
    ensures
        r@.len() == game_fields().len(),
        forall|i: int|
            0 <= i < r@.len() ==> (#[trigger] r@[i]).0 == game_fields()[i] && r@[i].1
                == field_offset(game_fields(), i as nat),
{
    let fields = game_structure_fields();
    let mut out: Vec<(GameField, u32)> = Vec::new();
    let mut end: u32 = 0;
    let mut i: usize = 0;
    while i < fields.len()
        invariant
            fields@ == game_fields(),
            i <= fields@.len(),
            end == layout_end(game_fields(), i as nat),
            end <= 64 * i,
            out@.len() == i,
            forall|j: int|
                0 <= j < i ==> (#[trigger] out@[j]).0 == game_fields()[j] && out@[j].1
                    == field_offset(game_fields(), j as nat),
        decreases fields@.len() - i,
    {
        let f = fields[i];
        let off = align_up(end, f.align());
        out.push((f, off));
        end = off + f.width();
        i = i + 1;
    }
    out
}

/// Size of a game structure in bytes: where its last field ends, rounded
/// up to the largest alignment of its fields.
pub fn game_structure_size() -> (r: u32)
    ensures
        r == align_up_spec(layout_end(game_fields(), game_fields().len()), 8),
{
    let fields = game_structure_fields();
    let mut end: u32 = 0;
    let mut i: usize = 0;
    while i < fields.len()
        invariant
            fields@ == game_fields(),
            i <= fields@.len(),
            end == layout_end(game_fields(), i as nat),
            end <= 64 * i,
        decreases fields@.len() - i,
    {
        let f = fields[i];
        end = align_up(end, f.align()) + f.width();
        i = i + 1;
    }
    align_up(end, 8)
}

} // verus!
