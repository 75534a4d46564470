use vstd::prelude::*;

use crate::color::ColorFlags;

verus! {

/// A point in world space, in whole units, y pointing up.
#[derive(Clone, Copy, Debug, PartialEq, Eq, Structural)]
pub struct Position {
    pub x: i64,
    pub y: i64,
}

/// The axis-aligned region a level occupies in world space.
#[derive(Clone, Copy, Debug, PartialEq, Eq, Structural)]
pub struct LevelBox {
    pub min_x: i64,
    pub min_y: i64,
    pub max_x: i64,
    pub max_y: i64,
}

impl LevelBox {
    /// A box is well formed when its minimum corner is below and left of its maximum corner.
    pub open spec fn wf(self) -> bool {
        self.min_x <= self.max_x && self.min_y <= self.max_y
    }

    pub open spec fn contains(self, p: Position) -> bool {
        self.min_x <= p.x <= self.max_x && self.min_y <= p.y <= self.max_y
    }
}

/// The level the player is in: its identity, the colors allowed in it, and its bounds.
#[derive(Debug)]
pub struct CurrentLevel {
    pub level_iid: String,
    pub allowed_colors: ColorFlags,
    pub level_box: LevelBox,
}

/// `v` moved into the closed range `[lo, hi]`.
pub open spec fn clamp_spec(v: i64, lo: i64, hi: i64) -> i64 {
    if v < lo {
        lo
    } else if v > hi {
        hi
    } else {
        v
    }
}

fn clamp_i64(v: i64, lo: i64, hi: i64) -> (r: i64)
    ensures
        r == clamp_spec(v, lo, hi),
{
    if v < lo {
        lo
    } else if v > hi {
        hi
    } else {
        v
    }
}

/// Where the camera centers when it follows `p` inside `level_box`.
pub open spec fn camera_position_spec(level_box: LevelBox, p: Position) -> Position {
    Position {
        x: clamp_spec(p.x, level_box.min_x, level_box.max_x),
        y: clamp_spec(p.y, level_box.min_y, level_box.max_y),
    }
}

/// The camera center for a target at `p`: `p` clipped to the level's bounds.
pub fn camera_position_from_level(level_box: LevelBox, p: Position) -> (r: Position)
    ensures
        r == camera_position_spec(level_box, p),
        level_box.wf() ==> level_box.contains(r),
        level_box.contains(p) ==> r == p,
{
    Position {
        x: clamp_i64(p.x, level_box.min_x, level_box.max_x),
        y: clamp_i64(p.y, level_box.min_y, level_box.max_y),
    }
}

/// A level's start flag: where the player respawns, in level-editor world coordinates
/// (y pointing down).
#[derive(Debug)]
pub struct StartFlag {
    pub level_iid: String,
    pub world_x: i32,
    pub world_y: i32,
}

} // verus!
