use vstd::prelude::*;

use crate::color::{ColorFlags, LightColor};
use crate::level::CurrentLevel;

verus! {

/// Whether an entity is drawn.
#[derive(Clone, Copy, Debug, PartialEq, Eq, Structural)]
pub enum Visibility {
    Inherited,
    Hidden,
    Visible,
}

/// A crystal shard placed in a level; touching it unlocks its color until the next reset.
#[derive(Clone, Copy, Debug, PartialEq, Eq, Structural)]
pub struct CrystalShard {
    pub light_color: LightColor,
}

impl CrystalShard {
    pub open spec fn color(self) -> LightColor {
        self.light_color
    }

    pub fn new(light_color: LightColor) -> (r: CrystalShard)
        ensures
            r.color() == light_color,
    {
        CrystalShard { light_color }
    }

    pub fn light_color(&self) -> (r: LightColor)
        ensures
            r == self.color(),
    {
        self.light_color
    }
}

/// For each color, whether it is allowed in the current level only because a shard was
/// taken there (a temporary modification of the level's allowed colors).
#[derive(Clone, Copy, Debug, PartialEq, Eq, Structural)]
pub struct CrystalShardMods(pub ColorFlags);

impl CrystalShardMods {
    /// No temporary modifications.
    pub fn new() -> (r: CrystalShardMods)
        ensures
            forall|c: LightColor| !#[trigger] r.0.at(c),
    {
        CrystalShardMods(ColorFlags::none())
    }
}

/// Every temporarily granted color is allowed in the level.
pub open spec fn mods_consistent(allowed: ColorFlags, mods: ColorFlags) -> bool {
    forall|c: LightColor| #[trigger] mods.at(c) ==> allowed.at(c)
}

/// The allowed colors once every temporary grant in `mods` is withdrawn.
pub open spec fn rollback_spec(allowed: ColorFlags, mods: ColorFlags) -> ColorFlags {
    ColorFlags {
        green: allowed.green && !mods.green,
        purple: allowed.purple && !mods.purple,
        white: allowed.white && !mods.white,
        blue: allowed.blue && !mods.blue,
    }
}

/// Row of the shard sprite sheet that holds the frames of color `c`.
pub open spec fn shard_row_spec(c: LightColor) -> nat {
    match c {
        LightColor::Blue => 0,
        LightColor::Green => 1,
        LightColor::Purple => 2,
        LightColor::White => 3,
    }
}

/// Frames per row of the shard sprite sheet.
pub const CRYSTAL_SHARD_FRAMES: usize = 7;

/// Rows of the shard sprite sheet, one per color.
pub const CRYSTAL_SHARD_ROWS: usize = 4;

/// Frames per second of the shard animation.
pub const CRYSTAL_SHARD_FPS: u8 = 12;

/// The grid layout of the shard sprite sheet.
#[derive(Clone, Copy, Debug, PartialEq, Eq, Structural)]
pub struct AtlasGrid {
    pub tile_width: u32,
    pub tile_height: u32,
    pub columns: u32,
    pub rows: u32,
}

/// The sprite and looping animation given to a shard.
#[derive(Clone, Copy, Debug, PartialEq, Eq, Structural)]
pub struct ShardSprite {
    pub atlas_index: usize,
    pub first_frame: usize,
    pub last_frame: usize,
    pub fps: u8,
    pub looping: bool,
}

/// The sprite of a shard of color `c`: its color's row, played in a loop.
pub open spec fn shard_sprite_spec(c: LightColor) -> ShardSprite {
    ShardSprite {
        atlas_index: (shard_row_spec(c) * 7) as usize,
        first_frame: (shard_row_spec(c) * 7) as usize,
        last_frame: (shard_row_spec(c) * 7 + 6) as usize,
        fps: 12,
        looping: true,
    }
}

pub fn shard_row(c: LightColor) -> (r: usize)
    ensures
        r == shard_row_spec(c),
        r < CRYSTAL_SHARD_ROWS,
{
    match c {
        LightColor::Blue => 0,
        LightColor::Green => 1,
        LightColor::Purple => 2,
        LightColor::White => 3,
    }
}

/// The layout of the shard sprite sheet: 12 by 16 tiles, a row of frames per color.
pub fn crystal_shard_atlas() -> (r: AtlasGrid)
    ensures
        r == (AtlasGrid { tile_width: 12, tile_height: 16, columns: 7, rows: 4 }),
{
    AtlasGrid {
        tile_width: 12,
        tile_height: 16,
        columns: CRYSTAL_SHARD_FRAMES as u32,
        rows: CRYSTAL_SHARD_ROWS as u32,
    }
}

pub fn crystal_shard_sprite(shard: &CrystalShard) -> (r: ShardSprite)
    ensures
        r == shard_sprite_spec(shard.color()),
{
    let start_index = shard_row(shard.light_color) * CRYSTAL_SHARD_FRAMES;
    ShardSprite {
        atlas_index: start_index,
        first_frame: start_index,
        last_frame: start_index + CRYSTAL_SHARD_FRAMES - 1,
        fps: CRYSTAL_SHARD_FPS,
        looping: true,
    }
}

/// The sprites of newly added shards, one per shard, in order.
pub fn add_crystal_shard_sprites(q_shards: &Vec<CrystalShard>) -> (r: Vec<ShardSprite>)
    ensures
        r@.len() == q_shards@.len(),
        forall|i: int|
            0 <= i < r@.len() ==> #[trigger] r@[i] == shard_sprite_spec(q_shards@[i].color()),
{
    let mut r: Vec<ShardSprite> = Vec::new();
    let mut i: usize = 0;
    while i < q_shards.len()
        invariant
            i <= q_shards@.len(),
            r@.len() == i,
            forall|j: int| 0 <= j < i ==> #[trigger] r@[j] == shard_sprite_spec(q_shards@[j].color()),
        decreases q_shards@.len() - i,
    {
        r.push(crystal_shard_sprite(&q_shards[i]));
        i = i + 1;
    }
    r
}

/// Makes every shard visible again and withdraws every temporary grant: a color granted by
/// a shard is no longer allowed, and no color is marked temporary afterwards.
pub fn reset_shards(
    q_shards: &mut Vec<Visibility>,
    current_level: &mut CurrentLevel,
    shard_mods: &mut CrystalShardMods,
)
    ensures
        final(q_shards)@.len() == old(q_shards)@.len(),
        forall|i: int| 0 <= i < final(q_shards)@.len() ==> #[trigger] final(q_shards)@[i] == Visibility::Visible,
        final(current_level).allowed_colors == rollback_spec(old(current_level).allowed_colors, old(shard_mods).0),
        final(current_level).level_iid@ == old(current_level).level_iid@,
        final(current_level).level_box == old(current_level).level_box,
        forall|c: LightColor| !#[trigger] final(shard_mods).0.at(c),
        forall|c: LightColor| #[trigger] old(shard_mods).0.at(c) ==> !final(current_level).allowed_colors.at(c),
        forall|c: LightColor| !old(shard_mods).0.at(c) ==> #[trigger] final(current_level).allowed_colors.at(c) == old(current_level).allowed_colors.at(c),
        mods_consistent(final(current_level).allowed_colors, final(shard_mods).0),
{
    let ghost n = q_shards@.len();
    let mut i: usize = 0;
    while i < q_shards.len()
        invariant
            q_shards@.len() == n,
            i <= n,
            forall|j: int| 0 <= j < i ==> #[trigger] q_shards@[j] == Visibility::Visible,
        decreases n - i,
    {
        q_shards.set(i, Visibility::Visible);
        i = i + 1;
    }
    withdraw_temporary(&mut current_level.allowed_colors, &mut shard_mods.0, LightColor::Green);
    withdraw_temporary(&mut current_level.allowed_colors, &mut shard_mods.0, LightColor::Purple);
    withdraw_temporary(&mut current_level.allowed_colors, &mut shard_mods.0, LightColor::White);
    withdraw_temporary(&mut current_level.allowed_colors, &mut shard_mods.0, LightColor::Blue);
}

/// Withdraws the temporary grant of `color`, if any, and clears its flag.
fn withdraw_temporary(allowed: &mut ColorFlags, mods: &mut ColorFlags, color: LightColor)
    ensures
        *final(allowed) == old(allowed).with(color, old(allowed).at(color) && !old(mods).at(color)),
        *final(mods) == old(mods).with(color, false),
{
    if mods.get(color) {
        allowed.set(color, false);
    }
    // the flag is cleared whether or not it was set
    mods.set(color, false);
}

/// Some shard among the first `k` of `shards` that touches the player has color `c`.
pub open spec fn touched_before(
    shards: Seq<CrystalShard>,
    intersections: Seq<Option<bool>>,
    k: int,
    c: LightColor,
) -> bool {
    exists|i: int|
        0 <= i < k && #[trigger] intersections[i] == Some(true) && shards[i].color() == c
}

/// Some shard that touches the player has color `c`.
pub open spec fn touched(
    shards: Seq<CrystalShard>,
    intersections: Seq<Option<bool>>,
    c: LightColor,
) -> bool {
    touched_before(shards, intersections, shards.len() as int, c)
}

/// The allowed colors after the shards are touched: a touched color becomes allowed.
pub open spec fn allowed_after_touch(
    allowed: ColorFlags,
    shards: Seq<CrystalShard>,
    intersections: Seq<Option<bool>>,
    c: LightColor,
) -> bool {
    allowed.at(c) || touched(shards, intersections, c)
}

/// The temporary flags after the shards are touched: a touched color becomes temporary
/// only if it was not allowed before.
pub open spec fn mods_after_touch(
    allowed: ColorFlags,
    mods: ColorFlags,
    shards: Seq<CrystalShard>,
    intersections: Seq<Option<bool>>,
    c: LightColor,
) -> bool {
    mods.at(c) || (!allowed.at(c) && touched(shards, intersections, c))
}

/// Unlocks the color of each shard the player touches: a color not yet allowed in the level
/// becomes allowed and is marked temporary; a color already allowed is left as it is. Each
/// touched shard is hidden. `intersections[i]` is what the physics reports for the player
/// and shard `i`.
pub fn on_player_intersect_shard(
    q_shards: &Vec<CrystalShard>,
    visibility: &mut Vec<Visibility>,
    intersections: &Vec<Option<bool>>,
    current_level: &mut CurrentLevel,
    shard_mods: &mut CrystalShardMods,
)
    requires
        old(visibility)@.len() == q_shards@.len(),
        intersections@.len() == q_shards@.len(),
    ensures
        final(visibility)@.len() == old(visibility)@.len(),
        forall|i: int|
            0 <= i < final(visibility)@.len() ==> #[trigger] final(visibility)@[i] == if intersections@[i]
                == Some(true) {
                Visibility::Hidden
            } else {
                old(visibility)@[i]
            },
        forall|c: LightColor|
            #[trigger] final(current_level).allowed_colors.at(c) == allowed_after_touch(
                old(current_level).allowed_colors,
                q_shards@,
                intersections@,
                c,
            ),
        forall|c: LightColor|
            #[trigger] final(shard_mods).0.at(c) == mods_after_touch(
                old(current_level).allowed_colors,
                old(shard_mods).0,
                q_shards@,
                intersections@,
                c,
            ),
        final(current_level).level_iid@ == old(current_level).level_iid@,
        final(current_level).level_box == old(current_level).level_box,
        mods_consistent(old(current_level).allowed_colors, old(shard_mods).0) ==> mods_consistent(
            final(current_level).allowed_colors,
            final(shard_mods).0,
        ),
{
    let ghost allowed0 = current_level.allowed_colors;
    let ghost mods0 = shard_mods.0;
    let ghost n = q_shards@.len() as int;
    let mut i: usize = 0;
    while i < q_shards.len()
        invariant
            i <= n,
            n == q_shards@.len(),
            intersections@.len() == n,
            visibility@.len() == n,
            allowed0 == old(current_level).allowed_colors,
            mods0 == old(shard_mods).0,
            current_level.level_iid@ == old(current_level).level_iid@,
            current_level.level_box == old(current_level).level_box,
            forall|j: int|
                0 <= j < n ==> #[trigger] visibility@[j] == if j < i && intersections@[j] == Some(true) {
                    Visibility::Hidden
                } else {
                    old(visibility)@[j]
                },
            forall|c: LightColor|
                #[trigger] current_level.allowed_colors.at(c) == (allowed0.at(c) || touched_before(
                    q_shards@,
                    intersections@,
                    i as int,
                    c,
                )),
            forall|c: LightColor|
                #[trigger] shard_mods.0.at(c) == (mods0.at(c) || (!allowed0.at(c) && touched_before(
                    q_shards@,
                    intersections@,
                    i as int,
                    c,
                ))),
        decreases n - i,
    {
        if intersections[i] == Some(true) {
            let color = q_shards[i].light_color;
            if !current_level.allowed_colors.get(color) {
                // only a color that is not allowed yet is a temporary modification
                shard_mods.0.set(color, true);
                current_level.allowed_colors.set(color, true);
            }
            visibility.set(i, Visibility::Hidden);
        }
        proof {
            assert forall|c: LightColor|
                touched_before(q_shards@, intersections@, i + 1, c) == (touched_before(
                    q_shards@,
                    intersections@,
                    i as int,
                    c,
                ) || (intersections@[i as int] == Some(true) && q_shards@[i as int].color() == c)) by {
                if touched_before(q_shards@, intersections@, i + 1, c) {
                    let w = choose|j: int|
                        0 <= j < i + 1 && #[trigger] intersections@[j] == Some(true)
                            && q_shards@[j].color() == c;
                    if w < i {
                        assert(touched_before(q_shards@, intersections@, i as int, c));
                    }
                }
                if intersections@[i as int] == Some(true) && q_shards@[i as int].color() == c {
                    assert(intersections@[i as int] == Some(true));
                }
            }
        }
        i = i + 1;
    }
}

/// The allowed colors after the shards are touched, as flags.
pub open spec fn allowed_flags_after_touch(
    allowed: ColorFlags,
    shards: Seq<CrystalShard>,
    intersections: Seq<Option<bool>>,
) -> ColorFlags {
    ColorFlags::from_fn(|c: LightColor| allowed_after_touch(allowed, shards, intersections, c))
}

/// The temporary flags after the shards are touched, as flags.
pub open spec fn mods_flags_after_touch(
    allowed: ColorFlags,
    mods: ColorFlags,
    shards: Seq<CrystalShard>,
    intersections: Seq<Option<bool>>,
) -> ColorFlags {
    ColorFlags::from_fn(|c: LightColor| mods_after_touch(allowed, mods, shards, intersections, c))
}

/// Touching a shard whose color is already allowed changes neither that color's allowed
/// flag nor its temporary flag.
pub proof fn lemma_touch_allowed_color(
    allowed: ColorFlags,
    mods: ColorFlags,
    shards: Seq<CrystalShard>,
    intersections: Seq<Option<bool>>,
    c: LightColor,
)
    requires
        allowed.at(c),
    ensures
        allowed_after_touch(allowed, shards, intersections, c) == allowed.at(c),
        mods_after_touch(allowed, mods, shards, intersections, c) == mods.at(c),
{
}

/// Touching the same shards twice in succession leaves every allowed flag and every
/// temporary flag as the first touch left it.
pub proof fn lemma_touch_twice(
    allowed: ColorFlags,
    mods: ColorFlags,
    shards: Seq<CrystalShard>,
    intersections: Seq<Option<bool>>,
)
    ensures
        ({
            let allowed1 = allowed_flags_after_touch(allowed, shards, intersections);
            let mods1 = mods_flags_after_touch(allowed, mods, shards, intersections);
            forall|c: LightColor|
                #![trigger allowed1.at(c)]
                allowed_after_touch(allowed1, shards, intersections, c) == allowed1.at(c)
                    && mods_after_touch(allowed1, mods1, shards, intersections, c) == mods1.at(c)
        }),
{
    let allowed1 = allowed_flags_after_touch(allowed, shards, intersections);
    let mods1 = mods_flags_after_touch(allowed, mods, shards, intersections);
    assert forall|c: LightColor|
        allowed_after_touch(allowed1, shards, intersections, c) == allowed1.at(c)
            && mods_after_touch(allowed1, mods1, shards, intersections, c) == mods1.at(c) by {
        assert(allowed1.at(c) == allowed_after_touch(allowed, shards, intersections, c));
        assert(mods1.at(c) == mods_after_touch(allowed, mods, shards, intersections, c));
    }
}

} // verus!
