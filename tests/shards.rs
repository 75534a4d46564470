use lightborne::color::{ColorFlags, LightColor};
use lightborne::level::{CurrentLevel, LevelBox};
use lightborne::shard::{
    add_crystal_shard_sprites, crystal_shard_atlas, crystal_shard_sprite,
    on_player_intersect_shard, reset_shards, shard_row, CrystalShard, CrystalShardMods,
    Visibility,
};

fn level(allowed: ColorFlags) -> CurrentLevel {
    CurrentLevel {
        level_iid: String::from("level-a"),
        allowed_colors: allowed,
        level_box: LevelBox { min_x: 0, min_y: 0, max_x: 320, max_y: 180 },
    }
}

fn only_blue() -> ColorFlags {
    let mut f = ColorFlags::none();
    f.set(LightColor::Blue, true);
    f
}

#[test]
fn shard_sprite_rows() {
    assert_eq!(shard_row(LightColor::Blue), 0);
    assert_eq!(shard_row(LightColor::Green), 1);
    assert_eq!(shard_row(LightColor::Purple), 2);
    assert_eq!(shard_row(LightColor::White), 3);
    let s = crystal_shard_sprite(&CrystalShard::new(LightColor::Purple));
    assert_eq!((s.atlas_index, s.first_frame, s.last_frame), (14, 14, 20));
    assert_eq!(s.fps, 12);
    assert!(s.looping);
    let atlas = crystal_shard_atlas();
    assert_eq!((atlas.tile_width, atlas.tile_height, atlas.columns, atlas.rows), (12, 16, 7, 4));
}

#[test]
fn shard_sprites_follow_shards() {
    let shards = vec![CrystalShard::new(LightColor::White), CrystalShard::new(LightColor::Blue)];
    let sprites = add_crystal_shard_sprites(&shards);
    assert_eq!(sprites.len(), 2);
    assert_eq!((sprites[0].first_frame, sprites[0].last_frame), (21, 27));
    assert_eq!((sprites[1].first_frame, sprites[1].last_frame), (0, 6));
}

#[test]
fn touching_shard_grants_color_temporarily() {
    let mut lvl = level(only_blue());
    let mut mods = CrystalShardMods::new();
    let shards = vec![CrystalShard::new(LightColor::Green), CrystalShard::new(LightColor::White)];
    let mut vis = vec![Visibility::Visible, Visibility::Visible];
    on_player_intersect_shard(&shards, &mut vis, &vec![Some(true), Some(false)], &mut lvl, &mut mods);
    assert!(lvl.allowed_colors.get(LightColor::Green));
    assert!(mods.0.get(LightColor::Green));
    assert!(!lvl.allowed_colors.get(LightColor::White));
    assert!(!mods.0.get(LightColor::White));
    assert_eq!(vis, vec![Visibility::Hidden, Visibility::Visible]);
}

#[test]
fn touching_shard_of_allowed_color_is_not_temporary() {
    let mut lvl = level(only_blue());
    let mut mods = CrystalShardMods::new();
    let shards = vec![CrystalShard::new(LightColor::Blue)];
    let mut vis = vec![Visibility::Visible];
    on_player_intersect_shard(&shards, &mut vis, &vec![Some(true)], &mut lvl, &mut mods);
    assert!(lvl.allowed_colors.get(LightColor::Blue));
    assert!(!mods.0.get(LightColor::Blue));
    assert_eq!(vis, vec![Visibility::Hidden]);
}

#[test]
fn touching_shard_twice_changes_nothing_more() {
    let mut lvl = level(ColorFlags::none());
    let mut mods = CrystalShardMods::new();
    let shards = vec![CrystalShard::new(LightColor::Purple)];
    let mut vis = vec![Visibility::Visible];
    let hits = vec![Some(true)];
    on_player_intersect_shard(&shards, &mut vis, &hits, &mut lvl, &mut mods);
    let allowed1 = lvl.allowed_colors;
    let mods1 = mods;
    on_player_intersect_shard(&shards, &mut vis, &hits, &mut lvl, &mut mods);
    assert_eq!(lvl.allowed_colors, allowed1);
    assert_eq!(mods, mods1);
    assert!(lvl.allowed_colors.get(LightColor::Purple));
    assert!(mods.0.get(LightColor::Purple));
}

#[test]
fn reset_withdraws_temporary_grants() {
    let mut lvl = level(only_blue());
    let mut mods = CrystalShardMods::new();
    let shards = vec![CrystalShard::new(LightColor::Green)];
    let mut vis = vec![Visibility::Visible];
    on_player_intersect_shard(&shards, &mut vis, &vec![Some(true)], &mut lvl, &mut mods);
    let mut hidden = vec![Visibility::Hidden, Visibility::Inherited];
    reset_shards(&mut hidden, &mut lvl, &mut mods);
    assert_eq!(hidden, vec![Visibility::Visible, Visibility::Visible]);
    assert_eq!(lvl.allowed_colors, only_blue());
    assert_eq!(mods.0, ColorFlags::none());
    assert_eq!(lvl.level_iid, "level-a");
}
