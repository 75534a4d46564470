use lightborne::color::{ColorFlags, LightColor};
use lightborne::config::config_path;
use lightborne::inventory::{reset_player_on_level_switch, PlayerLightInventory};
use lightborne::kill::{reset_player_on_kill, CameraControlType, ResetLevel, RespawnError};
use lightborne::level::{camera_position_from_level, CurrentLevel, LevelBox, Position, StartFlag};
use lightborne::reset::reset_level;
use lightborne::shard::{
    on_player_intersect_shard, CrystalShard, CrystalShardMods, Visibility,
};

fn level(iid: &str, allowed: ColorFlags) -> CurrentLevel {
    CurrentLevel {
        level_iid: String::from(iid),
        allowed_colors: allowed,
        level_box: LevelBox { min_x: -1000, min_y: -1000, max_x: 1000, max_y: 1000 },
    }
}

fn flags(colors: &[LightColor]) -> ColorFlags {
    let mut f = ColorFlags::none();
    for c in colors {
        f.set(*c, true);
    }
    f
}

fn flag(iid: &str, x: i32, y: i32) -> StartFlag {
    StartFlag { level_iid: String::from(iid), world_x: x, world_y: y }
}

#[test]
fn respawn_places_player_above_start_flag() {
    let lvl = level("a", ColorFlags::none());
    let flags = vec![flag("b", 7, 7), flag("a", 100, 50)];
    let mut player = Position { x: 3, y: 4 };
    let mv = reset_player_on_kill(&vec![ResetLevel::Respawn], &flags, &lvl, &mut player)
        .unwrap()
        .unwrap();
    assert_eq!(player, Position { x: 100, y: -48 });
    assert_eq!(mv.to, Position { x: 100, y: -48 });
    assert_eq!(mv.variant, CameraControlType::Instant);
}

#[test]
fn respawn_uses_first_matching_flag() {
    let lvl = level("a", ColorFlags::none());
    let flags = vec![flag("a", 1, 2), flag("a", 100, 50)];
    let mut player = Position { x: 0, y: 0 };
    reset_player_on_kill(&vec![ResetLevel::Respawn], &flags, &lvl, &mut player).unwrap();
    assert_eq!(player, Position { x: 1, y: 0 });
}

#[test]
fn respawn_camera_is_clipped_to_level() {
    let mut lvl = level("a", ColorFlags::none());
    lvl.level_box = LevelBox { min_x: 0, min_y: 0, max_x: 50, max_y: 50 };
    let mut player = Position { x: 0, y: 0 };
    let mv = reset_player_on_kill(&vec![ResetLevel::Respawn], &vec![flag("a", 100, 50)], &lvl, &mut player)
        .unwrap()
        .unwrap();
    assert_eq!(player, Position { x: 100, y: -48 });
    assert_eq!(mv.to, Position { x: 50, y: 0 });
    let b = LevelBox { min_x: -10, min_y: -10, max_x: 10, max_y: 10 };
    assert_eq!(camera_position_from_level(b, Position { x: 5, y: -3 }), Position { x: 5, y: -3 });
    assert_eq!(camera_position_from_level(b, Position { x: -50, y: 30 }), Position { x: -10, y: 10 });
}

#[test]
fn respawn_without_start_flag_is_an_error() {
    let lvl = level("missing", ColorFlags::none());
    let mut player = Position { x: 3, y: 4 };
    let r = reset_player_on_kill(&vec![ResetLevel::Respawn], &vec![flag("other", 1, 1)], &lvl, &mut player);
    match r {
        Err(RespawnError::MissingStartFlag(iid)) => assert_eq!(iid, "missing"),
        _ => panic!("expected a missing start flag"),
    }
    assert_eq!(player, Position { x: 3, y: 4 });
}

#[test]
fn switching_reset_does_not_move_player() {
    let lvl = level("a", ColorFlags::none());
    let mut player = Position { x: 3, y: 4 };
    let r = reset_player_on_kill(&vec![ResetLevel::Switching], &vec![], &lvl, &mut player);
    assert!(matches!(r, Ok(None)));
    assert_eq!(player, Position { x: 3, y: 4 });
}

#[test]
fn level_switch_keeps_allowed_color() {
    let lvl = level("a", flags(&[LightColor::Blue]));
    let mut inv = PlayerLightInventory::new();
    inv.collected.set(LightColor::Blue, true);
    inv.current_color = Some(LightColor::Blue);
    reset_player_on_level_switch(&mut inv, &lvl);
    assert_eq!(inv.current_color, Some(LightColor::Blue));
    assert_eq!(inv.collected, ColorFlags::none());
}

#[test]
fn level_switch_drops_disallowed_color() {
    let lvl = level("a", flags(&[LightColor::Blue]));
    let mut inv = PlayerLightInventory::new();
    inv.current_color = Some(LightColor::White);
    reset_player_on_level_switch(&mut inv, &lvl);
    assert_eq!(inv.current_color, None);
}

#[test]
fn reset_drops_color_granted_by_shard() {
    let mut lvl = level("a", flags(&[LightColor::Blue]));
    let mut mods = CrystalShardMods::new();
    let mut vis = vec![Visibility::Visible];
    on_player_intersect_shard(
        &vec![CrystalShard::new(LightColor::Green)],
        &mut vis,
        &vec![Some(true)],
        &mut lvl,
        &mut mods,
    );
    let mut inv = PlayerLightInventory::new();
    inv.current_color = Some(LightColor::Green);
    let mut player = Position { x: 0, y: 0 };
    let r = reset_level(
        &vec![ResetLevel::Respawn],
        &mut vis,
        &mut lvl,
        &mut mods,
        &mut inv,
        &vec![flag("a", 100, 50)],
        &mut player,
    );
    assert!(r.unwrap().is_some());
    assert!(!lvl.allowed_colors.get(LightColor::Green));
    assert!(!mods.0.get(LightColor::Green));
    assert_eq!(inv.current_color, None);
    assert_eq!(vis, vec![Visibility::Visible]);
    assert_eq!(player, Position { x: 100, y: -48 });
}

#[test]
fn reset_keeps_permanent_color() {
    let mut lvl = level("a", flags(&[LightColor::Blue]));
    let mut mods = CrystalShardMods::new();
    let mut vis = vec![];
    let mut inv = PlayerLightInventory::new();
    inv.current_color = Some(LightColor::Blue);
    let mut player = Position { x: 0, y: 0 };
    let r = reset_level(&vec![ResetLevel::Switching], &mut vis, &mut lvl, &mut mods, &mut inv, &vec![], &mut player);
    assert!(matches!(r, Ok(None)));
    assert_eq!(inv.current_color, Some(LightColor::Blue));
    assert_eq!(player, Position { x: 0, y: 0 });
}

#[test]
fn no_reset_changes_nothing() {
    let mut lvl = level("a", flags(&[LightColor::Blue]));
    let mut mods = CrystalShardMods::new();
    mods.0.set(LightColor::Blue, true);
    let mut vis = vec![Visibility::Hidden];
    let mut inv = PlayerLightInventory::new();
    inv.current_color = Some(LightColor::Green);
    let mut player = Position { x: 1, y: 1 };
    let r = reset_level(&vec![], &mut vis, &mut lvl, &mut mods, &mut inv, &vec![], &mut player);
    assert!(matches!(r, Ok(None)));
    assert_eq!(vis, vec![Visibility::Hidden]);
    assert!(mods.0.get(LightColor::Blue));
    assert_eq!(inv.current_color, Some(LightColor::Green));
}

#[test]
fn respawn_reset_without_flag_fails() {
    let mut lvl = level("nowhere", ColorFlags::none());
    let mut mods = CrystalShardMods::new();
    let mut vis = vec![];
    let mut inv = PlayerLightInventory::new();
    let mut player = Position { x: 9, y: 9 };
    let r = reset_level(&vec![ResetLevel::Respawn], &mut vis, &mut lvl, &mut mods, &mut inv, &vec![], &mut player);
    assert!(matches!(r, Err(RespawnError::MissingStartFlag(_))));
    assert_eq!(player, Position { x: 9, y: 9 });
}

#[test]
fn config_path_prefers_local_file() {
    assert_eq!(config_path(true), "Lightborne.toml");
    assert_eq!(config_path(false), "Lightborne_example.toml");
}
