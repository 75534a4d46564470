use vstd::prelude::*;

use crate::color::{ColorFlags, LightColor};
use crate::inventory::{preserved_color, reset_player_on_level_switch, PlayerLightInventory};
use crate::kill::{
    first_flag, has_flag, reset_player_on_kill, spawn_position, CameraControlType,
    CameraMoveEvent, ResetLevel, RespawnError,
};
use crate::level::{camera_position_spec, CurrentLevel, Position, StartFlag};
use crate::shard::{mods_consistent, reset_shards, rollback_spec, CrystalShardMods, Visibility};

verus! {

/// Handles the level resets of one tick, in the order the rollback needs: first the shards
/// withdraw their temporary grants, then the inventory keeps its equipped color only if the
/// rolled-back level still allows it, then, for a respawn, the player is placed at the start
/// flag. With no reset this tick nothing changes.
pub fn reset_level(
    ev_reset_level: &Vec<ResetLevel>,
    shard_visibility: &mut Vec<Visibility>,
    current_level: &mut CurrentLevel,
    shard_mods: &mut CrystalShardMods,
    inventory: &mut PlayerLightInventory,
    q_start_flag: &Vec<StartFlag>,
    player: &mut Position,
) -> (r: Result<Option<CameraMoveEvent>, RespawnError>)
    ensures
        ev_reset_level@.len() == 0 ==> {
            &&& r == Ok::<Option<CameraMoveEvent>, RespawnError>(None)
            &&& final(shard_visibility)@ == old(shard_visibility)@
            &&& final(current_level).allowed_colors == old(current_level).allowed_colors
            &&& *final(shard_mods) == *old(shard_mods)
            &&& *final(inventory) == *old(inventory)
            &&& *final(player) == *old(player)
        },
        final(current_level).level_iid@ == old(current_level).level_iid@,
        final(current_level).level_box == old(current_level).level_box,
        ev_reset_level@.len() > 0 ==> {
            &&& final(shard_visibility)@.len() == old(shard_visibility)@.len()
            &&& forall|i: int|
                0 <= i < final(shard_visibility)@.len() ==> #[trigger] final(shard_visibility)@[i]
                    == Visibility::Visible
            &&& final(current_level).allowed_colors == rollback_spec(
                old(current_level).allowed_colors,
                old(shard_mods).0,
            )
            &&& forall|c: LightColor| !#[trigger] final(shard_mods).0.at(c)
            &&& forall|c: LightColor|
                #[trigger] old(shard_mods).0.at(c) ==> !final(current_level).allowed_colors.at(c)
            &&& mods_consistent(final(current_level).allowed_colors, final(shard_mods).0)
            &&& final(inventory).current_color == preserved_color(
                old(inventory).current_color,
                final(current_level).allowed_colors,
            )
            &&& forall|c: LightColor| !#[trigger] final(inventory).collected.at(c)
        },
        !ev_reset_level@.contains(ResetLevel::Respawn) ==> r == Ok::<
            Option<CameraMoveEvent>,
            RespawnError,
        >(None) && *final(player) == *old(player),
        ev_reset_level@.contains(ResetLevel::Respawn) && !has_flag(
            q_start_flag@,
            old(current_level).level_iid@,
        ) ==> *final(player) == *old(player) && (r matches Err(
            RespawnError::MissingStartFlag(iid),
        ) && iid@ == old(current_level).level_iid@),
        ev_reset_level@.contains(ResetLevel::Respawn) && has_flag(
            q_start_flag@,
            old(current_level).level_iid@,
        ) ==> exists|i: int|
            first_flag(q_start_flag@, old(current_level).level_iid@, i) && *final(player)
                == spawn_position(#[trigger] q_start_flag@[i]) && r == Ok::<
                Option<CameraMoveEvent>,
                RespawnError,
            >(
                Some(
                    CameraMoveEvent {
                        to: camera_position_spec(old(current_level).level_box, *final(player)),
                        variant: CameraControlType::Instant,
                    },
                ),
            ),
{
    if ev_reset_level.len() == 0 {
        return Ok(None);
    }
    reset_shards(shard_visibility, current_level, shard_mods);
    // the inventory reads the allowed colors once the shards have rolled them back
    reset_player_on_level_switch(inventory, current_level);
    reset_player_on_kill(ev_reset_level, q_start_flag, current_level, player)
}

/// The equipped color survives a reset exactly when the level, once its temporary grants are
/// withdrawn, still allows it; otherwise nothing is equipped afterwards.
pub proof fn lemma_inventory_preservation(
    allowed: ColorFlags,
    mods: ColorFlags,
    active: LightColor,
)
    ensures
        rollback_spec(allowed, mods).at(active) ==> preserved_color(
            Some(active),
            rollback_spec(allowed, mods),
        ) == Some(active),
        !rollback_spec(allowed, mods).at(active) ==> preserved_color(
            Some(active),
            rollback_spec(allowed, mods),
        ) is None,
        mods.at(active) ==> preserved_color(Some(active), rollback_spec(allowed, mods)) is None,
        allowed.at(active) && !mods.at(active) ==> preserved_color(
            Some(active),
            rollback_spec(allowed, mods),
        ) == Some(active),
{
}

} // verus!
