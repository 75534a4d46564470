use vstd::prelude::*;

use crate::color::{ColorFlags, LightColor};
use crate::level::CurrentLevel;

verus! {

/// The colors the player has collected and the one currently equipped.
#[derive(Clone, Copy, Debug, PartialEq, Eq, Structural)]
pub struct PlayerLightInventory {
    pub collected: ColorFlags,
    pub current_color: Option<LightColor>,
}

impl PlayerLightInventory {
    /// An empty inventory with nothing equipped.
    pub fn new() -> (r: PlayerLightInventory)
        ensures
            forall|c: LightColor| !#[trigger] r.collected.at(c),
            r.current_color.is_none(),
    {
        PlayerLightInventory { collected: ColorFlags::none(), current_color: None }
    }
}

/// The equipped color kept across a reset: the old one if it is still allowed, else none.
pub open spec fn preserved_color(old_color: Option<LightColor>, allowed: ColorFlags) -> Option<
    LightColor,
> {
    match old_color {
        Some(c) => if allowed.at(c) {
            Some(c)
        } else {
            None
        },
        None => None,
    }
}

/// Empties the inventory; the equipped color stays equipped if the current level allows it.
pub fn reset_player_on_level_switch(
    inventory: &mut PlayerLightInventory,
    current_level: &CurrentLevel,
)
    ensures
        final(inventory).current_color == preserved_color(
            old(inventory).current_color,
            current_level.allowed_colors,
        ),
        forall|c: LightColor| !#[trigger] final(inventory).collected.at(c),
{
    let old_color = inventory.current_color;
    *inventory = PlayerLightInventory::new();
    // keep the equipped color if the level allows it
    if let Some(color) = old_color {
        if current_level.allowed_colors.get(color) {
            inventory.current_color = old_color;
        }
    }
}

} // verus!
