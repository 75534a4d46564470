use vstd::prelude::*;

verus! {

/// Settings read at startup.
#[derive(Debug)]
pub struct Config {
    pub level_config: LevelConfig,
    pub debug_config: DebugConfig,
}

#[derive(Debug)]
pub struct DebugConfig {
    pub ui: bool,
}

#[derive(Debug)]
pub struct LevelConfig {
    pub level_index: usize,
    pub level_path: String,
}

/// The settings file a player writes by hand.
pub const LOCAL_CONFIG_PATH: &'static str = "Lightborne.toml";

/// The settings file shipped with the game.
pub const EXAMPLE_CONFIG_PATH: &'static str = "Lightborne_example.toml";

/// The settings file to read: the player's own when it exists, else the shipped example.
pub fn config_path(local_exists: bool) -> (r: &'static str)
    ensures
        local_exists ==> r@ == LOCAL_CONFIG_PATH@,
        !local_exists ==> r@ == EXAMPLE_CONFIG_PATH@,
{
    if local_exists {
        LOCAL_CONFIG_PATH
    } else {
        EXAMPLE_CONFIG_PATH
    }
}

} // verus!
