//! Player death and respawn for a light-puzzle platformer: the kill sequence state
//! machine, the temporary color unlocks granted by crystal shards, and the rollback that
//! a level reset performs on them and on the player's inventory.

pub mod color;
pub mod config;
pub mod inventory;
pub mod kill;
pub mod level;
pub mod reset;
pub mod shard;
