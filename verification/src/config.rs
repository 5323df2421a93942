//! The server's settings.

use crate::model::GameMode;
use vstd::prelude::*;

verus! {

/// The layer of the world that a biome belongs to.
#[derive(Clone, Copy, Debug, PartialEq, Eq, Structural)]
pub enum BiomeLayer {
    Sea,
    River,
    Land,
}

/// The settings of a server.
#[derive(Clone, Debug, PartialEq)]
pub struct ServerConfig {
    /// The line that the server list shows.
    pub motd: String,
    /// The number of players that the server list announces as the most.
    pub slots: i32,
    /// The game mode that a player starts in.
    pub game_mode: GameMode,
    pub difficulty: u8,
    /// The address that the server listens on.
    pub net_endpoint: String,
    /// The compression threshold; zero switches compression off.
    pub net_compression: usize,
    pub generator_threads: u32,
    /// How many chunks a player sees to each side.
    pub view_dist: i32,
    pub seed: Option<u32>,
}

} // verus!
