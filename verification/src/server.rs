//! What all connections of a server share: the settings, the world, the
//! generation scheduler and the counters.

use crate::config::ServerConfig;
use crate::world::sched::GenerationScheduler;
use crate::world::store::World;
use vstd::prelude::*;

verus! {

/// The shared state of a server.
pub struct ServerHandler {
    pub config: ServerConfig,
    pub world: World,
    pub gen: GenerationScheduler,
    pub id_counter: i32,
    pub player_counter: i32,
}

impl ServerHandler {
    /// The id that the next call of `new_id` hands out.
    pub open spec fn spec_next_id(&self) -> i32 {
        self.id_counter
    }

    /// The number of players that are logged in.
    pub open spec fn spec_num_players(&self) -> i32 {
        self.player_counter
    }

    /// Whether the world is well formed.
    pub open spec fn wf(&self) -> bool {
        self.world.wf()
    }

    /// `a + b`, wrapped around at the ends of the 32-bit range.
    pub open spec fn spec_wrapping_add(a: i32, b: i32) -> i32 {
        if a + b > i32::MAX {
            (a + b - 0x1_0000_0000) as i32
        } else if a + b < i32::MIN {
            (a + b + 0x1_0000_0000) as i32
        } else {
            (a + b) as i32
        }
    }

    /// A server without players; the first id it hands out is 1.
    pub fn start(config: ServerConfig, world: World, gen: GenerationScheduler) -> (server:
        ServerHandler)
        ensures
            server.config == config,
            server.world == world,
            server.gen == gen,
            server.spec_next_id() == 1,
            server.spec_num_players() == 0,
    {
        ServerHandler { config, world, gen, id_counter: 1, player_counter: 0 }
    }

    /// Hands out an id that no earlier call handed out, until the counter
    /// wraps around.
    pub fn new_id(&mut self) -> (id: i32)
        ensures
            id == old(self).spec_next_id(),
            final(self).spec_next_id() == Self::spec_wrapping_add(old(self).spec_next_id(), 1),
            final(self).spec_num_players() == old(self).spec_num_players(),
            final(self).config == old(self).config,
            final(self).world == old(self).world,
            final(self).gen == old(self).gen,
    {
        let id = self.id_counter;
        self.id_counter = self.id_counter.wrapping_add(1);
        id
    }

    /// Adds `chg` to the number of players.
    pub fn change_num_players(&mut self, chg: i32)
        ensures
            final(self).spec_num_players() == Self::spec_wrapping_add(
                old(self).spec_num_players(),
                chg,
            ),
            final(self).spec_next_id() == old(self).spec_next_id(),
            final(self).config == old(self).config,
            final(self).world == old(self).world,
            final(self).gen == old(self).gen,
    {
        self.player_counter = self.player_counter.wrapping_add(chg);
    }

    pub fn num_players(&self) -> (count: i32)
        ensures
            count == self.spec_num_players(),
    {
        self.player_counter
    }
}

} // verus!
