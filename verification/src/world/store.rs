//! The world: every chunk that exists, by its coordinate.

use crate::world::{Chunk, ChunkPos};
use dashmap::DashMap;
use std::hash::RandomState;
use vstd::prelude::*;

verus! {

/// `dashmap::DashMap`, taken as it is: nothing is known of what is inside
/// but what `spec_chunk_map` names.
#[verifier::external_type_specification]
#[verifier::external_body]
#[verifier::reject_recursive_types(K)]
#[verifier::reject_recursive_types(V)]
#[verifier::reject_recursive_types(S)]
pub struct ExDashMap<K, V, S>(DashMap<K, V, S>);

/// The number of chunks that a new world has room for before it grows.
pub const INITIAL_CAPACITY: usize = 256;

/// A concurrent map from chunk coordinates, as (x, z), to chunks.
pub type ChunkMap = DashMap<(i32, i32), Chunk, RandomState>;

/// The entries that a map of chunks holds.
pub uninterp spec fn spec_chunk_map(map: ChunkMap) -> Map<
    (i32, i32),
    Chunk,
>;

/// The map without entries.
pub open spec fn spec_no_chunks() -> Map<(i32, i32), Chunk> {
    Map::empty()
}

/// `DashMap::with_capacity`: a map without entries, with room for
/// `capacity` of them before it grows. A capacity that cannot be allocated
/// is kept out.
#[verifier::external_body]
fn chunk_map_new(capacity: usize) -> (chunks: ChunkMap)
    requires
        capacity <= 0x1_0000,
    ensures
        spec_chunk_map(chunks) == spec_no_chunks(),
{
    DashMap::with_capacity(capacity)
}

/// `DashMap::contains_key`: whether the map has an entry under `key`.
#[verifier::external_body]
fn chunk_map_contains(map: &ChunkMap, key: (i32, i32)) -> (found:
    bool)
    ensures
        found == spec_chunk_map(*map).contains_key(key),
{
    map.contains_key(&key)
}

/// `DashMap::view` with a closure that copies the value: the chunk under
/// `key`, if there is one.
#[verifier::external_body]
fn chunk_map_get(map: &ChunkMap, key: (i32, i32)) -> (chunk: Option<
    Chunk,
>)
    ensures
        chunk == if spec_chunk_map(*map).contains_key(key) {
            Some(spec_chunk_map(*map)[key])
        } else {
            None
        },
{
    map.view(&key, |_, chunk| *chunk)
}

/// `DashMap::view` with a closure that reads one block: what
/// `Chunk::get_block` gives for the chunk under `key`, if there is one.
#[verifier::external_body]
fn chunk_map_read_block(
    map: &ChunkMap,
    key: (i32, i32),
    x: i32,
    y: i32,
    z: i32,
) -> (state: Option<u16>)
    ensures
        state == if spec_chunk_map(*map).contains_key(key) {
            Some(spec_chunk_map(*map)[key].spec_get_block(x as int, y as int, z as int))
        } else {
            None
        },
{
    map.view(&key, |_, chunk| chunk.get_block(x, y, z))
}

/// `DashMap::insert`: puts `chunk` under `key`, in place of what was there.
#[verifier::external_body]
fn chunk_map_insert(map: &mut ChunkMap, key: (i32, i32), chunk: Chunk)
    ensures
        spec_chunk_map(*final(map)) == spec_chunk_map(*old(map)).insert(key, chunk),
{
    map.insert(key, chunk);
}

/// `DashMap::alter` with a closure that writes one block: the chunk under
/// `key`, if there is one, becomes what `Chunk::with_block` makes of it.
#[verifier::external_body]
fn chunk_map_write_block(
    map: &mut ChunkMap,
    key: (i32, i32),
    x: i32,
    y: i32,
    z: i32,
    block_state: u16,
)
    ensures
        spec_chunk_map(*final(map)) == if spec_chunk_map(*old(map)).contains_key(key) {
            spec_chunk_map(*old(map)).insert(
                key,
                spec_chunk_map(*old(map))[key].spec_set_block(
                    x as int,
                    y as int,
                    z as int,
                    block_state,
                ),
            )
        } else {
            spec_chunk_map(*old(map))
        },
{
    map.alter(&key, |_, chunk| chunk.with_block(x, y, z, block_state));
}

/// The block at world position (`x`, `y`, `z`) in a set of chunks: that of
/// the chunk that holds the column, air where that chunk is absent.
pub open spec fn spec_world_block(chunks: Map<ChunkPos, Chunk>, x: int, y: int, z: int) -> u16 {
    let pos = ChunkPos { x: (x / 16) as i32, z: (z / 16) as i32 };
    if chunks.contains_key(pos) {
        chunks[pos].spec_get_block(x % 16, y, z % 16)
    } else {
        0
    }
}

/// A set of chunks after a write to world position (`x`, `y`, `z`): the
/// chunk that holds the column takes the write, and is made of air first
/// where it was absent.
pub open spec fn spec_world_set_block(
    chunks: Map<ChunkPos, Chunk>,
    x: int,
    y: int,
    z: int,
    block_state: u16,
) -> Map<ChunkPos, Chunk> {
    let pos = ChunkPos { x: (x / 16) as i32, z: (z / 16) as i32 };
    let chunk = if chunks.contains_key(pos) {
        chunks[pos]
    } else {
        Chunk::spec_new(pos.x, pos.z)
    };
    chunks.insert(pos, chunk.spec_set_block(x % 16, y, z % 16, block_state))
}

/// Every chunk that exists, by its coordinate. Each chunk carries the
/// coordinate that it is stored under.
pub struct World {
    chunks: ChunkMap,
}

impl View for World {
    type V = Map<ChunkPos, Chunk>;

    closed spec fn view(&self) -> Map<ChunkPos, Chunk> {
        Map::new(
            |pos: ChunkPos| spec_chunk_map(self.chunks).contains_key((pos.x, pos.z)),
            |pos: ChunkPos| spec_chunk_map(self.chunks)[(pos.x, pos.z)],
        )
    }
}

impl World {
    /// Whether every chunk carries the coordinate that it is stored under.
    /// Every world that this module hands out is so, and its methods keep
    /// it so.
    pub closed spec fn wf(&self) -> bool {
        forall|key: (i32, i32)| #[trigger]
            spec_chunk_map(self.chunks).contains_key(key) ==> spec_chunk_map(self.chunks)[key].x
                == key.0 && spec_chunk_map(self.chunks)[key].z == key.1
    }

    /// In a well-formed world every chunk carries the coordinate that it is
    /// stored under.
    pub proof fn lemma_keyed_by_coordinate(&self, pos: ChunkPos)
        requires
            self.wf(),
            self@.contains_key(pos),
        ensures
            self@[pos].pos() == pos,
    {
        assert(spec_chunk_map(self.chunks).contains_key((pos.x, pos.z)));
    }

    /// A world without chunks.
    pub fn new() -> (world: World)
        ensures
            world.wf(),
            world@ == Map::<ChunkPos, Chunk>::empty(),
    {
        let world = World { chunks: chunk_map_new(INITIAL_CAPACITY) };
        assert(world@ =~= Map::<ChunkPos, Chunk>::empty());
        world
    }

    pub fn has_chunk(&self, pos: ChunkPos) -> (found: bool)
        ensures
            found == self@.contains_key(pos),
    {
        chunk_map_contains(&self.chunks, (pos.x, pos.z))
    }

    /// A copy of the chunk at `pos`, if there is one. It carries `pos` as
    /// its coordinate.
    pub fn get_chunk(&self, pos: ChunkPos) -> (chunk: Option<Chunk>)
        requires
            self.wf(),
        ensures
            chunk is Some == self@.contains_key(pos),
            chunk matches Some(c) ==> c == self@[pos] && c.pos() == pos,
    {
        let chunk = chunk_map_get(&self.chunks, (pos.x, pos.z));
        proof {
            if chunk is Some {
                assert(spec_chunk_map(self.chunks).contains_key((pos.x, pos.z)));
            }
        }
        chunk
    }

    /// The chunk at `pos`; a chunk of air is put there first where there
    /// was none.
    pub fn create_chunk(&mut self, pos: ChunkPos) -> (chunk: Chunk)
        requires
            old(self).wf(),
        ensures
            final(self).wf(),
            final(self)@ == if old(self)@.contains_key(pos) {
                old(self)@
            } else {
                old(self)@.insert(pos, Chunk::spec_new(pos.x, pos.z))
            },
            chunk == final(self)@[pos],
            chunk.pos() == pos,
    {
        match self.get_chunk(pos) {
            Some(chunk) => chunk,
            None => {
                let chunk = Chunk::new(pos.x, pos.z);
                self.put(pos, chunk);
                chunk
            },
        }
    }

    /// Puts `chunk` at the coordinate that it carries, in place of what was
    /// there.
    pub fn insert_chunk(&mut self, chunk: Chunk)
        requires
            old(self).wf(),
        ensures
            final(self).wf(),
            final(self)@ == old(self)@.insert(chunk.pos(), chunk),
    {
        self.put(ChunkPos::new(chunk.x, chunk.z), chunk);
    }

    fn put(&mut self, pos: ChunkPos, chunk: Chunk)
        requires
            old(self).wf(),
            chunk.pos() == pos,
        ensures
            final(self).wf(),
            final(self)@ == old(self)@.insert(pos, chunk),
    {
        let ghost before = spec_chunk_map(self.chunks);
        chunk_map_insert(&mut self.chunks, (pos.x, pos.z), chunk);
        proof {
            assert forall|key: (i32, i32)| #[trigger]
                spec_chunk_map(self.chunks).contains_key(key) implies spec_chunk_map(
                self.chunks,
            )[key].x == key.0 && spec_chunk_map(self.chunks)[key].z == key.1 by {
                if key != (pos.x, pos.z) {
                    assert(before.contains_key(key));
                }
            }
            assert(self@ =~= old(self)@.insert(pos, chunk));
        }
    }

    /// The state of the block at (`x`, `y`, `z`); air where the chunk is
    /// absent and outside the world's height.
    pub fn get_block(&self, x: i32, y: i32, z: i32) -> (state: u16)
        ensures
            state == spec_world_block(self@, x as int, y as int, z as int),
    {
        let pos = ChunkPos::from_block_pos(x, z);
        let local_x: i32 = x & 0x0f;
        let local_z: i32 = z & 0x0f;
        assert(local_x == x as int % 16) by (bit_vector)
            requires
                local_x == x & 0x0f,
        ;
        assert(local_z == z as int % 16) by (bit_vector)
            requires
                local_z == z & 0x0f,
        ;
        match chunk_map_read_block(&self.chunks, (pos.x, pos.z), local_x, y, local_z) {
            Some(state) => state,
            None => 0,
        }
    }

    /// Sets the block at (`x`, `y`, `z`). The chunk is made where it was
    /// absent. A `y` outside the world's height changes no block.
    pub fn set_block(&mut self, x: i32, y: i32, z: i32, block_state: u16)
        requires
            old(self).wf(),
        ensures
            final(self).wf(),
            final(self)@ == spec_world_set_block(
                old(self)@,
                x as int,
                y as int,
                z as int,
                block_state,
            ),
    {
        let pos = ChunkPos::from_block_pos(x, z);
        let local_x: i32 = x & 0x0f;
        let local_z: i32 = z & 0x0f;
        assert(local_x == x as int % 16) by (bit_vector)
            requires
                local_x == x & 0x0f,
        ;
        assert(local_z == z as int % 16) by (bit_vector)
            requires
                local_z == z & 0x0f,
        ;
        let _ = self.create_chunk(pos);
        let ghost created = self@;
        let ghost before = spec_chunk_map(self.chunks);
        assert(before.contains_key((pos.x, pos.z))) by {
            assert(created.contains_key(pos));
        }
        chunk_map_write_block(&mut self.chunks, (pos.x, pos.z), local_x, y, local_z, block_state);
        proof {
            assert forall|key: (i32, i32)| #[trigger]
                spec_chunk_map(self.chunks).contains_key(key) implies spec_chunk_map(
                self.chunks,
            )[key].x == key.0 && spec_chunk_map(self.chunks)[key].z == key.1 by {
                assert(before.contains_key(key));
            }
            let written = created[pos].spec_set_block(
                local_x as int,
                y as int,
                local_z as int,
                block_state,
            );
            assert(before[(pos.x, pos.z)] == created[pos]);
            assert forall|p: ChunkPos| self@.contains_key(p) == created.insert(
                pos,
                written,
            ).contains_key(p) by {
                assert(spec_chunk_map(self.chunks).contains_key((p.x, p.z)) == (before.contains_key(
                    (p.x, p.z),
                ) || (p.x, p.z) == (pos.x, pos.z)));
                assert(created.contains_key(p) == before.contains_key((p.x, p.z)));
            }
            assert forall|p: ChunkPos| #[trigger] self@.contains_key(p) implies self@[p]
                == created.insert(pos, written)[p] by {
                if p != pos {
                    assert((p.x, p.z) != (pos.x, pos.z));
                    assert(created[p] == before[(p.x, p.z)]);
                }
            }
            assert(self@ =~= created.insert(pos, written));
            assert(pos == (ChunkPos { x: (x as int / 16) as i32, z: (z as int / 16) as i32 }));
            assert(self@ =~= spec_world_set_block(
                old(self)@,
                x as int,
                y as int,
                z as int,
                block_state,
            ));
        }
    }
}

} // verus!
