//! Block and chunk coordinates, block states, sections and chunks.
//!
//! A chunk is a 16x256x16 column of blocks, cut into sixteen sections that are
//! stacked by height. A section that holds only air is absent.

pub mod chunk_set;
pub mod sched;
pub mod store;

use std::time::{SystemTime, UNIX_EPOCH};
use vstd::prelude::*;

verus! {

/// Smallest x or z that fits the 26 bits of a packed position.
pub const PACKED_XZ_MIN: i32 = -0x200_0000;

/// Largest x or z that fits the 26 bits of a packed position.
pub const PACKED_XZ_MAX: i32 = 0x1FF_FFFF;

/// Smallest y that fits the 12 bits of a packed position.
pub const PACKED_Y_MIN: i32 = -0x800;

/// Largest y that fits the 12 bits of a packed position.
pub const PACKED_Y_MAX: i32 = 0x7FF;

/// The block state that an id and a metadata nibble make up: the id in the
/// high bits, the low four bits of the metadata below it.
pub open spec fn spec_block_state(id: u8, meta: u16) -> u16 {
    (id as u16 * 16 + meta % 16) as u16
}

/// The block id of a state: everything above the metadata nibble.
pub open spec fn spec_block_id(state: u16) -> u16 {
    state / 16
}

/// The metadata nibble of a state.
pub open spec fn spec_block_meta(state: u16) -> u16 {
    state % 16
}

/// Packs a block id and metadata into a block state.
pub fn block_state(id: u8, meta: u16) -> (state: u16)
    ensures
        state == spec_block_state(id, meta),
        spec_block_id(state) == id,
        spec_block_meta(state) == meta % 16,
{
    let low: u16 = meta & 0x0f;
    assert(low == meta % 16) by (bit_vector)
        requires
            low == meta & 0x0f,
    ;
    let high: u16 = (id as u16) << 4;
    assert(high == id as u16 * 16) by (bit_vector)
        requires
            high == (id as u16) << 4,
    ;
    let state: u16 = high | low;
    assert(state == high + low) by (bit_vector)
        requires
            state == high | low,
            low < 16,
            high % 16 == 0,
    ;
    state
}

/// The block id of a state.
pub fn block_id(state: u16) -> (id: u16)
    ensures
        id == spec_block_id(state),
        id < 4096,
{
    let id: u16 = state >> 4;
    assert(id == state / 16) by (bit_vector)
        requires
            id == state >> 4,
    ;
    id
}

/// The metadata nibble of a state.
pub fn block_meta(state: u16) -> (meta: u16)
    ensures
        meta == spec_block_meta(state),
        meta < 16,
{
    let meta: u16 = state & 0x0f;
    assert(meta == state % 16) by (bit_vector)
        requires
            meta == state & 0x0f,
    ;
    meta
}

/// A side of a block, or `Special` where no side is meant.
#[derive(Clone, Copy, Debug, PartialEq, Eq, Structural)]
pub enum BlockFace {
    NegY,
    PosY,
    NegZ,
    PosZ,
    NegX,
    PosX,
    Special,
}

impl BlockFace {
    /// The face that a wire byte stands for, if any.
    pub open spec fn spec_from_u8(val: u8) -> Option<BlockFace> {
        if val == 0 {
            Some(BlockFace::NegY)
        } else if val == 1 {
            Some(BlockFace::PosY)
        } else if val == 2 {
            Some(BlockFace::NegZ)
        } else if val == 3 {
            Some(BlockFace::PosZ)
        } else if val == 4 {
            Some(BlockFace::NegX)
        } else if val == 5 {
            Some(BlockFace::PosX)
        } else if val == 255 {
            Some(BlockFace::Special)
        } else {
            None
        }
    }

    /// The wire byte of a face.
    pub open spec fn spec_to_u8(self) -> u8 {
        match self {
            BlockFace::NegY => 0,
            BlockFace::PosY => 1,
            BlockFace::NegZ => 2,
            BlockFace::PosZ => 3,
            BlockFace::NegX => 4,
            BlockFace::PosX => 5,
            BlockFace::Special => 255,
        }
    }

    /// Reads a face from its wire byte; `None` for a byte that names no face.
    pub fn from_u8(val: u8) -> (face: Option<BlockFace>)
        ensures
            face == Self::spec_from_u8(val),
    {
        match val {
            0 => Some(BlockFace::NegY),
            1 => Some(BlockFace::PosY),
            2 => Some(BlockFace::NegZ),
            3 => Some(BlockFace::PosZ),
            4 => Some(BlockFace::NegX),
            5 => Some(BlockFace::PosX),
            255 => Some(BlockFace::Special),
            _ => None,
        }
    }

    /// The wire byte of a face.
    pub fn to_u8(self) -> (val: u8)
        ensures
            val == self.spec_to_u8(),
            Self::spec_from_u8(val) == Some(self),
    {
        match self {
            BlockFace::NegY => 0,
            BlockFace::PosY => 1,
            BlockFace::NegZ => 2,
            BlockFace::PosZ => 3,
            BlockFace::NegX => 4,
            BlockFace::PosX => 5,
            BlockFace::Special => 255,
        }
    }
}

/// Position of one block in the world.
#[derive(Clone, Copy, Debug, PartialEq, Eq, Structural, Hash)]
pub struct BlockPos {
    pub x: i32,
    pub y: i32,
    pub z: i32,
}

impl BlockPos {
    /// Whether the position survives packing into 64 bits: x and z fit 26
    /// signed bits, y fits 12.
    pub open spec fn packable(self) -> bool {
        &&& PACKED_XZ_MIN <= self.x <= PACKED_XZ_MAX
        &&& PACKED_Y_MIN <= self.y <= PACKED_Y_MAX
        &&& PACKED_XZ_MIN <= self.z <= PACKED_XZ_MAX
    }

    /// The packed form: x in the high 26 bits, y in the middle 12, z in the
    /// low 26, each in two's complement of its width.
    pub open spec fn spec_to_u64(self) -> u64 {
        ((self.x as int % 0x400_0000) * 0x40_0000_0000 + (self.y as int % 0x1000) * 0x400_0000 + (
        self.z as int % 0x400_0000)) as u64
    }

    /// The value of the low `bits` bits of `val` read as a signed number.
    pub open spec fn spec_to_signed(val: u64, bits: u32) -> int {
        if val >= vstd::arithmetic::power2::pow2((bits - 1) as nat) {
            val - vstd::arithmetic::power2::pow2(bits as nat)
        } else {
            val as int
        }
    }

    /// The position that a packed value stands for.
    pub open spec fn spec_from_u64(value: u64) -> BlockPos {
        let x = value as int / 0x40_0000_0000;
        let y = (value as int / 0x400_0000) % 0x1000;
        let z = value as int % 0x400_0000;
        BlockPos {
            x: (if x >= 0x200_0000 {
                x - 0x400_0000
            } else {
                x
            }) as i32,
            y: (if y >= 0x800 {
                y - 0x1000
            } else {
                y
            }) as i32,
            z: (if z >= 0x200_0000 {
                z - 0x400_0000
            } else {
                z
            }) as i32,
        }
    }

    /// The neighbour of a position across `face`.
    pub open spec fn spec_offset(self, face: BlockFace) -> (int, int, int) {
        match face {
            BlockFace::PosY => (self.x as int, self.y + 1, self.z as int),
            BlockFace::NegY => (self.x as int, self.y - 1, self.z as int),
            BlockFace::PosZ => (self.x as int, self.y as int, self.z + 1),
            BlockFace::NegZ => (self.x as int, self.y as int, self.z - 1),
            BlockFace::PosX => (self.x + 1, self.y as int, self.z as int),
            BlockFace::NegX => (self.x - 1, self.y as int, self.z as int),
            BlockFace::Special => (self.x as int, self.y as int, self.z as int),
        }
    }

    /// Whether `offset` is defined: the face is a real side and the
    /// neighbour's coordinates are representable.
    pub open spec fn can_offset(self, face: BlockFace) -> bool {
        &&& face != BlockFace::Special
        &&& i32::MIN <= self.spec_offset(face).0 <= i32::MAX
        &&& i32::MIN <= self.spec_offset(face).1 <= i32::MAX
        &&& i32::MIN <= self.spec_offset(face).2 <= i32::MAX
    }

    /// The block that holds the point whose coordinates are the 64-bit
    /// floats with the given bits: each coordinate cut to an integer.
    pub open spec fn spec_from_pos(x: u64, y: u64, z: u64) -> BlockPos {
        BlockPos {
            x: crate::float_bits::spec_double_to_i32(x),
            y: crate::float_bits::spec_double_to_i32(y),
            z: crate::float_bits::spec_double_to_i32(z),
        }
    }

    /// The block that holds the point whose coordinates are the 64-bit
    /// floats with the given bits.
    pub fn from_pos(x: u64, y: u64, z: u64) -> (pos: BlockPos)
        ensures
            pos == Self::spec_from_pos(x, y, z),
    {
        BlockPos {
            x: crate::float_bits::double_to_i32(x),
            y: crate::float_bits::double_to_i32(y),
            z: crate::float_bits::double_to_i32(z),
        }
    }

    pub fn new(x: i32, y: i32, z: i32) -> (pos: BlockPos)
        ensures
            pos == (BlockPos { x, y, z }),
    {
        BlockPos { x, y, z }
    }

    /// The neighbouring position across `face`.
    pub fn offset(&self, face: BlockFace) -> (pos: BlockPos)
        requires
            self.can_offset(face),
        ensures
            (pos.x as int, pos.y as int, pos.z as int) == self.spec_offset(face),
    {
        match face {
            BlockFace::PosY => BlockPos::new(self.x, self.y + 1, self.z),
            BlockFace::NegY => BlockPos::new(self.x, self.y - 1, self.z),
            BlockFace::PosZ => BlockPos::new(self.x, self.y, self.z + 1),
            BlockFace::NegZ => BlockPos::new(self.x, self.y, self.z - 1),
            BlockFace::PosX => BlockPos::new(self.x + 1, self.y, self.z),
            _ => BlockPos::new(self.x - 1, self.y, self.z),
        }
    }

    /// The neighbouring position across `face`, or `None` where there is
    /// none: for `Special`, and where a coordinate would leave the `i32` range.
    pub fn checked_offset(&self, face: BlockFace) -> (pos: Option<BlockPos>)
        ensures
            pos.is_some() == self.can_offset(face),
            pos.is_some() ==> (pos.unwrap().x as int, pos.unwrap().y as int, pos.unwrap().z as int)
                == self.spec_offset(face),
    {
        let fits = match face {
            BlockFace::PosY => self.y < i32::MAX,
            BlockFace::NegY => self.y > i32::MIN,
            BlockFace::PosZ => self.z < i32::MAX,
            BlockFace::NegZ => self.z > i32::MIN,
            BlockFace::PosX => self.x < i32::MAX,
            BlockFace::NegX => self.x > i32::MIN,
            BlockFace::Special => false,
        };
        if fits {
            Some(self.offset(face))
        } else {
            None
        }
    }

    /// Packs the position into 64 bits. Coordinates outside the packable
    /// range lose their high bits.
    pub fn to_u64(&self) -> (packed: u64)
        ensures
            packed == self.spec_to_u64(),
            self.packable() ==> Self::spec_from_u64(packed) == *self,
    {
        let x: u64 = (self.x & 0x3FF_FFFF) as u64;
        let y: u64 = (self.y & 0xFFF) as u64;
        let z: u64 = (self.z & 0x3FF_FFFF) as u64;
        let packed: u64 = (x << 38) | (y << 26) | z;
        let sx = self.x;
        let sy = self.y;
        let sz = self.z;
        assert(x == sx as int % 0x400_0000 && x < 0x400_0000) by (bit_vector)
            requires
                x == (sx & 0x3FF_FFFF) as u64,
        ;
        assert(y == sy as int % 0x1000 && y < 0x1000) by (bit_vector)
            requires
                y == (sy & 0xFFF) as u64,
        ;
        assert(z == sz as int % 0x400_0000 && z < 0x400_0000) by (bit_vector)
            requires
                z == (sz & 0x3FF_FFFF) as u64,
        ;
        assert(packed == x * 0x40_0000_0000 + y * 0x400_0000 + z) by (bit_vector)
            requires
                packed == (x << 38) | (y << 26) | z,
                x < 0x400_0000,
                y < 0x1000,
                z < 0x400_0000,
        ;
        packed
    }

    /// Reads the low `bits` bits of `val` as a signed number.
    pub fn to_signed(val: u64, bits: u32) -> (signed: i32)
        requires
            0 < bits < 32,
            val < vstd::arithmetic::power2::pow2(bits as nat),
        ensures
            signed == Self::spec_to_signed(val, bits),
    {
        proof {
            vstd::arithmetic::power2::lemma_pow2_strictly_increases(bits as nat, 32);
            vstd::arithmetic::power2::lemma2_to64();
            vstd::arithmetic::power2::lemma_pow2_unfold(bits as nat);
        }
        let half: u64 = 1u64 << (bits - 1);
        let full: u64 = 1u64 << bits;
        proof {
            vstd::bits::lemma_u64_shl_is_mul(1u64, (bits - 1) as u64);
            vstd::bits::lemma_u64_shl_is_mul(1u64, bits as u64);
        }
        if val >= half {
            (val as i64 - full as i64) as i32
        } else {
            val as i32
        }
    }

    /// Unpacks a position from 64 bits, extending the sign of each field.
    pub fn from_u64(value: u64) -> (pos: BlockPos)
        ensures
            pos == Self::spec_from_u64(value),
            pos.packable(),
            pos.spec_to_u64() == value,
    {
        let x: u64 = value >> 38;
        let y: u64 = (value >> 26) & 0xFFF;
        let z: u64 = value & 0x3FF_FFFF;
        assert(x == value / 0x40_0000_0000 && x < 0x400_0000) by (bit_vector)
            requires
                x == value >> 38,
        ;
        assert(y == (value / 0x400_0000) % 0x1000 && y < 0x1000) by (bit_vector)
            requires
                y == (value >> 26) & 0xFFF,
        ;
        assert(z == value % 0x400_0000 && z < 0x400_0000) by (bit_vector)
            requires
                z == value & 0x3FF_FFFF,
        ;
        proof {
            vstd::arithmetic::power2::lemma2_to64();
            assert(vstd::arithmetic::power2::pow2(26) == 0x400_0000) by {
                vstd::arithmetic::power2::lemma2_to64_rest();
                vstd::arithmetic::power2::lemma_pow2_adds(24, 2);
            }
            assert(vstd::arithmetic::power2::pow2(25) == 0x200_0000) by {
                vstd::arithmetic::power2::lemma_pow2_adds(24, 1);
            }
            assert(vstd::arithmetic::power2::pow2(12) == 0x1000) by {
                vstd::arithmetic::power2::lemma_pow2_adds(8, 4);
            }
            assert(vstd::arithmetic::power2::pow2(11) == 0x800) by {
                vstd::arithmetic::power2::lemma_pow2_adds(8, 3);
            }
        }
        BlockPos {
            x: Self::to_signed(x, 26),
            y: Self::to_signed(y, 12),
            z: Self::to_signed(z, 26),
        }
    }
}

/// A position inside the packed range packs and unpacks to itself.
pub proof fn lemma_block_pos_roundtrip(pos: BlockPos)
    requires
        pos.packable(),
    ensures
        BlockPos::spec_from_u64(pos.spec_to_u64()) == pos,
{
    let x = pos.x as int % 0x400_0000;
    let y = pos.y as int % 0x1000;
    let z = pos.z as int % 0x400_0000;
    let low = y * 0x400_0000 + z;
    let v = x * 0x40_0000_0000 + low;
    assert(0 <= low < 0x40_0000_0000);
    assert(0 <= v < 0x1_0000_0000_0000_0000);
    assert(pos.spec_to_u64() == v);
    vstd::arithmetic::div_mod::lemma_fundamental_div_mod_converse(v, 0x40_0000_0000, x, low);
    vstd::arithmetic::div_mod::lemma_fundamental_div_mod_converse(
        v,
        0x400_0000,
        x * 0x1000 + y,
        z,
    );
    vstd::arithmetic::div_mod::lemma_fundamental_div_mod_converse(x * 0x1000 + y, 0x1000, x, y);
    assert(x == if pos.x < 0 {
        pos.x + 0x400_0000
    } else {
        pos.x as int
    });
    assert(y == if pos.y < 0 {
        pos.y + 0x1000
    } else {
        pos.y as int
    });
    assert(z == if pos.z < 0 {
        pos.z + 0x400_0000
    } else {
        pos.z as int
    });
}

/// Coordinate of a chunk: a 16x16 column of blocks.
#[derive(Clone, Copy, Debug, PartialEq, Eq, Structural, Hash)]
pub struct ChunkPos {
    pub x: i32,
    pub z: i32,
}

impl ChunkPos {
    pub fn new(x: i32, z: i32) -> (pos: ChunkPos)
        ensures
            pos == (ChunkPos { x, z }),
    {
        ChunkPos { x, z }
    }

    /// The chunk that holds the block column at (`x`, `z`): both coordinates
    /// divided by 16, rounded down.
    pub open spec fn spec_from_block_pos(x: i32, z: i32) -> ChunkPos {
        ChunkPos { x: (x as int / 16) as i32, z: (z as int / 16) as i32 }
    }

    /// The chunk that holds the block column at (`x`, `z`).
    pub fn from_block_pos(x: i32, z: i32) -> (pos: ChunkPos)
        ensures
            pos == Self::spec_from_block_pos(x, z),
            pos.x == x as int / 16,
            pos.z == z as int / 16,
    {
        let cx: i32 = x >> 4;
        let cz: i32 = z >> 4;
        assert(cx == x as int / 16) by (bit_vector)
            requires
                cx == x >> 4,
        ;
        assert(cz == z as int / 16) by (bit_vector)
            requires
                cz == z >> 4,
        ;
        ChunkPos::new(cx, cz)
    }
}

/// One 16x16x16 cube of block states, laid out y-major, then z, then x.
#[derive(Clone, Copy, Debug, PartialEq, Eq)]
pub struct Section {
    pub data: [u16; 4096],
}

impl Section {
    /// Whether (`x`, `y`, `z`) names a cell of a section.
    pub open spec fn in_bounds(x: int, y: int, z: int) -> bool {
        0 <= x < 16 && 0 <= y < 16 && 0 <= z < 16
    }

    /// The place of cell (`x`, `y`, `z`) in `data`.
    pub open spec fn spec_index(x: int, y: int, z: int) -> int {
        x + 16 * (z + 16 * y)
    }

    /// The section that holds only air.
    pub open spec fn spec_air() -> Section {
        Section { data: vstd::array::spec_array_fill_for_copy_type::<u16, 4096>(0) }
    }

    /// The state of cell (`x`, `y`, `z`); air outside the section.
    pub open spec fn spec_get_block(self, x: int, y: int, z: int) -> u16 {
        if Self::in_bounds(x, y, z) {
            self.data@[Self::spec_index(x, y, z)]
        } else {
            0
        }
    }

    /// The section with cell (`x`, `y`, `z`) set to `block_state`; unchanged
    /// where the cell lies outside the section.
    pub open spec fn spec_set_block(self, x: int, y: int, z: int, block_state: u16) -> Section {
        if Self::in_bounds(x, y, z) {
            Section {
                data: vstd::array::spec_array_update(
                    self.data,
                    Self::spec_index(x, y, z),
                    block_state,
                ),
            }
        } else {
            self
        }
    }

    /// A section of air.
    pub fn new() -> (section: Section)
        ensures
            section == Self::spec_air(),
    {
        Section { data: [0; 4096] }
    }

    pub fn get_block(&self, x: i32, y: i32, z: i32) -> (state: u16)
        ensures
            state == self.spec_get_block(x as int, y as int, z as int),
    {
        if x < 0 || y < 0 || z < 0 || x > 15 || y > 15 || z > 15 {
            return 0;
        }
        let block_idx: i32 = x + 16 * (z + 16 * y);
        self.data[block_idx as usize]
    }

    pub fn set_block(&mut self, x: i32, y: i32, z: i32, block_state: u16)
        ensures
            *final(self) == old(self).spec_set_block(x as int, y as int, z as int, block_state),
    {
        if x < 0 || y < 0 || z < 0 || x > 15 || y > 15 || z > 15 {
            return ;
        }
        let block_idx: i32 = x + 16 * (z + 16 * y);
        self.data[block_idx as usize] = block_state;
        assert(self.data =~= old(self).spec_set_block(
            x as int,
            y as int,
            z as int,
            block_state,
        ).data);
    }
}

/// A 16x256x16 column of blocks with its biome map and its coordinate.
#[derive(Clone, Copy, Debug, PartialEq, Eq)]
pub struct Chunk {
    pub x: i32,
    pub z: i32,
    pub sections: [Option<Section>; 16],
    pub biomes: [u8; 256],
}

impl Chunk {
    /// The coordinate that the chunk carries.
    pub open spec fn pos(self) -> ChunkPos {
        ChunkPos { x: self.x, z: self.z }
    }

    /// The chunk at (`x`, `z`) that holds only air.
    pub open spec fn spec_new(x: i32, z: i32) -> Chunk {
        Chunk {
            x,
            z,
            sections: vstd::array::spec_array_fill_for_copy_type::<Option<Section>, 16>(None),
            biomes: vstd::array::spec_array_fill_for_copy_type::<u8, 256>(0),
        }
    }

    /// The section of height slab `idx`, air where it is absent.
    pub open spec fn spec_section(self, idx: int) -> Section {
        match self.sections@[idx] {
            Some(section) => section,
            None => Section::spec_air(),
        }
    }

    /// The state of the block at (`x`, `y`, `z`), `x` and `z` counted inside
    /// the chunk; air outside the chunk and in absent sections.
    pub open spec fn spec_get_block(self, x: int, y: int, z: int) -> u16 {
        if 0 <= y < 256 {
            self.spec_section(y / 16).spec_get_block(x, y % 16, z)
        } else {
            0
        }
    }

    /// The chunk after a write of `block_state` to (`x`, `y`, `z`). A `y`
    /// outside the chunk changes nothing; otherwise the slab's section exists
    /// afterwards, and holds the write if (`x`, `z`) lies inside it.
    pub open spec fn spec_set_block(self, x: int, y: int, z: int, block_state: u16) -> Chunk {
        if 0 <= y < 256 {
            Chunk {
                sections: vstd::array::spec_array_update(
                    self.sections,
                    y / 16,
                    Some(self.spec_section(y / 16).spec_set_block(x, y % 16, z, block_state)),
                ),
                ..self
            }
        } else {
            self
        }
    }

    /// The chunk after a write that only replaces air. In a slab whose section
    /// is absent the write always lands, for an absent section is air.
    pub open spec fn spec_set_block_if_air(self, x: int, y: int, z: int, block_state: u16) -> Chunk {
        if self.spec_get_block(x, y, z) == 0 {
            self.spec_set_block(x, y, z, block_state)
        } else {
            self
        }
    }

    /// Whether `set_biome` accepts (`x`, `z`): the entry `z * 16 + x` exists.
    pub open spec fn biome_in_bounds(x: int, z: int) -> bool {
        0 <= z * 16 + x < 256
    }

    /// The chunk with the biome of column (`x`, `z`) set.
    pub open spec fn spec_set_biome(self, x: int, z: int, biome: u8) -> Chunk {
        Chunk { biomes: vstd::array::spec_array_update(self.biomes, z * 16 + x, biome), ..self }
    }

    /// A chunk of air at (`x`, `z`).
    pub fn new(x: i32, z: i32) -> (chunk: Chunk)
        ensures
            chunk == Self::spec_new(x, z),
            chunk.pos() == (ChunkPos { x, z }),
    {
        Chunk { x, z, sections: [None; 16], biomes: [0; 256] }
    }

    pub fn get_block(&self, x: i32, y: i32, z: i32) -> (state: u16)
        ensures
            state == self.spec_get_block(x as int, y as int, z as int),
    {
        if y < 0 || y > 255 {
            return 0;
        }
        let section_idx: i32 = y >> 4;
        let local_y: i32 = y & 0x0f;
        assert(section_idx == y / 16 && local_y == y % 16) by (bit_vector)
            requires
                0 <= y < 256,
                section_idx == y >> 4,
                local_y == y & 0x0f,
        ;
        proof {
            broadcast use vstd::array::group_array_axioms;

        }
        match &self.sections[section_idx as usize] {
            Some(section) => section.get_block(x, local_y, z),
            None => 0,
        }
    }

    pub fn set_block_if_air(&mut self, x: i32, y: i32, z: i32, block_state: u16)
        ensures
            *final(self) == old(self).spec_set_block_if_air(
                x as int,
                y as int,
                z as int,
                block_state,
            ),
    {
        if self.get_block(x, y, z) == 0 {
            self.set_block(x, y, z, block_state);
        }
    }

    pub fn set_block(&mut self, x: i32, y: i32, z: i32, block_state: u16)
        ensures
            *final(self) == old(self).spec_set_block(x as int, y as int, z as int, block_state),
    {
        if y < 0 || y > 255 {
            return ;
        }
        let section_idx: i32 = y >> 4;
        let local_y: i32 = y & 0x0f;
        assert(section_idx == y / 16 && local_y == y % 16) by (bit_vector)
            requires
                0 <= y < 256,
                section_idx == y >> 4,
                local_y == y & 0x0f,
        ;
        let idx: usize = section_idx as usize;
        if self.sections[idx].is_none() {
            self.sections[idx] = Some(Section::new());
        }
        match &mut self.sections[idx] {
            Some(section) => {
                section.set_block(x, local_y, z, block_state);
            },
            None => {},
        }
        proof {
            broadcast use vstd::array::group_array_axioms;

            assert(self.sections =~= old(self).spec_set_block(
                x as int,
                y as int,
                z as int,
                block_state,
            ).sections);
        }
    }

    /// The chunk with the block at (`x`, `y`, `z`) set.
    pub fn with_block(self, x: i32, y: i32, z: i32, block_state: u16) -> (chunk: Chunk)
        ensures
            chunk == self.spec_set_block(x as int, y as int, z as int, block_state),
    {
        let mut chunk = self;
        chunk.set_block(x, y, z, block_state);
        chunk
    }

    pub fn set_biome(&mut self, x: i32, z: i32, biome: u8)
        requires
            Self::biome_in_bounds(x as int, z as int),
        ensures
            *final(self) == old(self).spec_set_biome(x as int, z as int, biome),
    {
        let idx: i64 = z as i64 * 16 + x as i64;
        self.biomes[idx as usize] = biome;
        proof {
            broadcast use vstd::array::group_array_axioms;

            assert(self.biomes =~= old(self).spec_set_biome(x as int, z as int, biome).biomes);
        }
    }
}

/// `SystemTime::now` of std, as whole seconds since the Unix epoch; zero
/// where the clock stands before it.
#[verifier::external_body]
fn unix_time_secs() -> (secs: u64) {
    SystemTime::now().duration_since(UNIX_EPOCH).map(|d| d.as_secs()).unwrap_or(0)
}

/// The seed that a time in seconds gives: its low 32 bits.
pub fn seed_from_secs(secs: u64) -> (seed: u32)
    ensures
        seed == secs % 0x1_0000_0000,
{
    (secs % 0x1_0000_0000) as u32
}

/// A seed for the world generator, taken from the clock.
pub fn random_seed() -> (seed: u32) {
    seed_from_secs(unix_time_secs())
}

} // verus!
