use rustcraft::world::store::World;
use rustcraft::world::{
    block_id, block_meta, block_state, random_seed, seed_from_secs, BlockFace, BlockPos, Chunk,
    ChunkPos, Section,
};

#[test]
fn block_state_packs_id_and_meta() {
    assert_eq!(block_state(1, 0), 16);
    assert_eq!(block_state(31, 1), 31 * 16 + 1);
    assert_eq!(block_state(255, 0x1f), 255 * 16 + 15);
    assert_eq!(block_id(block_state(31, 2)), 31);
    assert_eq!(block_meta(block_state(31, 2)), 2);
    assert_eq!(block_id(0), 0);
}

#[test]
fn block_pos_packs_into_64_bits() {
    assert_eq!(BlockPos::new(0, 0, 0).to_u64(), 0);
    assert_eq!(BlockPos::new(1, 2, 3).to_u64(), (1u64 << 38) | (2u64 << 26) | 3);
    assert_eq!(BlockPos::new(0, 63, 0).to_u64(), 63u64 << 26);
    assert_eq!(BlockPos::new(-1, -1, -1).to_u64(), u64::MAX);
    assert_eq!(
        BlockPos::new(-2, 5, -7).to_u64(),
        (0x3fffffeu64 << 38) | (5u64 << 26) | 0x3fffff9
    );
}

#[test]
fn block_pos_unpacks_with_sign_extension() {
    assert_eq!(BlockPos::from_u64(u64::MAX), BlockPos::new(-1, -1, -1));
    assert_eq!(BlockPos::from_u64((1u64 << 38) | (2u64 << 26) | 3), BlockPos::new(1, 2, 3));
    assert_eq!(BlockPos::from_u64(0x2000000u64 << 38), BlockPos::new(-33554432, 0, 0));
    assert_eq!(BlockPos::from_u64(0x800u64 << 26), BlockPos::new(0, -2048, 0));
    assert_eq!(BlockPos::from_u64(0x1ffffff), BlockPos::new(0, 0, 33554431));
}

#[test]
fn block_pos_round_trips_inside_the_packed_range() {
    for pos in [
        BlockPos::new(0, 0, 0),
        BlockPos::new(33554431, 2047, 33554431),
        BlockPos::new(-33554432, -2048, -33554432),
        BlockPos::new(123, 64, -456),
    ] {
        assert_eq!(BlockPos::from_u64(pos.to_u64()), pos);
    }
}

#[test]
fn block_pos_outside_the_packed_range_loses_high_bits() {
    let pos = BlockPos::new(33554432, 0, 0);
    assert_eq!(BlockPos::from_u64(pos.to_u64()), BlockPos::new(-33554432, 0, 0));
}

#[test]
fn to_signed_reads_twos_complement() {
    assert_eq!(BlockPos::to_signed(0, 12), 0);
    assert_eq!(BlockPos::to_signed(2047, 12), 2047);
    assert_eq!(BlockPos::to_signed(2048, 12), -2048);
    assert_eq!(BlockPos::to_signed(4095, 12), -1);
    assert_eq!(BlockPos::to_signed(0x3ffffff, 26), -1);
}

#[test]
fn block_pos_offsets_by_face() {
    let pos = BlockPos::new(1, 2, 3);
    assert_eq!(pos.offset(BlockFace::PosY), BlockPos::new(1, 3, 3));
    assert_eq!(pos.offset(BlockFace::NegY), BlockPos::new(1, 1, 3));
    assert_eq!(pos.offset(BlockFace::PosZ), BlockPos::new(1, 2, 4));
    assert_eq!(pos.offset(BlockFace::NegZ), BlockPos::new(1, 2, 2));
    assert_eq!(pos.offset(BlockFace::PosX), BlockPos::new(2, 2, 3));
    assert_eq!(pos.offset(BlockFace::NegX), BlockPos::new(0, 2, 3));
    assert_eq!(pos.checked_offset(BlockFace::Special), None);
    assert_eq!(BlockPos::new(i32::MAX, 0, 0).checked_offset(BlockFace::PosX), None);
    assert_eq!(
        BlockPos::new(i32::MAX, 0, 0).checked_offset(BlockFace::NegX),
        Some(BlockPos::new(i32::MAX - 1, 0, 0))
    );
}

#[test]
fn block_pos_from_pos_truncates() {
    let pos = BlockPos::from_pos(17.5f64.to_bits(), 65.0f64.to_bits(), (-0.5f64).to_bits());
    assert_eq!(pos, BlockPos::new(17, 65, 0));
    let pos = BlockPos::from_pos((-17.5f64).to_bits(), 0.0f64.to_bits(), 1e20f64.to_bits());
    assert_eq!(pos, BlockPos::new(-17, 0, i32::MAX));
}

#[test]
fn block_face_wire_bytes() {
    assert_eq!(BlockFace::from_u8(0), Some(BlockFace::NegY));
    assert_eq!(BlockFace::from_u8(5), Some(BlockFace::PosX));
    assert_eq!(BlockFace::from_u8(255), Some(BlockFace::Special));
    assert_eq!(BlockFace::from_u8(6), None);
    for face in [
        BlockFace::NegY,
        BlockFace::PosY,
        BlockFace::NegZ,
        BlockFace::PosZ,
        BlockFace::NegX,
        BlockFace::PosX,
        BlockFace::Special,
    ] {
        assert_eq!(BlockFace::from_u8(face.to_u8()), Some(face));
    }
}

#[test]
fn chunk_pos_is_block_pos_shifted_by_four() {
    assert_eq!(ChunkPos::from_block_pos(0, 0), ChunkPos::new(0, 0));
    assert_eq!(ChunkPos::from_block_pos(15, 16), ChunkPos::new(0, 1));
    assert_eq!(ChunkPos::from_block_pos(17, 0), ChunkPos::new(1, 0));
    assert_eq!(ChunkPos::from_block_pos(-1, -16), ChunkPos::new(-1, -1));
    assert_eq!(ChunkPos::from_block_pos(-17, 31), ChunkPos::new(-2, 1));
    assert_eq!(ChunkPos::from_block_pos(i32::MIN, i32::MAX), ChunkPos::new(-134217728, 134217727));
}

#[test]
fn section_is_laid_out_y_then_z_then_x() {
    let mut section = Section::new();
    section.set_block(1, 2, 3, 77);
    assert_eq!(section.data[1 + 16 * (3 + 16 * 2)], 77);
    assert_eq!(section.get_block(1, 2, 3), 77);
    assert_eq!(section.get_block(3, 2, 1), 0);
    assert_eq!(section.data.iter().filter(|s| **s != 0).count(), 1);
}

#[test]
fn section_ignores_cells_outside_itself() {
    let mut section = Section::new();
    section.set_block(16, 0, 0, 5);
    section.set_block(0, -1, 0, 5);
    section.set_block(0, 0, 16, 5);
    assert!(section.data.iter().all(|s| *s == 0));
    assert_eq!(section.get_block(-1, 0, 0), 0);
    assert_eq!(section.get_block(0, 16, 0), 0);
}

#[test]
fn chunk_starts_as_air_without_sections() {
    let chunk = Chunk::new(3, -4);
    assert_eq!((chunk.x, chunk.z), (3, -4));
    assert!(chunk.sections.iter().all(|s| s.is_none()));
    assert!(chunk.biomes.iter().all(|b| *b == 0));
    assert_eq!(chunk.get_block(0, 0, 0), 0);
    assert_eq!(chunk.get_block(15, 255, 15), 0);
}

#[test]
fn chunk_set_block_creates_the_section_of_the_slab() {
    let mut chunk = Chunk::new(0, 0);
    chunk.set_block(1, 63, 2, 48);
    assert!(chunk.sections[3].is_some());
    assert_eq!(chunk.sections.iter().filter(|s| s.is_some()).count(), 1);
    assert_eq!(chunk.get_block(1, 63, 2), 48);
    assert_eq!(chunk.get_block(1, 64, 2), 0);
    assert_eq!(chunk.sections[3].unwrap().get_block(1, 15, 2), 48);
    chunk.set_block(1, 63, 2, 0);
    assert_eq!(chunk.get_block(1, 63, 2), 0);
    assert!(chunk.sections[3].is_some());
}

#[test]
fn chunk_ignores_heights_outside_the_world() {
    let mut chunk = Chunk::new(0, 0);
    chunk.set_block(0, -1, 0, 9);
    chunk.set_block(0, 256, 0, 9);
    assert_eq!(chunk, Chunk::new(0, 0));
    assert_eq!(chunk.get_block(0, -1, 0), 0);
    assert_eq!(chunk.get_block(0, 256, 0), 0);
}

#[test]
fn chunk_set_block_if_air_only_replaces_air() {
    let mut chunk = Chunk::new(0, 0);
    chunk.set_block_if_air(0, 10, 0, 5);
    assert_eq!(chunk.get_block(0, 10, 0), 5);
    chunk.set_block_if_air(0, 10, 0, 6);
    assert_eq!(chunk.get_block(0, 10, 0), 5);
    chunk.set_block_if_air(1, 10, 0, 6);
    assert_eq!(chunk.get_block(1, 10, 0), 6);
}

#[test]
fn chunk_with_block_is_set_block_by_value() {
    let chunk = Chunk::new(0, 0).with_block(2, 3, 4, 17);
    let mut other = Chunk::new(0, 0);
    other.set_block(2, 3, 4, 17);
    assert_eq!(chunk, other);
}

#[test]
fn chunk_biomes_are_indexed_z_major() {
    let mut chunk = Chunk::new(0, 0);
    chunk.set_biome(3, 2, 7);
    assert_eq!(chunk.biomes[2 * 16 + 3], 7);
    assert_eq!(chunk.biomes.iter().filter(|b| **b != 0).count(), 1);
}

#[test]
fn world_starts_empty() {
    let world = World::new();
    assert!(!world.has_chunk(ChunkPos::new(0, 0)));
    assert_eq!(world.get_chunk(ChunkPos::new(0, 0)), None);
    assert_eq!(world.get_block(0, 64, 0), 0);
}

#[test]
fn world_chunk_carries_its_key() {
    let mut world = World::new();
    for (x, z) in [(0, 0), (1, -1), (-5, 7), (100, 200)] {
        world.create_chunk(ChunkPos::new(x, z));
    }
    world.insert_chunk(Chunk::new(9, 9).with_block(0, 0, 0, 16));
    world.set_block(-17, 5, 33, 32);
    for (x, z) in [(0, 0), (1, -1), (-5, 7), (100, 200), (9, 9), (-2, 2)] {
        let chunk = world.get_chunk(ChunkPos::new(x, z)).unwrap();
        assert_eq!((chunk.x, chunk.z), (x, z));
    }
}

#[test]
fn world_create_chunk_keeps_an_existing_chunk() {
    let mut world = World::new();
    world.insert_chunk(Chunk::new(1, 2).with_block(0, 0, 0, 16));
    let chunk = world.create_chunk(ChunkPos::new(1, 2));
    assert_eq!(chunk.get_block(0, 0, 0), 16);
    let fresh = world.create_chunk(ChunkPos::new(3, 4));
    assert_eq!(fresh, Chunk::new(3, 4));
    assert!(world.has_chunk(ChunkPos::new(3, 4)));
}

#[test]
fn world_insert_chunk_overwrites() {
    let mut world = World::new();
    world.insert_chunk(Chunk::new(1, 2).with_block(0, 0, 0, 16));
    world.insert_chunk(Chunk::new(1, 2));
    assert_eq!(world.get_chunk(ChunkPos::new(1, 2)), Some(Chunk::new(1, 2)));
}

#[test]
fn world_set_block_creates_the_chunk_and_uses_local_coordinates() {
    let mut world = World::new();
    world.set_block(-1, 70, 17, 48);
    assert!(world.has_chunk(ChunkPos::new(-1, 1)));
    assert!(!world.has_chunk(ChunkPos::new(0, 0)));
    assert_eq!(world.get_block(-1, 70, 17), 48);
    let chunk = world.get_chunk(ChunkPos::new(-1, 1)).unwrap();
    assert_eq!(chunk.get_block(15, 70, 1), 48);
    assert_eq!(world.get_block(15, 70, 1), 0);
}

#[test]
fn world_ignores_heights_outside_the_world() {
    let mut world = World::new();
    world.set_block(0, 300, 0, 48);
    assert_eq!(world.get_block(0, 300, 0), 0);
    assert_eq!(world.get_chunk(ChunkPos::new(0, 0)), Some(Chunk::new(0, 0)));
}

#[test]
fn seed_is_the_low_half_of_the_seconds() {
    assert_eq!(seed_from_secs(5), 5);
    assert_eq!(seed_from_secs(0x1_0000_0007), 7);
    let _ = random_seed();
}
