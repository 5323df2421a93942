//! The wire form of each packet's body, and the encoder that writes it.

use crate::mc::buffer::WriteBuffer;
use crate::mc::proto::{
    EntityMetaData, EntityMetaDataView, EntityMetaEntry, EntityMetaEntryView, Packet,
    PacketView, PlayerListItemAction, PlayerListItemActionView,
};
use crate::mc::wire::{
    spec_be_bytes, spec_bool_byte, spec_i16_bits, spec_i32_bits, spec_i64_bits,
    spec_string_bytes, spec_u16_le_bytes, spec_varint,
};
use crate::model::ItemStack;
use crate::world::{Chunk, Section};
use vstd::prelude::*;

verus! {

pub open spec fn wire_u8(v: u8) -> Seq<u8> {
    seq![v]
}

pub open spec fn wire_bool(v: bool) -> Seq<u8> {
    seq![spec_bool_byte(v)]
}

pub open spec fn wire_u16(v: u16) -> Seq<u8> {
    spec_be_bytes(v as nat, 2)
}

pub open spec fn wire_i16(v: i16) -> Seq<u8> {
    spec_be_bytes(spec_i16_bits(v), 2)
}

pub open spec fn wire_u32(v: u32) -> Seq<u8> {
    spec_be_bytes(v as nat, 4)
}

pub open spec fn wire_i32(v: i32) -> Seq<u8> {
    spec_be_bytes(spec_i32_bits(v), 4)
}

pub open spec fn wire_u64(v: u64) -> Seq<u8> {
    spec_be_bytes(v as nat, 8)
}

pub open spec fn wire_i64(v: i64) -> Seq<u8> {
    spec_be_bytes(spec_i64_bits(v), 8)
}

pub open spec fn wire_u128(v: u128) -> Seq<u8> {
    spec_be_bytes(v as nat, 16)
}

/// Whether a string's length fits the wire's length field.
pub open spec fn spec_string_fits(s: Seq<char>) -> bool {
    vstd::utf8::encode_utf8(s).len() <= i32::MAX
}

/// Whether a string that may be absent fits the wire.
pub open spec fn spec_opt_string_fits(s: Option<Seq<char>>) -> bool {
    match s {
        Some(s) => spec_string_fits(s),
        None => true,
    }
}

/// The wire form of a string that may be absent: a boolean, then the string
/// if there is one.
pub open spec fn wire_opt_string(s: Option<Seq<char>>) -> Seq<u8> {
    match s {
        Some(s) => wire_bool(true) + spec_string_bytes(s),
        None => wire_bool(false),
    }
}

/// The wire form of a metadata value.
pub open spec fn spec_meta_payload(data: EntityMetaDataView) -> Seq<u8> {
    match data {
        EntityMetaDataView::Byte(v) => wire_u8(v),
        EntityMetaDataView::Short(v) => wire_i16(v),
        EntityMetaDataView::Int(v) => wire_i32(v),
        EntityMetaDataView::Float(v) => wire_u32(v),
        EntityMetaDataView::String(s) => spec_string_bytes(s),
        EntityMetaDataView::Slot(stack) => stack.spec_bytes(),
        EntityMetaDataView::Vec3i { x, y, z } => wire_i32(x) + wire_i32(y) + wire_i32(z),
        EntityMetaDataView::Vec3f { x, y, z } => wire_u32(x) + wire_u32(y) + wire_u32(z),
    }
}

/// The byte that opens a metadata entry: the type in the high three bits,
/// the low five bits of the index below it.
pub open spec fn spec_meta_key(entry: EntityMetaEntryView) -> u8 {
    (entry.data.type_id() * 32 + entry.index % 32) as u8
}

/// The wire form of a metadata entry: its key, then its value.
pub open spec fn spec_meta_entry(entry: EntityMetaEntryView) -> Seq<u8> {
    wire_u8(spec_meta_key(entry)) + spec_meta_payload(entry.data)
}

/// The wire form of the first `n` metadata entries, one after the other.
pub open spec fn spec_meta_entries(entries: Seq<EntityMetaEntryView>, n: nat) -> Seq<u8>
    decreases n,
{
    if n == 0 {
        Seq::empty()
    } else {
        spec_meta_entries(entries, (n - 1) as nat) + spec_meta_entry(entries[n - 1])
    }
}

/// Whether every string among the metadata entries fits the wire.
pub open spec fn spec_meta_fits(entries: Seq<EntityMetaEntryView>) -> bool {
    forall|i: int|
        0 <= i < entries.len() ==> (#[trigger] entries[i].data matches EntityMetaDataView::String(s)
            ==> spec_string_fits(s))
}

/// The wire form of what follows the player's id in a player list item.
pub open spec fn spec_list_action(action: PlayerListItemActionView) -> Seq<u8> {
    match action {
        PlayerListItemActionView::AddPlayer {
            name,
            game_mode,
            ping,
            display_name,
        } => spec_string_bytes(name) + spec_varint(0) + spec_varint(game_mode.spec_to_u8() as i32)
            + spec_varint(ping) + wire_opt_string(display_name),
        PlayerListItemActionView::UpdateGameMode { game_mode } => spec_varint(
            game_mode.spec_to_u8() as i32,
        ),
        PlayerListItemActionView::UpdateLatency { ping } => spec_varint(ping),
        PlayerListItemActionView::UpdateDisplayName { display_name } => wire_opt_string(
            display_name,
        ),
        PlayerListItemActionView::RemovePlayer => Seq::empty(),
    }
}

/// Whether the strings of a player list action fit the wire.
pub open spec fn spec_list_action_fits(action: PlayerListItemActionView) -> bool {
    match action {
        PlayerListItemActionView::AddPlayer { name, display_name, .. } => spec_string_fits(name)
            && spec_opt_string_fits(display_name),
        PlayerListItemActionView::UpdateDisplayName { display_name } => spec_opt_string_fits(
            display_name,
        ),
        _ => true,
    }
}

/// The first `n` block states of a section, each as two little-endian bytes.
pub open spec fn spec_section_blocks(section: Section, n: nat) -> Seq<u8>
    decreases n,
{
    if n == 0 {
        Seq::empty()
    } else {
        spec_section_blocks(section, (n - 1) as nat) + spec_u16_le_bytes(section.data@[n - 1])
    }
}

/// The bit mask of the sections present among the first `n` slabs: the bit
/// of slab `i` is worth `2^i`.
pub open spec fn spec_section_mask(chunk: Chunk, n: nat) -> nat
    decreases n,
{
    if n == 0 {
        0
    } else {
        spec_section_mask(chunk, (n - 1) as nat) + if chunk.sections@[n - 1] is Some {
            vstd::arithmetic::power2::pow2((n - 1) as nat)
        } else {
            0
        }
    }
}

/// The number of sections present among the first `n` slabs.
pub open spec fn spec_section_count(chunk: Chunk, n: nat) -> nat
    decreases n,
{
    if n == 0 {
        0
    } else {
        spec_section_count(chunk, (n - 1) as nat) + if chunk.sections@[n - 1] is Some {
            1nat
        } else {
            0nat
        }
    }
}

/// The block states of the sections present among the first `n` slabs, lowest
/// slab first.
pub open spec fn spec_chunk_blocks(chunk: Chunk, n: nat) -> Seq<u8>
    decreases n,
{
    if n == 0 {
        Seq::empty()
    } else {
        spec_chunk_blocks(chunk, (n - 1) as nat) + match chunk.sections@[n - 1] {
            Some(section) => spec_section_blocks(section, 4096),
            None => Seq::empty(),
        }
    }
}

/// The number of lighting bytes of a chunk: for every present section 2048
/// bytes of block light and, where the sky is lit, 2048 more of sky light.
pub open spec fn spec_light_len(chunk: Chunk, skylight: bool) -> nat {
    spec_section_count(chunk, 16) * if skylight {
        4096nat
    } else {
        2048nat
    }
}

/// What a chunk adds to the head of a bulk packet: its coordinate and the
/// mask of its sections.
pub open spec fn spec_chunk_meta(chunk: Chunk) -> Seq<u8> {
    wire_i32(chunk.x) + wire_i32(chunk.z) + wire_u16(spec_section_mask(chunk, 16) as u16)
}

/// What a chunk adds to the data region of a bulk packet: its block states,
/// its lighting at full brightness, its biomes.
pub open spec fn spec_chunk_data(chunk: Chunk, skylight: bool) -> Seq<u8> {
    spec_chunk_blocks(chunk, 16) + Seq::new(spec_light_len(chunk, skylight), |i: int| 0xFFu8)
        + chunk.biomes@
}

/// The heads of the first `n` chunks.
pub open spec fn spec_chunks_meta(chunks: Seq<Chunk>, n: nat) -> Seq<u8>
    decreases n,
{
    if n == 0 {
        Seq::empty()
    } else {
        spec_chunks_meta(chunks, (n - 1) as nat) + spec_chunk_meta(chunks[n - 1])
    }
}

/// The data of the first `n` chunks.
pub open spec fn spec_chunks_data(chunks: Seq<Chunk>, skylight: bool, n: nat) -> Seq<u8>
    decreases n,
{
    if n == 0 {
        Seq::empty()
    } else {
        spec_chunks_data(chunks, skylight, (n - 1) as nat) + spec_chunk_data(
            chunks[n - 1],
            skylight,
        )
    }
}

/// Whether the packet can be written at all: every string and list in it has
/// a length that fits the wire's 32-bit length fields.
pub open spec fn spec_encodable(p: PacketView) -> bool {
    match p {
        PacketView::C00Handshake { server_address, .. } => spec_string_fits(server_address),
        PacketView::S00StatusResponse { status } => spec_string_fits(status),
        PacketView::C00LoginStart { username } => spec_string_fits(username),
        PacketView::S02LoginSuccess { uuid, username } => spec_string_fits(uuid)
            && spec_string_fits(username),
        PacketView::C01ChatMessage { message } => spec_string_fits(message),
        PacketView::S01JoinGame { world_type, .. } => spec_string_fits(world_type),
        PacketView::S02ChatMessage { json_data, .. } => spec_string_fits(json_data),
        PacketView::S1CEntityMeta { entries, .. } => spec_meta_fits(entries),
        PacketView::S26MapChunkBulk { chunks, .. } => chunks.len() <= i32::MAX,
        PacketView::S38PlayerListItem { action, .. } => spec_list_action_fits(action),
        _ => true,
    }
}

/// The body of a packet: its fields in their wire forms, one after the other.
pub open spec fn spec_body(p: PacketView) -> Seq<u8> {
    match p {
        PacketView::C00Handshake {
            protocol_version,
            server_address,
            server_port,
            next_state,
        } => spec_varint(protocol_version) + spec_string_bytes(server_address) + wire_u16(
            server_port,
        ) + spec_varint(next_state.spec_to_i32()),
        PacketView::C00StatusRequest => Seq::empty(),
        PacketView::C01StatusPing { timestamp } => wire_i64(timestamp),
        PacketView::S00StatusResponse { status } => spec_string_bytes(status),
        PacketView::S01StatusPong { timestamp } => wire_i64(timestamp),
        PacketView::C00LoginStart { username } => spec_string_bytes(username),
        PacketView::S02LoginSuccess { uuid, username } => spec_string_bytes(uuid)
            + spec_string_bytes(username),
        PacketView::S03LoginCompression { threshold } => spec_varint(threshold),
        PacketView::C00KeepAlive { id } => spec_varint(id),
        PacketView::C01ChatMessage { message } => spec_string_bytes(message),
        PacketView::C03Player { on_ground } => wire_bool(on_ground),
        PacketView::C04PlayerPos { x, y, z, on_ground } => wire_u64(x) + wire_u64(y) + wire_u64(z)
            + wire_bool(on_ground),
        PacketView::C05PlayerRot { yaw, pitch, on_ground } => wire_u32(yaw) + wire_u32(pitch)
            + wire_bool(on_ground),
        PacketView::C06PlayerPosRot { x, y, z, yaw, pitch, on_ground } => wire_u64(x) + wire_u64(y)
            + wire_u64(z) + wire_u32(yaw) + wire_u32(pitch) + wire_bool(on_ground),
        PacketView::C07PlayerDigging { status, location, face } => wire_u8(status.spec_to_u8())
            + wire_u64(location.spec_to_u64()) + wire_u8(face),
        PacketView::C08PlayerBlockPlacement { location, face } => wire_u64(location.spec_to_u64())
            + wire_u8(face.spec_to_u8()) + ItemStack::spec_empty().spec_bytes() + seq![
            0u8,
            0u8,
            0u8,
        ],
        PacketView::C09HeldItemChange { slot } => wire_i16(slot),
        PacketView::C0AAnimation => Seq::empty(),
        PacketView::C10SetCreativeSlot { slot_id, item } => wire_i16(slot_id) + item.spec_bytes(),
        PacketView::S00KeepAlive { timestamp } => spec_varint(timestamp),
        PacketView::S01JoinGame {
            entity_id,
            game_mode,
            dimension,
            difficulty,
            player_list_size,
            world_type,
            reduced_debug_info,
        } => wire_i32(entity_id) + wire_u8(game_mode.spec_to_u8()) + wire_u8(dimension) + wire_u8(
            difficulty,
        ) + wire_u8(player_list_size) + spec_string_bytes(world_type) + wire_bool(
            reduced_debug_info,
        ),
        PacketView::S02ChatMessage { json_data, position } => spec_string_bytes(json_data)
            + wire_u8(position),
        PacketView::S08SetPlayerPosition { x, y, z, yaw, pitch, flags } => wire_u64(x) + wire_u64(
            y,
        ) + wire_u64(z) + wire_u32(yaw) + wire_u32(pitch) + wire_u8(flags),
        PacketView::S0ESpawnObject { entity_id, kind, x, y, z, pitch, yaw, data } => spec_varint(
            entity_id,
        ) + wire_u8(kind) + wire_i32(x) + wire_i32(y) + wire_i32(z) + wire_u8(pitch) + wire_u8(yaw)
            + wire_i32(data),
        PacketView::S1CEntityMeta { entity_id, entries } => spec_varint(entity_id)
            + spec_meta_entries(entries, entries.len()) + wire_u8(0x7F),
        PacketView::S21ChunkData { x, z } => wire_i32(x) + wire_i32(z) + wire_bool(true) + wire_u16(
            0,
        ) + spec_varint(0),
        PacketView::S23BlockChange { location, block_state } => wire_u64(location.spec_to_u64())
            + spec_varint(block_state as i32),
        PacketView::S26MapChunkBulk { skylight, chunks } => wire_bool(skylight) + spec_varint(
            chunks.len() as i32,
        ) + spec_chunks_meta(chunks, chunks.len()) + spec_chunks_data(
            chunks,
            skylight,
            chunks.len(),
        ),
        PacketView::S2BChangeGameState { reason, value } => wire_u8(reason.spec_to_u8())
            + wire_u32(value),
        PacketView::S38PlayerListItem { uuid, action } => spec_varint(action.id()) + spec_varint(1)
            + wire_u128(uuid) + spec_list_action(action),
        PacketView::S39PlayerAbilities { flags, flying_speed, walking_speed } => wire_u8(
            flags.spec_to_byte(),
        ) + wire_u32(flying_speed) + wire_u32(walking_speed),
    }
}

/// What is framed for a packet: its opcode as a VarInt, then its body.
pub open spec fn spec_packet_buffer(p: PacketView) -> Seq<u8> {
    spec_varint(p.id()) + spec_body(p)
}

/// Whether the string's length fits the wire's length field.
fn string_fits(s: &String) -> (fits: bool)
    ensures
        fits == spec_string_fits(s@),
{
    s.as_str().as_bytes().len() <= 0x7FFF_FFFF
}

fn opt_string_fits(s: &Option<String>) -> (fits: bool)
    ensures
        fits == spec_opt_string_fits(crate::mc::proto::spec_opt_string_view(*s)),
{
    match s {
        Some(s) => string_fits(s),
        None => true,
    }
}

fn meta_fits(entries: &Vec<EntityMetaEntry>) -> (fits: bool)
    ensures
        fits == spec_meta_fits(entries@.map_values(|e: EntityMetaEntry| e@)),
{
    let ghost views = entries@.map_values(|e: EntityMetaEntry| e@);
    let mut i: usize = 0;
    while i < entries.len()
        invariant
            i <= entries@.len(),
            views == entries@.map_values(|e: EntityMetaEntry| e@),
            forall|j: int|
                0 <= j < i ==> (#[trigger] views[j].data matches EntityMetaDataView::String(s)
                    ==> spec_string_fits(s)),
        decreases entries@.len() - i,
    {
        match &entries[i].data {
            EntityMetaData::String(s) => {
                if !string_fits(s) {
                    assert(views[i as int].data == EntityMetaDataView::String(s@));
                    return false;
                }
            },
            _ => {},
        }
        i = i + 1;
    }
    true
}

fn list_action_fits(action: &PlayerListItemAction) -> (fits: bool)
    ensures
        fits == spec_list_action_fits(action@),
{
    match action {
        PlayerListItemAction::AddPlayer { name, display_name, .. } => string_fits(name)
            && opt_string_fits(display_name),
        PlayerListItemAction::UpdateDisplayName { display_name } => opt_string_fits(display_name),
        _ => true,
    }
}

/// Whether the packet can be written: see `spec_encodable`.
pub fn encodable(packet: &Packet) -> (fits: bool)
    ensures
        fits == spec_encodable(packet@),
{
    match packet {
        Packet::C00Handshake { server_address, .. } => string_fits(server_address),
        Packet::S00StatusResponse { status } => string_fits(status),
        Packet::C00LoginStart { username } => string_fits(username),
        Packet::S02LoginSuccess { uuid, username } => string_fits(uuid) && string_fits(username),
        Packet::C01ChatMessage { message } => string_fits(message),
        Packet::S01JoinGame { world_type, .. } => string_fits(world_type),
        Packet::S02ChatMessage { json_data, .. } => string_fits(json_data),
        Packet::S1CEntityMeta { entries, .. } => meta_fits(entries),
        Packet::S26MapChunkBulk { chunks, .. } => chunks.len() <= 0x7FFF_FFFF,
        Packet::S38PlayerListItem { action, .. } => list_action_fits(action),
        _ => true,
    }
}

fn write_opt_string(buf: &mut WriteBuffer, s: &Option<String>)
    requires
        spec_opt_string_fits(crate::mc::proto::spec_opt_string_view(*s)),
    ensures
        final(buf)@ == old(buf)@ + wire_opt_string(crate::mc::proto::spec_opt_string_view(*s)),
{
    match s {
        Some(s) => {
            buf.write_bool(true);
            buf.write_string(s.as_str());
            assert(buf@ =~= old(buf)@ + (wire_bool(true) + spec_string_bytes(s@)));
        },
        None => {
            buf.write_bool(false);
            assert(buf@ =~= old(buf)@ + wire_bool(false));
        },
    }
}

fn write_meta_payload(buf: &mut WriteBuffer, data: &EntityMetaData)
    requires
        data@ matches EntityMetaDataView::String(s) ==> spec_string_fits(s),
    ensures
        final(buf)@ == old(buf)@ + spec_meta_payload(data@),
{
    match data {
        EntityMetaData::Byte(v) => {
            buf.write_u8(*v);
            assert(buf@ =~= old(buf)@ + wire_u8(*v));
        },
        EntityMetaData::Short(v) => buf.write_i16(*v),
        EntityMetaData::Int(v) => buf.write_i32(*v),
        EntityMetaData::Float(v) => buf.write_u32(*v),
        EntityMetaData::String(s) => buf.write_string(s.as_str()),
        EntityMetaData::Slot(stack) => stack.write(buf),
        EntityMetaData::Vec3i { x, y, z } => {
            buf.write_i32(*x);
            buf.write_i32(*y);
            buf.write_i32(*z);
            assert(buf@ =~= old(buf)@ + (wire_i32(*x) + wire_i32(*y) + wire_i32(*z)));
        },
        EntityMetaData::Vec3f { x, y, z } => {
            buf.write_u32(*x);
            buf.write_u32(*y);
            buf.write_u32(*z);
            assert(buf@ =~= old(buf)@ + (wire_u32(*x) + wire_u32(*y) + wire_u32(*z)));
        },
    }
}

fn write_meta_entries(buf: &mut WriteBuffer, entries: &Vec<EntityMetaEntry>)
    requires
        spec_meta_fits(entries@.map_values(|e: EntityMetaEntry| e@)),
    ensures
        final(buf)@ == old(buf)@ + spec_meta_entries(
            entries@.map_values(|e: EntityMetaEntry| e@),
            entries@.len(),
        ),
{
    let ghost views = entries@.map_values(|e: EntityMetaEntry| e@);
    let mut i: usize = 0;
    assert(buf@ =~= old(buf)@ + spec_meta_entries(views, 0));
    while i < entries.len()
        invariant
            i <= entries@.len(),
            views == entries@.map_values(|e: EntityMetaEntry| e@),
            spec_meta_fits(views),
            buf@ == old(buf)@ + spec_meta_entries(views, i as nat),
        decreases entries@.len() - i,
    {
        let ghost before = buf@;
        let entry = &entries[i];
        assert(views[i as int] == entry@);
        assert(views[i as int].data == entry.data@);
        let key: u8 = entry.data.type_id() * 32 + entry.index % 32;
        buf.write_u8(key);
        write_meta_payload(buf, &entry.data);
        assert(buf@ =~= before + spec_meta_entry(entry@));
        assert(buf@ =~= old(buf)@ + (spec_meta_entries(views, i as nat) + spec_meta_entry(
            views[i as int],
        )));
        i = i + 1;
    }
}

fn write_list_action(buf: &mut WriteBuffer, action: &PlayerListItemAction)
    requires
        spec_list_action_fits(action@),
    ensures
        final(buf)@ == old(buf)@ + spec_list_action(action@),
{
    match action {
        PlayerListItemAction::AddPlayer { name, game_mode, ping, display_name } => {
            buf.write_string(name.as_str());
            buf.write_varint(0);
            buf.write_varint(game_mode.to_u8() as i32);
            buf.write_varint(*ping);
            write_opt_string(buf, display_name);
            assert(buf@ =~= old(buf)@ + spec_list_action(action@));
        },
        PlayerListItemAction::UpdateGameMode { game_mode } => {
            buf.write_varint(game_mode.to_u8() as i32);
        },
        PlayerListItemAction::UpdateLatency { ping } => {
            buf.write_varint(*ping);
        },
        PlayerListItemAction::UpdateDisplayName { display_name } => {
            write_opt_string(buf, display_name);
        },
        PlayerListItemAction::RemovePlayer => {
            assert(buf@ =~= old(buf)@ + Seq::<u8>::empty());
        },
    }
}

fn write_section_blocks(buf: &mut WriteBuffer, section: &Section)
    ensures
        final(buf)@ == old(buf)@ + spec_section_blocks(*section, 4096),
{
    let mut i: usize = 0;
    assert(buf@ =~= old(buf)@ + spec_section_blocks(*section, 0));
    while i < 4096
        invariant
            i <= 4096,
            buf@ == old(buf)@ + spec_section_blocks(*section, i as nat),
        decreases 4096 - i,
    {
        buf.write_u16_le(section.data[i]);
        assert(buf@ =~= old(buf)@ + (spec_section_blocks(*section, i as nat) + spec_u16_le_bytes(
            section.data@[i as int],
        )));
        i = i + 1;
    }
}

/// The mask and the number of the sections that a chunk holds.
pub fn section_mask(chunk: &Chunk) -> (result: (u16, usize))
    ensures
        result.0 == spec_section_mask(*chunk, 16),
        result.1 == spec_section_count(*chunk, 16),
        result.1 <= 16,
{
    let mut mask: u32 = 0;
    let mut bit: u32 = 1;
    let mut count: usize = 0;
    let mut i: usize = 0;
    proof {
        vstd::arithmetic::power2::lemma2_to64();
    }
    while i < 16
        invariant
            i <= 16,
            bit == vstd::arithmetic::power2::pow2(i as nat),
            mask < bit,
            bit <= 0x1_0000,
            mask == spec_section_mask(*chunk, i as nat),
            count == spec_section_count(*chunk, i as nat),
            count <= i,
        decreases 16 - i,
    {
        if chunk.sections[i].is_some() {
            mask = mask + bit;
            count = count + 1;
        }
        proof {
            vstd::arithmetic::power2::lemma_pow2_unfold((i + 1) as nat);
            vstd::arithmetic::power2::lemma_pow2_strictly_increases(i as nat, 16);
            vstd::arithmetic::power2::lemma2_to64();
        }
        if i < 15 {
            bit = bit * 2;
        } else {
            bit = 0x1_0000;
        }
        i = i + 1;
    }
    (mask as u16, count)
}

fn write_chunk_meta(buf: &mut WriteBuffer, chunk: &Chunk)
    ensures
        final(buf)@ == old(buf)@ + spec_chunk_meta(*chunk),
{
    let (mask, _) = section_mask(chunk);
    buf.write_i32(chunk.x);
    buf.write_i32(chunk.z);
    buf.write_u16(mask);
    assert(buf@ =~= old(buf)@ + spec_chunk_meta(*chunk));
}

fn write_chunk_data(buf: &mut WriteBuffer, chunk: &Chunk, skylight: bool)
    ensures
        final(buf)@ == old(buf)@ + spec_chunk_data(*chunk, skylight),
{
    let mut i: usize = 0;
    assert(buf@ =~= old(buf)@ + spec_chunk_blocks(*chunk, 0));
    while i < 16
        invariant
            i <= 16,
            buf@ == old(buf)@ + spec_chunk_blocks(*chunk, i as nat),
        decreases 16 - i,
    {
        let ghost before = buf@;
        match &chunk.sections[i] {
            Some(section) => {
                write_section_blocks(buf, section);
                assert(buf@ =~= old(buf)@ + (spec_chunk_blocks(*chunk, i as nat)
                    + spec_section_blocks(*section, 4096)));
            },
            None => {
                assert(buf@ =~= old(buf)@ + (spec_chunk_blocks(*chunk, i as nat) + Seq::<
                    u8,
                >::empty()));
            },
        }
        i = i + 1;
    }
    let ghost blocks_done = buf@;
    let (_, count) = section_mask(chunk);
    let light_len: usize = count * if skylight {
        4096
    } else {
        2048
    };
    let mut k: usize = 0;
    assert(buf@ =~= blocks_done + Seq::new(0, |i: int| 0xFFu8));
    while k < light_len
        invariant
            k <= light_len,
            buf@ == blocks_done + Seq::new(k as nat, |i: int| 0xFFu8),
        decreases light_len - k,
    {
        buf.write_u8(0xFF);
        assert(buf@ =~= blocks_done + Seq::new((k + 1) as nat, |i: int| 0xFFu8));
        k = k + 1;
    }
    buf.write_bytes(chunk.biomes.as_slice());
    assert(buf@ =~= old(buf)@ + spec_chunk_data(*chunk, skylight));
}

fn write_chunks(buf: &mut WriteBuffer, chunks: &Vec<Chunk>, skylight: bool)
    ensures
        final(buf)@ == old(buf)@ + spec_chunks_meta(chunks@, chunks@.len()) + spec_chunks_data(
            chunks@,
            skylight,
            chunks@.len(),
        ),
{
    let mut i: usize = 0;
    assert(buf@ =~= old(buf)@ + spec_chunks_meta(chunks@, 0));
    while i < chunks.len()
        invariant
            i <= chunks@.len(),
            buf@ == old(buf)@ + spec_chunks_meta(chunks@, i as nat),
        decreases chunks@.len() - i,
    {
        write_chunk_meta(buf, &chunks[i]);
        assert(buf@ =~= old(buf)@ + (spec_chunks_meta(chunks@, i as nat) + spec_chunk_meta(
            chunks@[i as int],
        )));
        i = i + 1;
    }
    let ghost metas_done = buf@;
    let mut j: usize = 0;
    assert(buf@ =~= metas_done + spec_chunks_data(chunks@, skylight, 0));
    while j < chunks.len()
        invariant
            j <= chunks@.len(),
            buf@ == metas_done + spec_chunks_data(chunks@, skylight, j as nat),
        decreases chunks@.len() - j,
    {
        write_chunk_data(buf, &chunks[j], skylight);
        assert(buf@ =~= metas_done + (spec_chunks_data(chunks@, skylight, j as nat)
            + spec_chunk_data(chunks@[j as int], skylight)));
        j = j + 1;
    }
}

/// Appends the body of a packet of the handshake, status or login phase.
fn encode_setup(packet: &Packet, buf: &mut WriteBuffer)
    requires
        spec_encodable(packet@),
        packet is C00Handshake || packet is C00StatusRequest || packet is C01StatusPing
            || packet is S00StatusResponse || packet is S01StatusPong || packet is C00LoginStart
            || packet is S02LoginSuccess || packet is S03LoginCompression,
    ensures
        final(buf)@ == old(buf)@ + spec_body(packet@),
{
    match packet {
        Packet::C00Handshake { protocol_version, server_address, server_port, next_state } => {
            buf.write_varint(*protocol_version);
            buf.write_string(server_address.as_str());
            buf.write_u16(*server_port);
            buf.write_varint(next_state.to_i32());
            assert(buf@ =~= old(buf)@ + spec_body(packet@));
        },
        Packet::C00StatusRequest => {
            assert(buf@ =~= old(buf)@ + spec_body(packet@));
        },
        Packet::C01StatusPing { timestamp } => {
            buf.write_i64(*timestamp);
            assert(buf@ =~= old(buf)@ + spec_body(packet@));
        },
        Packet::S00StatusResponse { status } => {
            buf.write_string(status.as_str());
            assert(buf@ =~= old(buf)@ + spec_body(packet@));
        },
        Packet::S01StatusPong { timestamp } => {
            buf.write_i64(*timestamp);
            assert(buf@ =~= old(buf)@ + spec_body(packet@));
        },
        Packet::C00LoginStart { username } => {
            buf.write_string(username.as_str());
            assert(buf@ =~= old(buf)@ + spec_body(packet@));
        },
        Packet::S02LoginSuccess { uuid, username } => {
            buf.write_string(uuid.as_str());
            buf.write_string(username.as_str());
            assert(buf@ =~= old(buf)@ + spec_body(packet@));
        },
        Packet::S03LoginCompression { threshold } => {
            buf.write_varint(*threshold);
            assert(buf@ =~= old(buf)@ + spec_body(packet@));
        },
        _ => {},
    }
}

/// Appends the body of a packet that a client sends while playing.
fn encode_client_play(packet: &Packet, buf: &mut WriteBuffer)
    requires
        spec_encodable(packet@),
        packet is C00KeepAlive || packet is C01ChatMessage || packet is C03Player
            || packet is C04PlayerPos || packet is C05PlayerRot || packet is C06PlayerPosRot
            || packet is C07PlayerDigging || packet is C08PlayerBlockPlacement
            || packet is C09HeldItemChange || packet is C0AAnimation
            || packet is C10SetCreativeSlot,
    ensures
        final(buf)@ == old(buf)@ + spec_body(packet@),
{
    match packet {
        Packet::C00KeepAlive { id } => {
            buf.write_varint(*id);
            assert(buf@ =~= old(buf)@ + spec_body(packet@));
        },
        Packet::C01ChatMessage { message } => {
            buf.write_string(message.as_str());
            assert(buf@ =~= old(buf)@ + spec_body(packet@));
        },
        Packet::C03Player { on_ground } => {
            buf.write_bool(*on_ground);
            assert(buf@ =~= old(buf)@ + spec_body(packet@));
        },
        Packet::C04PlayerPos { x, y, z, on_ground } => {
            buf.write_f64(*x);
            buf.write_f64(*y);
            buf.write_f64(*z);
            buf.write_bool(*on_ground);
            assert(buf@ =~= old(buf)@ + spec_body(packet@));
        },
        Packet::C05PlayerRot { yaw, pitch, on_ground } => {
            buf.write_f32(*yaw);
            buf.write_f32(*pitch);
            buf.write_bool(*on_ground);
            assert(buf@ =~= old(buf)@ + spec_body(packet@));
        },
        Packet::C06PlayerPosRot { x, y, z, yaw, pitch, on_ground } => {
            buf.write_f64(*x);
            buf.write_f64(*y);
            buf.write_f64(*z);
            buf.write_f32(*yaw);
            buf.write_f32(*pitch);
            buf.write_bool(*on_ground);
            assert(buf@ =~= old(buf)@ + spec_body(packet@));
        },
        Packet::C07PlayerDigging { status, location, face } => {
            buf.write_u8(status.to_u8());
            buf.write_u64(location.to_u64());
            buf.write_u8(*face);
            assert(buf@ =~= old(buf)@ + spec_body(packet@));
        },
        Packet::C08PlayerBlockPlacement { location, face } => {
            buf.write_u64(location.to_u64());
            buf.write_u8(face.to_u8());
            let held = ItemStack::default();
            held.write(buf);
            buf.write_u8(0);
            buf.write_u8(0);
            buf.write_u8(0);
            assert(buf@ =~= old(buf)@ + spec_body(packet@));
        },
        Packet::C09HeldItemChange { slot } => {
            buf.write_i16(*slot);
            assert(buf@ =~= old(buf)@ + spec_body(packet@));
        },
        Packet::C0AAnimation => {
            assert(buf@ =~= old(buf)@ + spec_body(packet@));
        },
        Packet::C10SetCreativeSlot { slot_id, item } => {
            buf.write_i16(*slot_id);
            item.write(buf);
            assert(buf@ =~= old(buf)@ + spec_body(packet@));
        },
        _ => {},
    }
}

/// Appends the body of one of the plain packets that the server sends while playing.
fn encode_server_play(packet: &Packet, buf: &mut WriteBuffer)
    requires
        spec_encodable(packet@),
        packet is S00KeepAlive || packet is S01JoinGame || packet is S02ChatMessage
            || packet is S08SetPlayerPosition || packet is S0ESpawnObject
            || packet is S21ChunkData || packet is S23BlockChange,
    ensures
        final(buf)@ == old(buf)@ + spec_body(packet@),
{
    match packet {
        Packet::S00KeepAlive { timestamp } => {
            buf.write_varint(*timestamp);
            assert(buf@ =~= old(buf)@ + spec_body(packet@));
        },
        Packet::S01JoinGame {
            entity_id,
            game_mode,
            dimension,
            difficulty,
            player_list_size,
            world_type,
            reduced_debug_info,
        } => {
            buf.write_i32(*entity_id);
            buf.write_u8(game_mode.to_u8());
            buf.write_u8(*dimension);
            buf.write_u8(*difficulty);
            buf.write_u8(*player_list_size);
            buf.write_string(world_type.as_str());
            buf.write_bool(*reduced_debug_info);
            assert(buf@ =~= old(buf)@ + spec_body(packet@));
        },
        Packet::S02ChatMessage { json_data, position } => {
            buf.write_string(json_data.as_str());
            buf.write_u8(*position);
            assert(buf@ =~= old(buf)@ + spec_body(packet@));
        },
        Packet::S08SetPlayerPosition { x, y, z, yaw, pitch, flags } => {
            buf.write_f64(*x);
            buf.write_f64(*y);
            buf.write_f64(*z);
            buf.write_f32(*yaw);
            buf.write_f32(*pitch);
            buf.write_u8(*flags);
            assert(buf@ =~= old(buf)@ + spec_body(packet@));
        },
        Packet::S0ESpawnObject { entity_id, kind, x, y, z, pitch, yaw, data } => {
            buf.write_varint(*entity_id);
            buf.write_u8(*kind);
            buf.write_i32(*x);
            buf.write_i32(*y);
            buf.write_i32(*z);
            buf.write_u8(*pitch);
            buf.write_u8(*yaw);
            buf.write_i32(*data);
            assert(buf@ =~= old(buf)@ + spec_body(packet@));
        },
        Packet::S21ChunkData { x, z } => {
            buf.write_i32(*x);
            buf.write_i32(*z);
            buf.write_bool(true);
            buf.write_u16(0);
            buf.write_varint(0);
            assert(buf@ =~= old(buf)@ + spec_body(packet@));
        },
        Packet::S23BlockChange { location, block_state } => {
            buf.write_u64(location.to_u64());
            buf.write_varint(*block_state as i32);
            assert(buf@ =~= old(buf)@ + spec_body(packet@));
        },
        _ => {},
    }
}

/// Appends the body of one of the packets that carry lists or flags.
fn encode_server_state(packet: &Packet, buf: &mut WriteBuffer)
    requires
        spec_encodable(packet@),
        packet is S1CEntityMeta || packet is S26MapChunkBulk || packet is S2BChangeGameState
            || packet is S38PlayerListItem || packet is S39PlayerAbilities,
    ensures
        final(buf)@ == old(buf)@ + spec_body(packet@),
{
    match packet {
        Packet::S1CEntityMeta { entity_id, entries } => {
            buf.write_varint(*entity_id);
            write_meta_entries(buf, entries);
            buf.write_u8(0x7F);
            assert(buf@ =~= old(buf)@ + spec_body(packet@));
        },
        Packet::S26MapChunkBulk { skylight, chunks } => {
            buf.write_bool(*skylight);
            buf.write_varint(chunks.len() as i32);
            write_chunks(buf, chunks, *skylight);
            assert(buf@ =~= old(buf)@ + spec_body(packet@));
        },
        Packet::S2BChangeGameState { reason, value } => {
            buf.write_u8(reason.to_u8());
            buf.write_f32(*value);
            assert(buf@ =~= old(buf)@ + spec_body(packet@));
        },
        Packet::S38PlayerListItem { uuid, action } => {
            buf.write_varint(action.id());
            buf.write_varint(1);
            buf.write_u128(*uuid);
            write_list_action(buf, action);
            assert(buf@ =~= old(buf)@ + spec_body(packet@));
        },
        Packet::S39PlayerAbilities { flags, flying_speed, walking_speed } => {
            buf.write_u8(flags.to_byte());
            buf.write_f32(*flying_speed);
            buf.write_f32(*walking_speed);
            assert(buf@ =~= old(buf)@ + spec_body(packet@));
        },
        _ => {},
    }
}

/// Appends the body of `packet` to `buf`.
pub fn encode_packet(packet: &Packet, buf: &mut WriteBuffer)
    requires
        spec_encodable(packet@),
    ensures
        final(buf)@ == old(buf)@ + spec_body(packet@),
{
    match packet {
        Packet::C00Handshake { .. }
        | Packet::C00StatusRequest
        | Packet::C01StatusPing { .. }
        | Packet::S00StatusResponse { .. }
        | Packet::S01StatusPong { .. }
        | Packet::C00LoginStart { .. }
        | Packet::S02LoginSuccess { .. }
        | Packet::S03LoginCompression { .. } => encode_setup(packet, buf),
        Packet::C00KeepAlive { .. }
        | Packet::C01ChatMessage { .. }
        | Packet::C03Player { .. }
        | Packet::C04PlayerPos { .. }
        | Packet::C05PlayerRot { .. }
        | Packet::C06PlayerPosRot { .. }
        | Packet::C07PlayerDigging { .. }
        | Packet::C08PlayerBlockPlacement { .. }
        | Packet::C09HeldItemChange { .. }
        | Packet::C0AAnimation
        | Packet::C10SetCreativeSlot { .. } => encode_client_play(packet, buf),
        Packet::S00KeepAlive { .. }
        | Packet::S01JoinGame { .. }
        | Packet::S02ChatMessage { .. }
        | Packet::S08SetPlayerPosition { .. }
        | Packet::S0ESpawnObject { .. }
        | Packet::S21ChunkData { .. }
        | Packet::S23BlockChange { .. } => encode_server_play(packet, buf),
        Packet::S1CEntityMeta { .. }
        | Packet::S26MapChunkBulk { .. }
        | Packet::S2BChangeGameState { .. }
        | Packet::S38PlayerListItem { .. }
        | Packet::S39PlayerAbilities { .. } => encode_server_state(packet, buf),
    }
}

} // verus!
