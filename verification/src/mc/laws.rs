//! Laws of the codec: what is written can be read back.

use crate::mc::codec::{
    spec_decode_packed, spec_decode_step, spec_frame, DecodeStep, DecoderState,
    PACKET_SIZE_LIMIT,
};
use crate::mc::decode::{
    spec_decode_body, spec_decode_payload, spec_parse_creative_slot, spec_parse_digging,
    spec_parse_placement, spec_parse_player_pos, spec_parse_player_pos_rot,
    spec_parse_player_rot, spec_take_three_u64, spec_take_two_u32,
};
use crate::mc::encode::{
    spec_body, spec_encodable, spec_packet_buffer, wire_bool, wire_i16, wire_i64, wire_u16,
    wire_u32, wire_u64, wire_u8,
};
use crate::mc::proto::{DiggingStatus, PacketView, PlayState};
use crate::mc::wire::{
    lemma_be_limits, lemma_concat_assoc, lemma_concat_split, lemma_i16_bits_roundtrip,
    lemma_i64_bits_roundtrip, lemma_read_varint_of_varint, lemma_take_be_of_bytes,
    lemma_take_string_of_string, lemma_take_varint_of_varint, spec_i32_bits, spec_read_varint,
    spec_string_bytes, spec_take_bool, spec_take_i16, spec_take_i64, spec_take_u16,
    spec_take_u32, spec_take_u64, spec_take_u8, spec_varint, spec_varint_bytes, DecodeError,
};
use crate::mc::zlib::spec_zlib_inflate;
use crate::model::ItemStack;
use crate::world::{lemma_block_pos_roundtrip, BlockFace, BlockPos};
use vstd::prelude::*;

verus! {

pub proof fn lemma_take_u8_of_wire(v: u8, rest: Seq<u8>)
    ensures
        spec_take_u8(wire_u8(v) + rest) == Ok::<_, DecodeError>((v, rest)),
        spec_take_bool(wire_u8(v) + rest) == Ok::<_, DecodeError>((v != 0, rest)),
{
    lemma_be_limits();
    lemma_take_be_of_bytes(v as nat, 1, rest);
    assert(crate::mc::wire::spec_be_bytes(v as nat, 1) =~= wire_u8(v)) by {
        reveal_with_fuel(crate::mc::wire::spec_be_bytes, 2);
    }
}

pub proof fn lemma_take_bool_of_wire(v: bool, rest: Seq<u8>)
    ensures
        spec_take_bool(wire_bool(v) + rest) == Ok::<_, DecodeError>((v, rest)),
{
    lemma_take_u8_of_wire(crate::mc::wire::spec_bool_byte(v), rest);
}

pub proof fn lemma_take_u16_of_wire(v: u16, rest: Seq<u8>)
    ensures
        spec_take_u16(wire_u16(v) + rest) == Ok::<_, DecodeError>((v, rest)),
{
    lemma_be_limits();
    lemma_take_be_of_bytes(v as nat, 2, rest);
}

pub proof fn lemma_take_i16_of_wire(v: i16, rest: Seq<u8>)
    ensures
        spec_take_i16(wire_i16(v) + rest) == Ok::<_, DecodeError>((v, rest)),
{
    lemma_be_limits();
    lemma_i16_bits_roundtrip(v);
    lemma_take_be_of_bytes(crate::mc::wire::spec_i16_bits(v), 2, rest);
}

pub proof fn lemma_take_u32_of_wire(v: u32, rest: Seq<u8>)
    ensures
        spec_take_u32(wire_u32(v) + rest) == Ok::<_, DecodeError>((v, rest)),
{
    lemma_be_limits();
    lemma_take_be_of_bytes(v as nat, 4, rest);
}

pub proof fn lemma_take_u64_of_wire(v: u64, rest: Seq<u8>)
    ensures
        spec_take_u64(wire_u64(v) + rest) == Ok::<_, DecodeError>((v, rest)),
{
    lemma_be_limits();
    lemma_take_be_of_bytes(v as nat, 8, rest);
}

pub proof fn lemma_take_i64_of_wire(v: i64, rest: Seq<u8>)
    ensures
        spec_take_i64(wire_i64(v) + rest) == Ok::<_, DecodeError>((v, rest)),
{
    lemma_be_limits();
    lemma_i64_bits_roundtrip(v);
    lemma_take_be_of_bytes(crate::mc::wire::spec_i64_bits(v), 8, rest);
}

/// A slot that is written as it stands reads back as itself.
#[verifier::rlimit(50)]
pub proof fn lemma_take_item_of_wire(item: ItemStack, rest: Seq<u8>)
    requires
        item.canonical(),
    ensures
        ItemStack::spec_take(item.spec_bytes() + rest) == Ok::<_, DecodeError>((item, rest)),
{
    if item.id == -1 {
        lemma_take_i16_of_wire(item.id, rest);
    } else {
        let r3 = wire_u8(0) + rest;
        let r2 = wire_u16(item.damage) + r3;
        let r1 = wire_u8(item.count) + r2;
        lemma_concat_assoc(wire_i16(item.id) + wire_u8(item.count) + wire_u16(item.damage), wire_u8(0), rest);
        lemma_concat_assoc(wire_i16(item.id) + wire_u8(item.count), wire_u16(item.damage), r3);
        lemma_concat_assoc(wire_i16(item.id), wire_u8(item.count), r2);
        lemma_take_i16_of_wire(item.id, r1);
        lemma_take_u8_of_wire(item.count, r2);
        lemma_take_u16_of_wire(item.damage, r3);
        lemma_take_u8_of_wire(0, rest);
    }
}

#[verifier::rlimit(50)]
pub proof fn lemma_take_three_u64_of_wire(x: u64, y: u64, z: u64, rest: Seq<u8>)
    ensures
        spec_take_three_u64(wire_u64(x) + wire_u64(y) + wire_u64(z) + rest) == Ok::<
            _,
            DecodeError,
        >(((x, y, z), rest)),
{
    let r2 = wire_u64(z) + rest;
    let r1 = wire_u64(y) + r2;
    lemma_concat_assoc(wire_u64(x) + wire_u64(y), wire_u64(z), rest);
    lemma_concat_assoc(wire_u64(x), wire_u64(y), r2);
    lemma_take_u64_of_wire(x, r1);
    lemma_take_u64_of_wire(y, r2);
    lemma_take_u64_of_wire(z, rest);
}

#[verifier::rlimit(50)]
pub proof fn lemma_take_two_u32_of_wire(a: u32, b: u32, rest: Seq<u8>)
    ensures
        spec_take_two_u32(wire_u32(a) + wire_u32(b) + rest) == Ok::<_, DecodeError>(((a, b), rest)),
{
    let r1 = wire_u32(b) + rest;
    lemma_concat_assoc(wire_u32(a), wire_u32(b), rest);
    lemma_take_u32_of_wire(a, r1);
    lemma_take_u32_of_wire(b, rest);
}

/// Whether a packet reads back as it was written: it can be written, its
/// block position fits the packed form, its slot is written as it stands,
/// and the phase that a handshake asks for is one that a handshake may ask
/// for.
pub open spec fn spec_wire_valid(p: PacketView) -> bool {
    &&& spec_encodable(p)
    &&& match p {
        PacketView::C00Handshake { next_state, .. } => next_state == PlayState::Status
            || next_state == PlayState::Login,
        PacketView::C07PlayerDigging { location, .. } => location.packable(),
        PacketView::C08PlayerBlockPlacement { location, .. } => location.packable(),
        PacketView::C10SetCreativeSlot { item, .. } => item.canonical(),
        _ => true,
    }
}

#[verifier::rlimit(50)]
proof fn lemma_body_roundtrip_setup(p: PacketView, rest: Seq<u8>)
    requires
        spec_wire_valid(p),
        p is C00Handshake || p is C00StatusRequest || p is C01StatusPing || p is C00LoginStart,
    ensures
        spec_decode_body(p.phase(), p.id(), spec_body(p) + rest) == Ok::<_, DecodeError>(Some(p)),
{
    match p {
        PacketView::C00Handshake { protocol_version, server_address, server_port, next_state } => {
            let r3 = spec_varint(next_state.spec_to_i32()) + rest;
            let r2 = wire_u16(server_port) + r3;
            let r1 = spec_string_bytes(server_address) + r2;
            lemma_concat_assoc(
                spec_varint(protocol_version) + spec_string_bytes(server_address) + wire_u16(
                    server_port,
                ),
                spec_varint(next_state.spec_to_i32()),
                rest,
            );
            lemma_concat_assoc(
                spec_varint(protocol_version) + spec_string_bytes(server_address),
                wire_u16(server_port),
                r3,
            );
            lemma_concat_assoc(spec_varint(protocol_version), spec_string_bytes(server_address), r2);
            lemma_take_varint_of_varint(protocol_version, r1);
            lemma_take_string_of_string(server_address, r2);
            lemma_take_u16_of_wire(server_port, r3);
            lemma_take_varint_of_varint(next_state.spec_to_i32(), rest);
        },
        PacketView::C01StatusPing { timestamp } => {
            lemma_take_i64_of_wire(timestamp, rest);
        },
        PacketView::C00LoginStart { username } => {
            lemma_take_string_of_string(username, rest);
        },
        _ => {},
    }
}

#[verifier::rlimit(50)]
proof fn lemma_body_roundtrip_pos(x: u64, y: u64, z: u64, on_ground: bool, rest: Seq<u8>)
    ensures
        spec_parse_player_pos(
            spec_body(PacketView::C04PlayerPos { x, y, z, on_ground }) + rest,
        ) == Ok::<_, DecodeError>(Some(PacketView::C04PlayerPos { x, y, z, on_ground })),
{
    let r1 = wire_bool(on_ground) + rest;
    let pos = wire_u64(x) + wire_u64(y) + wire_u64(z);
    let body = spec_body(PacketView::C04PlayerPos { x, y, z, on_ground });
    assert(body == pos + wire_bool(on_ground));
    assert(body + rest == pos + r1) by {
        lemma_concat_assoc(pos, wire_bool(on_ground), rest);
    }
    assert(spec_take_three_u64(body + rest) == Ok::<_, DecodeError>(((x, y, z), r1))) by {
        lemma_take_three_u64_of_wire(x, y, z, r1);
    }
    lemma_take_bool_of_wire(on_ground, rest);
}

#[verifier::rlimit(50)]
proof fn lemma_body_roundtrip_rot(yaw: u32, pitch: u32, on_ground: bool, rest: Seq<u8>)
    ensures
        spec_parse_player_rot(
            spec_body(PacketView::C05PlayerRot { yaw, pitch, on_ground }) + rest,
        ) == Ok::<_, DecodeError>(Some(PacketView::C05PlayerRot { yaw, pitch, on_ground })),
{
    let r1 = wire_bool(on_ground) + rest;
    let turn = wire_u32(yaw) + wire_u32(pitch);
    let body = spec_body(PacketView::C05PlayerRot { yaw, pitch, on_ground });
    assert(body == turn + wire_bool(on_ground));
    assert(body + rest == turn + r1) by {
        lemma_concat_assoc(turn, wire_bool(on_ground), rest);
    }
    assert(spec_take_two_u32(body + rest) == Ok::<_, DecodeError>(((yaw, pitch), r1))) by {
        lemma_take_two_u32_of_wire(yaw, pitch, r1);
    }
    lemma_take_bool_of_wire(on_ground, rest);
}

#[verifier::rlimit(50)]
proof fn lemma_body_roundtrip_pos_rot(
    x: u64,
    y: u64,
    z: u64,
    yaw: u32,
    pitch: u32,
    on_ground: bool,
    rest: Seq<u8>,
)
    ensures
        spec_parse_player_pos_rot(
            spec_body(PacketView::C06PlayerPosRot { x, y, z, yaw, pitch, on_ground }) + rest,
        ) == Ok::<_, DecodeError>(
            Some(PacketView::C06PlayerPosRot { x, y, z, yaw, pitch, on_ground }),
        ),
{
    let pos = wire_u64(x) + wire_u64(y) + wire_u64(z);
    let turn = wire_u32(yaw) + wire_u32(pitch);
    let r2 = wire_bool(on_ground) + rest;
    let r1 = turn + r2;
    let body = spec_body(PacketView::C06PlayerPosRot { x, y, z, yaw, pitch, on_ground });
    assert(body == pos + wire_u32(yaw) + wire_u32(pitch) + wire_bool(on_ground));
    assert(body + rest == pos + r1) by {
        lemma_concat_assoc(pos + wire_u32(yaw) + wire_u32(pitch), wire_bool(on_ground), rest);
        lemma_concat_assoc(pos + wire_u32(yaw), wire_u32(pitch), r2);
        lemma_concat_assoc(pos, wire_u32(yaw), wire_u32(pitch) + r2);
        lemma_concat_assoc(wire_u32(yaw), wire_u32(pitch), r2);
    }
    assert(spec_take_three_u64(body + rest) == Ok::<_, DecodeError>(((x, y, z), r1))) by {
        lemma_take_three_u64_of_wire(x, y, z, r1);
    }
    assert(spec_take_two_u32(r1) == Ok::<_, DecodeError>(((yaw, pitch), r2))) by {
        lemma_take_two_u32_of_wire(yaw, pitch, r2);
    }
    lemma_take_bool_of_wire(on_ground, rest);
}

proof fn lemma_body_roundtrip_movement(p: PacketView, rest: Seq<u8>)
    requires
        p is C03Player || p is C04PlayerPos || p is C05PlayerRot || p is C06PlayerPosRot,
    ensures
        spec_decode_body(p.phase(), p.id(), spec_body(p) + rest) == Ok::<_, DecodeError>(Some(p)),
{
    match p {
        PacketView::C03Player { on_ground } => {
            lemma_take_bool_of_wire(on_ground, rest);
        },
        PacketView::C04PlayerPos { x, y, z, on_ground } => {
            lemma_body_roundtrip_pos(x, y, z, on_ground, rest);
        },
        PacketView::C05PlayerRot { yaw, pitch, on_ground } => {
            lemma_body_roundtrip_rot(yaw, pitch, on_ground, rest);
        },
        PacketView::C06PlayerPosRot { x, y, z, yaw, pitch, on_ground } => {
            lemma_body_roundtrip_pos_rot(x, y, z, yaw, pitch, on_ground, rest);
        },
        _ => {},
    }
}

#[verifier::rlimit(50)]
proof fn lemma_body_roundtrip_digging(
    status: DiggingStatus,
    location: BlockPos,
    face: u8,
    rest: Seq<u8>,
)
    requires
        location.packable(),
    ensures
        spec_parse_digging(
            spec_body(PacketView::C07PlayerDigging { status, location, face }) + rest,
        ) == Ok::<_, DecodeError>(Some(PacketView::C07PlayerDigging { status, location, face })),
{
    let r2 = wire_u8(face) + rest;
    let r1 = wire_u64(location.spec_to_u64()) + r2;
    lemma_concat_assoc(
        wire_u8(status.spec_to_u8()) + wire_u64(location.spec_to_u64()),
        wire_u8(face),
        rest,
    );
    lemma_concat_assoc(wire_u8(status.spec_to_u8()), wire_u64(location.spec_to_u64()), r2);
    lemma_take_u8_of_wire(status.spec_to_u8(), r1);
    lemma_take_u64_of_wire(location.spec_to_u64(), r2);
    lemma_take_u8_of_wire(face, rest);
    lemma_block_pos_roundtrip(location);
    assert(DiggingStatus::spec_from_u8(status.spec_to_u8()) == Some(status));
}

#[verifier::rlimit(50)]
proof fn lemma_body_roundtrip_placement(location: BlockPos, face: BlockFace, rest: Seq<u8>)
    requires
        location.packable(),
    ensures
        spec_parse_placement(
            spec_body(PacketView::C08PlayerBlockPlacement { location, face }) + rest,
        ) == Ok::<_, DecodeError>(Some(PacketView::C08PlayerBlockPlacement { location, face })),
{
    let held = ItemStack::spec_empty().spec_bytes();
    let cursor = seq![0u8, 0u8, 0u8];
    let packed = wire_u64(location.spec_to_u64());
    let side = wire_u8(face.spec_to_u8());
    let tail = held + (cursor + rest);
    let r1 = side + tail;
    lemma_concat_assoc(packed + side + held, cursor, rest);
    lemma_concat_assoc(packed + side, held, cursor + rest);
    lemma_concat_assoc(packed, side, tail);
    lemma_take_u64_of_wire(location.spec_to_u64(), r1);
    lemma_take_u8_of_wire(face.spec_to_u8(), tail);
    lemma_block_pos_roundtrip(location);
    assert(BlockFace::spec_from_u8(face.spec_to_u8()) == Some(face));
}

#[verifier::rlimit(50)]
proof fn lemma_body_roundtrip_creative_slot(slot_id: i16, item: ItemStack, rest: Seq<u8>)
    requires
        item.canonical(),
    ensures
        spec_parse_creative_slot(
            spec_body(PacketView::C10SetCreativeSlot { slot_id, item }) + rest,
        ) == Ok::<_, DecodeError>(Some(PacketView::C10SetCreativeSlot { slot_id, item })),
{
    let r1 = item.spec_bytes() + rest;
    lemma_concat_assoc(wire_i16(slot_id), item.spec_bytes(), rest);
    lemma_take_i16_of_wire(slot_id, r1);
    lemma_take_item_of_wire(item, rest);
}

proof fn lemma_body_roundtrip_actions(p: PacketView, rest: Seq<u8>)
    requires
        spec_wire_valid(p),
        p is C00KeepAlive || p is C01ChatMessage || p is C07PlayerDigging
            || p is C08PlayerBlockPlacement || p is C09HeldItemChange || p is C0AAnimation
            || p is C10SetCreativeSlot,
    ensures
        spec_decode_body(p.phase(), p.id(), spec_body(p) + rest) == Ok::<_, DecodeError>(Some(p)),
{
    match p {
        PacketView::C00KeepAlive { id } => {
            lemma_take_varint_of_varint(id, rest);
        },
        PacketView::C01ChatMessage { message } => {
            lemma_take_string_of_string(message, rest);
        },
        PacketView::C07PlayerDigging { status, location, face } => {
            lemma_body_roundtrip_digging(status, location, face, rest);
        },
        PacketView::C08PlayerBlockPlacement { location, face } => {
            lemma_body_roundtrip_placement(location, face, rest);
        },
        PacketView::C09HeldItemChange { slot } => {
            lemma_take_i16_of_wire(slot, rest);
        },
        PacketView::C10SetCreativeSlot { slot_id, item } => {
            lemma_body_roundtrip_creative_slot(slot_id, item, rest);
        },
        _ => {},
    }
}

/// The body of a packet from the client, read in the packet's phase under
/// the packet's opcode, is the packet again, whatever follows the body.
pub proof fn lemma_body_roundtrip(p: PacketView, rest: Seq<u8>)
    requires
        p.serverbound(),
        spec_wire_valid(p),
    ensures
        spec_decode_body(p.phase(), p.id(), spec_body(p) + rest) == Ok::<_, DecodeError>(Some(p)),
{
    if p is C00Handshake || p is C00StatusRequest || p is C01StatusPing || p is C00LoginStart {
        lemma_body_roundtrip_setup(p, rest);
    } else if p is C03Player || p is C04PlayerPos || p is C05PlayerRot || p is C06PlayerPosRot {
        lemma_body_roundtrip_movement(p, rest);
    } else {
        lemma_body_roundtrip_actions(p, rest);
    }
}

/// The packet buffer of a packet from the client decodes to the packet in
/// the packet's phase.
pub proof fn lemma_payload_roundtrip(p: PacketView)
    requires
        p.serverbound(),
        spec_wire_valid(p),
    ensures
        spec_decode_payload(p.phase(), spec_packet_buffer(p)) == Ok::<_, DecodeError>(Some(p)),
{
    lemma_take_varint_of_varint(p.id(), spec_body(p));
    lemma_body_roundtrip(p, Seq::empty());
    assert(spec_body(p) + Seq::<u8>::empty() =~= spec_body(p));
}

/// A frame is consistent with its length prefix: a decoder at a frame's
/// start that is fed the frame followed by anything takes exactly the frame,
/// is at a frame's start again, and yields what the frame's packet buffer
/// means. `deflated` is the stream that the compressor made, where one was
/// needed; it must inflate to the buffer.
pub proof fn lemma_frame_splits(
    threshold: usize,
    phase: PlayState,
    buffer: Seq<u8>,
    deflated: Option<Seq<u8>>,
    rest: Seq<u8>,
)
    requires
        spec_frame(threshold, buffer, deflated) is Ok,
        deflated matches Some(stream) ==> spec_zlib_inflate(stream) == Some(buffer),
    ensures
        spec_decode_step(
            threshold,
            phase,
            DecoderState::Header,
            spec_frame(threshold, buffer, deflated).unwrap() + rest,
        ) == (DecodeStep {
            outcome: spec_decode_payload(phase, buffer),
            progress: DecoderState::Header,
            rest,
        }),
{
    let n = buffer.len();
    if threshold == 0 {
        lemma_frame_header(n, buffer, rest);
        lemma_concat_split(buffer, rest);
        lemma_concat_assoc(spec_varint_bytes(n), buffer, rest);
    } else if n <= threshold {
        let payload = spec_varint_bytes(0) + buffer;
        assert(spec_varint_bytes(0).len() == 1);
        lemma_frame_header((n + 1) as nat, payload, rest);
        lemma_concat_split(payload, rest);
        lemma_concat_assoc(spec_varint_bytes((n + 1) as nat), payload, rest);
        lemma_concat_assoc(spec_varint_bytes((n + 1) as nat), spec_varint_bytes(0), buffer);
        assert(spec_i32_bits(0i32) == 0);
        lemma_take_varint_of_varint(0i32, buffer);
    } else {
        let stream = deflated.unwrap();
        let size = spec_varint_bytes(n);
        let payload = size + stream;
        let m = payload.len();
        lemma_frame_header(m, payload, rest);
        lemma_concat_split(payload, rest);
        lemma_concat_assoc(spec_varint_bytes(m), payload, rest);
        lemma_concat_assoc(spec_varint_bytes(m), size, stream);
        assert(spec_i32_bits(n as i32) == n);
        lemma_take_varint_of_varint(n as i32, stream);
    }
}

/// A length prefix below the limit reads back as the length.
proof fn lemma_frame_header(n: nat, payload: Seq<u8>, rest: Seq<u8>)
    requires
        n <= PACKET_SIZE_LIMIT,
    ensures
        spec_read_varint(spec_varint_bytes(n) + (payload + rest)) == Some(
            (n as i32, spec_varint_bytes(n).len()),
        ),
        spec_i32_bits(n as i32) == n,
        (spec_varint_bytes(n) + (payload + rest)).skip(spec_varint_bytes(n).len() as int) == payload
            + rest,
{
    assert(spec_i32_bits(n as i32) == n);
    lemma_read_varint_of_varint(n as i32, payload + rest);
    lemma_concat_split(spec_varint_bytes(n), payload + rest);
}

/// Decoding what was encoded gives the packet back: a decoder at a frame's
/// start, in the packet's phase and under the encoder's threshold, that is
/// fed the frame of a packet from the client followed by anything, yields
/// the packet and leaves what followed.
pub proof fn lemma_decode_encode(
    threshold: usize,
    p: PacketView,
    deflated: Option<Seq<u8>>,
    rest: Seq<u8>,
)
    requires
        p.serverbound(),
        spec_wire_valid(p),
        spec_frame(threshold, spec_packet_buffer(p), deflated) is Ok,
        deflated matches Some(stream) ==> spec_zlib_inflate(stream) == Some(spec_packet_buffer(p)),
    ensures
        spec_decode_step(
            threshold,
            p.phase(),
            DecoderState::Header,
            spec_frame(threshold, spec_packet_buffer(p), deflated).unwrap() + rest,
        ) == (DecodeStep {
            outcome: Ok::<_, DecodeError>(Some(p)),
            progress: DecoderState::Header,
            rest,
        }),
{
    lemma_frame_splits(threshold, p.phase(), spec_packet_buffer(p), deflated, rest);
    lemma_payload_roundtrip(p);
}

/// A length prefix of exactly the limit is accepted, and one byte more is
/// refused.
pub proof fn lemma_length_limit(threshold: usize, phase: PlayState, payload: Seq<u8>, rest: Seq<u8>)
    ensures
        payload.len() == PACKET_SIZE_LIMIT ==> spec_decode_step(
            threshold,
            phase,
            DecoderState::Header,
            spec_varint_bytes(payload.len()) + payload + rest,
        ) == (DecodeStep {
            outcome: spec_decode_packed(threshold, phase, payload),
            progress: DecoderState::Header,
            rest,
        }),
        payload.len() == PACKET_SIZE_LIMIT + 1 ==> spec_decode_step(
            threshold,
            phase,
            DecoderState::Header,
            spec_varint_bytes(payload.len()) + payload + rest,
        ).outcome == Err::<Option<PacketView>, _>(DecodeError::PacketTooLarge),
{
    let n = payload.len();
    if n == PACKET_SIZE_LIMIT || n == PACKET_SIZE_LIMIT + 1 {
        assert(spec_i32_bits(n as i32) == n);
        lemma_read_varint_of_varint(n as i32, payload + rest);
        lemma_concat_assoc(spec_varint_bytes(n), payload, rest);
        lemma_concat_split(spec_varint_bytes(n), payload + rest);
        lemma_concat_split(payload, rest);
    }
}

/// Under compression, a payload that declares an inflated size of zero is
/// read as it stands: nothing is inflated.
pub proof fn lemma_zero_size_skips_inflate(threshold: usize, phase: PlayState, data: Seq<u8>)
    requires
        threshold > 0,
    ensures
        spec_decode_packed(threshold, phase, spec_varint(0) + data) == spec_decode_payload(
            phase,
            data,
        ),
{
    lemma_take_varint_of_varint(0, data);
}

} // verus!
