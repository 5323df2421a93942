//! What the bytes of a packet body mean, phase by phase, and the decoder
//! that reads them.
//!
//! An opcode that a phase does not define is no error: it decodes to no
//! packet. Bytes that follow the last field of a body are not looked at.

use crate::mc::buffer::ReadBuffer;
use crate::mc::proto::{DiggingStatus, Packet, PacketView, PlayState};
use crate::mc::wire::{
    spec_take_bool, spec_take_i16, spec_take_i64, spec_take_string, spec_take_u16,
    spec_take_u32, spec_take_u64, spec_take_u8, spec_take_varint, DecodeError,
};
use crate::model::ItemStack;
use crate::world::{BlockFace, BlockPos};
use vstd::prelude::*;

verus! {

/// The view of a packet that may be absent.
pub open spec fn spec_opt_packet_view(p: Option<Packet>) -> Option<PacketView> {
    match p {
        Some(p) => Some(p@),
        None => None,
    }
}

/// How a decoder's result stands to the model of what the bytes mean.
pub open spec fn spec_decoded(
    outcome: Result<Option<Packet>, DecodeError>,
    model: Result<Option<PacketView>, DecodeError>,
) -> bool {
    match outcome {
        Ok(p) => model == Ok::<_, DecodeError>(spec_opt_packet_view(p)),
        Err(e) => model == Err::<Option<PacketView>, _>(e),
    }
}

/// The body of a handshake: protocol version, server address, server port,
/// and the phase asked for, which must be status or login.
pub open spec fn spec_parse_handshake(body: Seq<u8>) -> Result<Option<PacketView>, DecodeError> {
    match spec_take_varint(body) {
        Err(e) => Err(e),
        Ok((protocol_version, r1)) => match spec_take_string(r1) {
            Err(e) => Err(e),
            Ok((server_address, r2)) => match spec_take_u16(r2) {
                Err(e) => Err(e),
                Ok((server_port, r3)) => match spec_take_varint(r3) {
                    Err(e) => Err(e),
                    Ok((next, _)) => match PlayState::spec_from_i32(next) {
                        None => Err(DecodeError::InvalidValue),
                        Some(next_state) => Ok(
                            Some(
                                PacketView::C00Handshake {
                                    protocol_version,
                                    server_address,
                                    server_port,
                                    next_state,
                                },
                            ),
                        ),
                    },
                },
            },
        },
    }
}

/// Three 64-bit fields in a row.
pub open spec fn spec_take_three_u64(body: Seq<u8>) -> Result<((u64, u64, u64), Seq<u8>), DecodeError> {
    match spec_take_u64(body) {
        Err(e) => Err(e),
        Ok((x, r1)) => match spec_take_u64(r1) {
            Err(e) => Err(e),
            Ok((y, r2)) => match spec_take_u64(r2) {
                Err(e) => Err(e),
                Ok((z, r3)) => Ok(((x, y, z), r3)),
            },
        },
    }
}

/// Two 32-bit fields in a row.
pub open spec fn spec_take_two_u32(body: Seq<u8>) -> Result<((u32, u32), Seq<u8>), DecodeError> {
    match spec_take_u32(body) {
        Err(e) => Err(e),
        Ok((a, r1)) => match spec_take_u32(r1) {
            Err(e) => Err(e),
            Ok((b, r2)) => Ok(((a, b), r2)),
        },
    }
}

pub open spec fn spec_parse_player_pos(body: Seq<u8>) -> Result<Option<PacketView>, DecodeError> {
    match spec_take_three_u64(body) {
        Err(e) => Err(e),
        Ok(((x, y, z), r1)) => match spec_take_bool(r1) {
            Err(e) => Err(e),
            Ok((on_ground, _)) => Ok(Some(PacketView::C04PlayerPos { x, y, z, on_ground })),
        },
    }
}

pub open spec fn spec_parse_player_rot(body: Seq<u8>) -> Result<Option<PacketView>, DecodeError> {
    match spec_take_two_u32(body) {
        Err(e) => Err(e),
        Ok(((yaw, pitch), r1)) => match spec_take_bool(r1) {
            Err(e) => Err(e),
            Ok((on_ground, _)) => Ok(Some(PacketView::C05PlayerRot { yaw, pitch, on_ground })),
        },
    }
}

pub open spec fn spec_parse_player_pos_rot(body: Seq<u8>) -> Result<Option<PacketView>, DecodeError> {
    match spec_take_three_u64(body) {
        Err(e) => Err(e),
        Ok(((x, y, z), r1)) => match spec_take_two_u32(r1) {
            Err(e) => Err(e),
            Ok(((yaw, pitch), r2)) => match spec_take_bool(r2) {
                Err(e) => Err(e),
                Ok((on_ground, _)) => Ok(
                    Some(PacketView::C06PlayerPosRot { x, y, z, yaw, pitch, on_ground }),
                ),
            },
        },
    }
}

/// The body of a digging packet: a status below 6, a packed position, a face.
pub open spec fn spec_parse_digging(body: Seq<u8>) -> Result<Option<PacketView>, DecodeError> {
    match spec_take_u8(body) {
        Err(e) => Err(e),
        Ok((status, r1)) => match DiggingStatus::spec_from_u8(status) {
            None => Err(DecodeError::InvalidValue),
            Some(status) => match spec_take_u64(r1) {
                Err(e) => Err(e),
                Ok((packed, r2)) => match spec_take_u8(r2) {
                    Err(e) => Err(e),
                    Ok((face, _)) => Ok(
                        Some(
                            PacketView::C07PlayerDigging {
                                status,
                                location: BlockPos::spec_from_u64(packed),
                                face,
                            },
                        ),
                    ),
                },
            },
        },
    }
}

/// The body of a block placement: a packed position and a face. The held
/// item and the cursor that follow are not read.
pub open spec fn spec_parse_placement(body: Seq<u8>) -> Result<Option<PacketView>, DecodeError> {
    match spec_take_u64(body) {
        Err(e) => Err(e),
        Ok((packed, r1)) => match spec_take_u8(r1) {
            Err(e) => Err(e),
            Ok((face, _)) => match BlockFace::spec_from_u8(face) {
                None => Err(DecodeError::InvalidValue),
                Some(face) => Ok(
                    Some(
                        PacketView::C08PlayerBlockPlacement {
                            location: BlockPos::spec_from_u64(packed),
                            face,
                        },
                    ),
                ),
            },
        },
    }
}

pub open spec fn spec_parse_creative_slot(body: Seq<u8>) -> Result<Option<PacketView>, DecodeError> {
    match spec_take_i16(body) {
        Err(e) => Err(e),
        Ok((slot_id, r1)) => match ItemStack::spec_take(r1) {
            Err(e) => Err(e),
            Ok((item, _)) => Ok(Some(PacketView::C10SetCreativeSlot { slot_id, item })),
        },
    }
}

/// What a body means in the handshake phase.
pub open spec fn spec_decode_handshake_packet(packet_id: i32, body: Seq<u8>) -> Result<
    Option<PacketView>,
    DecodeError,
> {
    if packet_id == 0x00 {
        spec_parse_handshake(body)
    } else {
        Ok(None)
    }
}

/// What a body means in the status phase.
pub open spec fn spec_decode_status_packet(packet_id: i32, body: Seq<u8>) -> Result<
    Option<PacketView>,
    DecodeError,
> {
    if packet_id == 0x00 {
        Ok(Some(PacketView::C00StatusRequest))
    } else if packet_id == 0x01 {
        match spec_take_i64(body) {
            Err(e) => Err(e),
            Ok((timestamp, _)) => Ok(Some(PacketView::C01StatusPing { timestamp })),
        }
    } else {
        Ok(None)
    }
}

/// What a body means in the login phase.
pub open spec fn spec_decode_login_packet(packet_id: i32, body: Seq<u8>) -> Result<
    Option<PacketView>,
    DecodeError,
> {
    if packet_id == 0x00 {
        match spec_take_string(body) {
            Err(e) => Err(e),
            Ok((username, _)) => Ok(Some(PacketView::C00LoginStart { username })),
        }
    } else {
        Ok(None)
    }
}

/// What a body means in the play phase.
pub open spec fn spec_decode_play_packet(packet_id: i32, body: Seq<u8>) -> Result<
    Option<PacketView>,
    DecodeError,
> {
    if packet_id == 0x00 {
        match spec_take_varint(body) {
            Err(e) => Err(e),
            Ok((id, _)) => Ok(Some(PacketView::C00KeepAlive { id })),
        }
    } else if packet_id == 0x01 {
        match spec_take_string(body) {
            Err(e) => Err(e),
            Ok((message, _)) => Ok(Some(PacketView::C01ChatMessage { message })),
        }
    } else if packet_id == 0x03 {
        match spec_take_bool(body) {
            Err(e) => Err(e),
            Ok((on_ground, _)) => Ok(Some(PacketView::C03Player { on_ground })),
        }
    } else if packet_id == 0x04 {
        spec_parse_player_pos(body)
    } else if packet_id == 0x05 {
        spec_parse_player_rot(body)
    } else if packet_id == 0x06 {
        spec_parse_player_pos_rot(body)
    } else if packet_id == 0x07 {
        spec_parse_digging(body)
    } else if packet_id == 0x08 {
        spec_parse_placement(body)
    } else if packet_id == 0x09 {
        match spec_take_i16(body) {
            Err(e) => Err(e),
            Ok((slot, _)) => Ok(Some(PacketView::C09HeldItemChange { slot })),
        }
    } else if packet_id == 0x0A {
        Ok(Some(PacketView::C0AAnimation))
    } else if packet_id == 0x10 {
        spec_parse_creative_slot(body)
    } else {
        Ok(None)
    }
}

/// What a body means in `phase`.
pub open spec fn spec_decode_body(phase: PlayState, packet_id: i32, body: Seq<u8>) -> Result<
    Option<PacketView>,
    DecodeError,
> {
    match phase {
        PlayState::Handshake => spec_decode_handshake_packet(packet_id, body),
        PlayState::Status => spec_decode_status_packet(packet_id, body),
        PlayState::Login => spec_decode_login_packet(packet_id, body),
        PlayState::Play => spec_decode_play_packet(packet_id, body),
    }
}

/// What an uncompressed payload means in `phase`: an opcode, then a body.
pub open spec fn spec_decode_payload(phase: PlayState, payload: Seq<u8>) -> Result<
    Option<PacketView>,
    DecodeError,
> {
    match spec_take_varint(payload) {
        Err(e) => Err(e),
        Ok((packet_id, body)) => spec_decode_body(phase, packet_id, body),
    }
}

/// Decodes a body of the handshake phase.
pub fn decode_handshake_packet(packet_id: i32, buf: &mut ReadBuffer) -> (outcome: Result<
    Option<Packet>,
    DecodeError,
>)
    ensures
        spec_decoded(outcome, spec_decode_handshake_packet(packet_id, old(buf)@)),
{
    match packet_id {
        0x00 => {
            let protocol_version = buf.get_var_int()?;
            let server_address = buf.get_string()?;
            let server_port = buf.get_u16()?;
            let next = buf.get_var_int()?;
            match PlayState::from_i32(next) {
                Some(next_state) => Ok(
                    Some(
                        Packet::C00Handshake {
                            protocol_version,
                            server_address,
                            server_port,
                            next_state,
                        },
                    ),
                ),
                None => Err(DecodeError::InvalidValue),
            }
        },
        _ => Ok(None),
    }
}

/// Decodes a body of the status phase.
pub fn decode_status_packet(packet_id: i32, buf: &mut ReadBuffer) -> (outcome: Result<
    Option<Packet>,
    DecodeError,
>)
    ensures
        spec_decoded(outcome, spec_decode_status_packet(packet_id, old(buf)@)),
{
    match packet_id {
        0x00 => Ok(Some(Packet::C00StatusRequest)),
        0x01 => {
            let timestamp = buf.get_i64()?;
            Ok(Some(Packet::C01StatusPing { timestamp }))
        },
        _ => Ok(None),
    }
}

/// Decodes a body of the login phase.
pub fn decode_login_packet(packet_id: i32, buf: &mut ReadBuffer) -> (outcome: Result<
    Option<Packet>,
    DecodeError,
>)
    ensures
        spec_decoded(outcome, spec_decode_login_packet(packet_id, old(buf)@)),
{
    match packet_id {
        0x00 => {
            let username = buf.get_string()?;
            Ok(Some(Packet::C00LoginStart { username }))
        },
        _ => Ok(None),
    }
}

fn decode_movement(packet_id: i32, buf: &mut ReadBuffer) -> (outcome: Result<
    Option<Packet>,
    DecodeError,
>)
    requires
        0x03 <= packet_id <= 0x06,
    ensures
        spec_decoded(outcome, spec_decode_play_packet(packet_id, old(buf)@)),
{
    match packet_id {
        0x03 => {
            let on_ground = buf.get_bool()?;
            Ok(Some(Packet::C03Player { on_ground }))
        },
        0x04 => {
            let x = buf.get_u64()?;
            let y = buf.get_u64()?;
            let z = buf.get_u64()?;
            let on_ground = buf.get_bool()?;
            Ok(Some(Packet::C04PlayerPos { x, y, z, on_ground }))
        },
        0x05 => {
            let yaw = buf.get_u32()?;
            let pitch = buf.get_u32()?;
            let on_ground = buf.get_bool()?;
            Ok(Some(Packet::C05PlayerRot { yaw, pitch, on_ground }))
        },
        _ => {
            let x = buf.get_u64()?;
            let y = buf.get_u64()?;
            let z = buf.get_u64()?;
            let yaw = buf.get_u32()?;
            let pitch = buf.get_u32()?;
            let on_ground = buf.get_bool()?;
            Ok(Some(Packet::C06PlayerPosRot { x, y, z, yaw, pitch, on_ground }))
        },
    }
}

fn decode_block_action(packet_id: i32, buf: &mut ReadBuffer) -> (outcome: Result<
    Option<Packet>,
    DecodeError,
>)
    requires
        packet_id == 0x07 || packet_id == 0x08 || packet_id == 0x10,
    ensures
        spec_decoded(outcome, spec_decode_play_packet(packet_id, old(buf)@)),
{
    match packet_id {
        0x07 => {
            let status = match DiggingStatus::from_u8(buf.get_u8()?) {
                Some(status) => status,
                None => {
                    return Err(DecodeError::InvalidValue);
                },
            };
            let location = BlockPos::from_u64(buf.get_u64()?);
            let face = buf.get_u8()?;
            Ok(Some(Packet::C07PlayerDigging { status, location, face }))
        },
        0x08 => {
            let location = BlockPos::from_u64(buf.get_u64()?);
            match BlockFace::from_u8(buf.get_u8()?) {
                Some(face) => Ok(Some(Packet::C08PlayerBlockPlacement { location, face })),
                None => Err(DecodeError::InvalidValue),
            }
        },
        _ => {
            let slot_id = buf.get_i16()?;
            let item = ItemStack::read(buf)?;
            Ok(Some(Packet::C10SetCreativeSlot { slot_id, item }))
        },
    }
}

/// Decodes a body of the play phase.
pub fn decode_play_packet(packet_id: i32, buf: &mut ReadBuffer) -> (outcome: Result<
    Option<Packet>,
    DecodeError,
>)
    ensures
        spec_decoded(outcome, spec_decode_play_packet(packet_id, old(buf)@)),
{
    match packet_id {
        0x00 => {
            let id = buf.get_var_int()?;
            Ok(Some(Packet::C00KeepAlive { id }))
        },
        0x01 => {
            let message = buf.get_string()?;
            Ok(Some(Packet::C01ChatMessage { message }))
        },
        0x03 | 0x04 | 0x05 | 0x06 => decode_movement(packet_id, buf),
        0x07 | 0x08 | 0x10 => decode_block_action(packet_id, buf),
        0x09 => {
            let slot = buf.get_i16()?;
            Ok(Some(Packet::C09HeldItemChange { slot }))
        },
        0x0A => Ok(Some(Packet::C0AAnimation)),
        _ => Ok(None),
    }
}

/// Decodes an uncompressed payload: reads the opcode and then the body that
/// `phase` defines for it.
pub fn decode_payload(phase: PlayState, payload: Vec<u8>) -> (outcome: Result<
    Option<Packet>,
    DecodeError,
>)
    ensures
        spec_decoded(outcome, spec_decode_payload(phase, payload@)),
{
    let mut buf = ReadBuffer::new(payload);
    let packet_id = buf.get_var_int()?;
    match phase {
        PlayState::Handshake => decode_handshake_packet(packet_id, &mut buf),
        PlayState::Status => decode_status_packet(packet_id, &mut buf),
        PlayState::Login => decode_login_packet(packet_id, &mut buf),
        PlayState::Play => decode_play_packet(packet_id, &mut buf),
    }
}

} // verus!
