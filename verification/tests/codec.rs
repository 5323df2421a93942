use bytes::BytesMut;
use rustcraft::mc::codec::{
    frame_packet, DecoderState, EncodeError, MinecraftBufExt, MinecraftCodec, PACKET_SIZE_LIMIT,
};
use rustcraft::mc::decode::{decode_payload, decode_play_packet, decode_status_packet};
use rustcraft::mc::encode::{encodable, encode_packet, section_mask};
use rustcraft::mc::buffer::{ReadBuffer, WriteBuffer};
use rustcraft::mc::proto::{
    AbilityFlags, DiggingStatus, EntityMetaData, EntityMetaEntry, GameStateReason, Packet,
    PlayState, PlayerListItemAction,
};
use rustcraft::mc::wire::DecodeError;
use rustcraft::mc::zlib::{compress, decompress};
use rustcraft::model::{GameMode, ItemStack};
use rustcraft::world::{BlockFace, BlockPos, Chunk};

fn body(packet: &Packet) -> Vec<u8> {
    let mut buf = WriteBuffer::new();
    encode_packet(packet, &mut buf);
    buf.into_vec()
}

fn codec_in(phase: PlayState, threshold: usize) -> MinecraftCodec {
    let mut codec = MinecraftCodec::new();
    codec.change_state(phase);
    codec.change_compression_threshold(threshold);
    codec
}

fn client_packets() -> Vec<(PlayState, Packet)> {
    vec![
        (
            PlayState::Handshake,
            Packet::C00Handshake {
                protocol_version: 47,
                server_address: "x".to_string(),
                server_port: 25565,
                next_state: PlayState::Status,
            },
        ),
        (
            PlayState::Handshake,
            Packet::C00Handshake {
                protocol_version: -5,
                server_address: "play.example.org".to_string(),
                server_port: 1,
                next_state: PlayState::Login,
            },
        ),
        (PlayState::Status, Packet::C00StatusRequest),
        (PlayState::Status, Packet::C01StatusPing { timestamp: 12345 }),
        (PlayState::Status, Packet::C01StatusPing { timestamp: i64::MIN }),
        (PlayState::Login, Packet::C00LoginStart { username: "ada".to_string() }),
        (PlayState::Play, Packet::C00KeepAlive { id: -7 }),
        (PlayState::Play, Packet::C01ChatMessage { message: "hi \u{a7}b there".to_string() }),
        (PlayState::Play, Packet::C03Player { on_ground: true }),
        (
            PlayState::Play,
            Packet::C04PlayerPos {
                x: 17.5f64.to_bits(),
                y: 65.0f64.to_bits(),
                z: (-3.25f64).to_bits(),
                on_ground: true,
            },
        ),
        (
            PlayState::Play,
            Packet::C05PlayerRot {
                yaw: 90.0f32.to_bits(),
                pitch: (-45.5f32).to_bits(),
                on_ground: false,
            },
        ),
        (
            PlayState::Play,
            Packet::C06PlayerPosRot {
                x: f64::MAX.to_bits(),
                y: f64::NAN.to_bits(),
                z: 0.0f64.to_bits(),
                yaw: 1.5f32.to_bits(),
                pitch: f32::INFINITY.to_bits(),
                on_ground: true,
            },
        ),
        (
            PlayState::Play,
            Packet::C07PlayerDigging {
                status: DiggingStatus::FinishDigging,
                location: BlockPos::new(-10, 63, 1000),
                face: 1,
            },
        ),
        (
            PlayState::Play,
            Packet::C08PlayerBlockPlacement {
                location: BlockPos::new(5, 70, -5),
                face: BlockFace::PosY,
            },
        ),
        (PlayState::Play, Packet::C09HeldItemChange { slot: 8 }),
        (PlayState::Play, Packet::C0AAnimation),
        (
            PlayState::Play,
            Packet::C10SetCreativeSlot {
                slot_id: 36,
                item: ItemStack { id: 1, count: 64, damage: 3 },
            },
        ),
        (
            PlayState::Play,
            Packet::C10SetCreativeSlot { slot_id: -1, item: ItemStack::default() },
        ),
    ]
}

#[test]
fn decode_of_encode_is_the_packet_without_compression() {
    for (phase, packet) in client_packets() {
        let mut codec = codec_in(phase, 0);
        let mut wire = BytesMut::new();
        assert_eq!(codec.encode(packet.clone(), &mut wire), Ok(()));
        assert_eq!(codec.decode(&mut wire), Ok(Some(packet)));
        assert_eq!(wire.len(), 0);
        assert_eq!(codec.decoder_state(), DecoderState::Header);
    }
}

#[test]
fn decode_of_encode_is_the_packet_with_compression() {
    for threshold in [1, 8, 256] {
        for (phase, packet) in client_packets() {
            let mut codec = codec_in(phase, threshold);
            let mut wire = BytesMut::new();
            assert_eq!(codec.encode(packet.clone(), &mut wire), Ok(()));
            assert_eq!(codec.decode(&mut wire), Ok(Some(packet)));
            assert_eq!(wire.len(), 0);
        }
    }
}

#[test]
fn frames_split_on_their_length_prefix() {
    let mut encoder = codec_in(PlayState::Play, 4);
    let mut wire = BytesMut::new();
    let packets: Vec<Packet> = client_packets()
        .into_iter()
        .filter(|(phase, _)| *phase == PlayState::Play)
        .map(|(_, packet)| packet)
        .collect();
    for packet in &packets {
        assert_eq!(encoder.encode(packet.clone(), &mut wire), Ok(()));
    }
    wire.extend_from_slice(&[0x05, 0x00]);
    let mut decoder = codec_in(PlayState::Play, 4);
    for packet in &packets {
        assert_eq!(decoder.decode(&mut wire), Ok(Some(packet.clone())));
    }
    assert_eq!(&wire[..], &[0x05, 0x00]);
}

#[test]
fn decoder_waits_for_the_rest_of_a_frame() {
    let mut codec = codec_in(PlayState::Status, 0);
    let mut wire = BytesMut::new();
    assert_eq!(codec.decode(&mut wire), Ok(None));
    wire.extend_from_slice(&[9, 1, 0, 0]);
    assert_eq!(codec.decode(&mut wire), Ok(None));
    assert_eq!(codec.decoder_state(), DecoderState::Body(9));
    assert_eq!(wire.len(), 3);
    wire.extend_from_slice(&[0, 0, 0, 0, 0x30]);
    assert_eq!(codec.decode(&mut wire), Ok(None));
    wire.extend_from_slice(&[0x39, 0xff]);
    assert_eq!(codec.decode(&mut wire), Ok(Some(Packet::C01StatusPing { timestamp: 12345 })));
    assert_eq!(codec.decoder_state(), DecoderState::Header);
    assert_eq!(&wire[..], &[0xff]);
}

#[test]
fn decoder_waits_for_the_rest_of_a_length_prefix() {
    let mut codec = codec_in(PlayState::Status, 0);
    let mut wire = BytesMut::from(&[0x80u8, 0x80][..]);
    assert_eq!(codec.decode(&mut wire), Ok(None));
    assert_eq!(wire.len(), 2);
    assert_eq!(codec.decoder_state(), DecoderState::Header);
}

#[test]
fn length_prefix_with_five_continuations_is_rejected() {
    let mut codec = codec_in(PlayState::Status, 0);
    let mut wire = BytesMut::from(&[0x80u8, 0x80, 0x80, 0x80, 0x80, 0x00][..]);
    assert_eq!(codec.decode(&mut wire), Err(DecodeError::MalformedVarInt));
}

#[test]
fn packet_of_exactly_the_limit_decodes() {
    let mut codec = codec_in(PlayState::Status, 0);
    let mut wire = BytesMut::new();
    wire.put_var_int(PACKET_SIZE_LIMIT as i32);
    let mut payload = vec![0u8; PACKET_SIZE_LIMIT];
    payload[0] = 0x00;
    wire.extend_from_slice(&payload);
    assert_eq!(codec.decode(&mut wire), Ok(Some(Packet::C00StatusRequest)));
    assert_eq!(wire.len(), 0);
}

#[test]
fn packet_of_one_byte_above_the_limit_is_rejected() {
    let mut codec = codec_in(PlayState::Status, 0);
    let mut wire = BytesMut::new();
    wire.put_var_int(PACKET_SIZE_LIMIT as i32 + 1);
    wire.extend_from_slice(&vec![0u8; PACKET_SIZE_LIMIT + 1]);
    assert_eq!(codec.decode(&mut wire), Err(DecodeError::PacketTooLarge));
}

#[test]
fn negative_length_prefix_is_rejected_as_too_large() {
    let mut codec = codec_in(PlayState::Status, 0);
    let mut wire = BytesMut::new();
    wire.put_var_int(-1);
    assert_eq!(codec.decode(&mut wire), Err(DecodeError::PacketTooLarge));
}

#[test]
fn uncompressed_size_of_zero_skips_decompression() {
    let mut codec = codec_in(PlayState::Status, 256);
    // length 10, uncompressed size 0, opcode 1, timestamp
    let mut wire = BytesMut::from(&[10u8, 0, 1, 0, 0, 0, 0, 0, 0, 0x30, 0x39][..]);
    assert_eq!(codec.decode(&mut wire), Ok(Some(Packet::C01StatusPing { timestamp: 12345 })));
}

#[test]
fn compressed_payload_is_inflated() {
    let payload = [1u8, 0, 0, 0, 0, 0, 0, 0x30, 0x39];
    let stream = compress(&payload).unwrap();
    let mut wire = BytesMut::new();
    wire.put_var_int(stream.len() as i32 + 1);
    wire.put_var_int(payload.len() as i32);
    wire.extend_from_slice(&stream);
    let mut codec = codec_in(PlayState::Status, 4);
    assert_eq!(codec.decode(&mut wire), Ok(Some(Packet::C01StatusPing { timestamp: 12345 })));
}

#[test]
fn broken_compressed_payload_is_an_error() {
    let mut codec = codec_in(PlayState::Status, 4);
    let mut wire = BytesMut::from(&[4u8, 9, 1, 2, 3][..]);
    assert_eq!(codec.decode(&mut wire), Err(DecodeError::InvalidCompression));
    assert_eq!(wire.len(), 0);
    assert_eq!(codec.decoder_state(), DecoderState::Header);
}

#[test]
fn unknown_opcode_is_no_packet() {
    let mut codec = codec_in(PlayState::Play, 0);
    let mut wire = BytesMut::from(&[2u8, 0x7e, 0x01, 0xaa][..]);
    assert_eq!(codec.decode(&mut wire), Ok(None));
    assert_eq!(&wire[..], &[0xaa]);
    assert_eq!(codec.decoder_state(), DecoderState::Header);
    let mut codec = codec_in(PlayState::Handshake, 0);
    let mut wire = BytesMut::from(&[1u8, 0x01][..]);
    assert_eq!(codec.decode(&mut wire), Ok(None));
    let mut codec = codec_in(PlayState::Login, 0);
    let mut wire = BytesMut::from(&[1u8, 0x01][..]);
    assert_eq!(codec.decode(&mut wire), Ok(None));
}

#[test]
fn opcodes_are_disambiguated_by_phase() {
    let bytes = [2u8, 0x00, 0x05];
    let mut codec = codec_in(PlayState::Status, 0);
    assert_eq!(
        codec.decode(&mut BytesMut::from(&bytes[..])),
        Ok(Some(Packet::C00StatusRequest))
    );
    let mut codec = codec_in(PlayState::Play, 0);
    assert_eq!(
        codec.decode(&mut BytesMut::from(&bytes[..])),
        Ok(Some(Packet::C00KeepAlive { id: 5 }))
    );
}

#[test]
fn truncated_body_is_an_error() {
    let mut codec = codec_in(PlayState::Status, 0);
    let mut wire = BytesMut::from(&[3u8, 0x01, 0, 0][..]);
    assert_eq!(codec.decode(&mut wire), Err(DecodeError::UnexpectedEnd));
    let mut codec = codec_in(PlayState::Play, 0);
    let mut wire = BytesMut::from(&[0u8][..]);
    assert_eq!(codec.decode(&mut wire), Err(DecodeError::UnexpectedEnd));
}

#[test]
fn handshake_with_unknown_next_state_is_an_error() {
    let mut buf = ReadBuffer::new(vec![47, 1, b'x', 0x63, 0xdd, 3]);
    assert_eq!(
        rustcraft::mc::decode::decode_handshake_packet(0, &mut buf),
        Err(DecodeError::InvalidValue)
    );
}

#[test]
fn digging_and_placement_reject_unknown_enum_values() {
    let mut buf = ReadBuffer::new(vec![6, 0, 0, 0, 0, 0, 0, 0, 0, 1]);
    assert_eq!(decode_play_packet(0x07, &mut buf), Err(DecodeError::InvalidValue));
    let mut buf = ReadBuffer::new(vec![0, 0, 0, 0, 0, 0, 0, 0, 9]);
    assert_eq!(decode_play_packet(0x08, &mut buf), Err(DecodeError::InvalidValue));
}

#[test]
fn placement_ignores_the_held_item_and_the_cursor() {
    let mut buf = ReadBuffer::new(vec![0, 0, 0, 0, 0xfc, 0, 0, 0, 1, 0, 1, 64, 0, 0, 0, 8, 8, 8]);
    assert_eq!(
        decode_play_packet(0x08, &mut buf),
        Ok(Some(Packet::C08PlayerBlockPlacement {
            location: BlockPos::new(0, 63, 0),
            face: BlockFace::PosY
        }))
    );
}

#[test]
fn status_ping_body_layout() {
    let mut buf = ReadBuffer::new(vec![0, 0, 0, 0, 0, 0, 0x30, 0x39]);
    assert_eq!(
        decode_status_packet(1, &mut buf),
        Ok(Some(Packet::C01StatusPing { timestamp: 12345 }))
    );
    assert_eq!(
        decode_payload(PlayState::Status, vec![1, 0, 0, 0, 0, 0, 0, 0x30, 0x39]),
        Ok(Some(Packet::C01StatusPing { timestamp: 12345 }))
    );
}

#[test]
fn server_packet_bodies_have_the_documented_layout() {
    assert_eq!(body(&Packet::S01StatusPong { timestamp: 1 }), vec![0, 0, 0, 0, 0, 0, 0, 1]);
    assert_eq!(body(&Packet::S03LoginCompression { threshold: 256 }), vec![0x80, 0x02]);
    assert_eq!(
        body(&Packet::S02LoginSuccess { uuid: "u".to_string(), username: "ada".to_string() }),
        vec![1, b'u', 3, b'a', b'd', b'a']
    );
    assert_eq!(
        body(&Packet::S01JoinGame {
            entity_id: 7,
            game_mode: GameMode::Creative,
            dimension: 0,
            difficulty: 2,
            player_list_size: 4,
            world_type: "default".to_string(),
            reduced_debug_info: false,
        }),
        vec![0, 0, 0, 7, 1, 0, 2, 4, 7, b'd', b'e', b'f', b'a', b'u', b'l', b't', 0]
    );
    assert_eq!(
        body(&Packet::S02ChatMessage { json_data: "{}".to_string(), position: 1 }),
        vec![2, b'{', b'}', 1]
    );
    assert_eq!(
        body(&Packet::S21ChunkData { x: 1, z: -1 }),
        vec![0, 0, 0, 1, 0xff, 0xff, 0xff, 0xff, 1, 0, 0, 0]
    );
    assert_eq!(
        body(&Packet::S23BlockChange { location: BlockPos::new(0, 63, 0), block_state: 300 }),
        vec![0, 0, 0, 0, 0xfc, 0, 0, 0, 0xac, 0x02]
    );
    assert_eq!(
        body(&Packet::S2BChangeGameState {
            reason: GameStateReason::ChangeGameMode,
            value: 1.0f32.to_bits()
        }),
        vec![3, 0x3f, 0x80, 0, 0]
    );
    assert_eq!(
        body(&Packet::S0ESpawnObject {
            entity_id: 9,
            kind: 2,
            x: 16,
            y: 2032,
            z: -16,
            pitch: 0,
            yaw: 0,
            data: 0
        }),
        vec![9, 2, 0, 0, 0, 16, 0, 0, 7, 0xf0, 0xff, 0xff, 0xff, 0xf0, 0, 0, 0, 0, 0, 0]
    );
    assert_eq!(
        body(&Packet::S08SetPlayerPosition {
            x: 0,
            y: 64.0f64.to_bits(),
            z: 0,
            yaw: 0,
            pitch: 0,
            flags: 0
        }),
        vec![
            0, 0, 0, 0, 0, 0, 0, 0, 0x40, 0x50, 0, 0, 0, 0, 0, 0, 0, 0, 0, 0, 0, 0, 0, 0, 0, 0,
            0, 0, 0, 0, 0, 0, 0
        ]
    );
}

#[test]
fn ability_flags_byte() {
    for (mode, byte) in [
        (GameMode::Survival, 0u8),
        (GameMode::Creative, 1 | 4 | 8),
        (GameMode::Adventure, 0),
        (GameMode::Spectator, 1 | 2 | 4),
    ] {
        let flags = AbilityFlags::from_game_mode(mode);
        assert_eq!(flags.to_byte(), byte);
        assert_eq!(
            body(&Packet::S39PlayerAbilities {
                flags,
                flying_speed: 0.05f32.to_bits(),
                walking_speed: 0.1f32.to_bits()
            }),
            vec![byte, 0x3d, 0x4c, 0xcc, 0xcd, 0x3d, 0xcc, 0xcc, 0xcd]
        );
    }
    assert_eq!(AbilityFlags::new(true, false, false, false).to_byte(), 4);
    assert_eq!(AbilityFlags::new(false, true, false, false).to_byte(), 8);
    assert_eq!(AbilityFlags::new(false, false, true, false).to_byte(), 2);
    assert_eq!(AbilityFlags::new(false, false, false, true).to_byte(), 1);
}

#[test]
fn entity_metadata_layout() {
    let packet = Packet::S1CEntityMeta {
        entity_id: 5,
        entries: vec![
            EntityMetaEntry::new(
                10,
                EntityMetaData::Slot(ItemStack { id: 3, count: 1, damage: 2 }),
            ),
            EntityMetaEntry::new(0, EntityMetaData::Byte(7)),
            EntityMetaEntry::new(33, EntityMetaData::Short(-1)),
            EntityMetaEntry::new(2, EntityMetaData::String("a".to_string())),
        ],
    };
    assert_eq!(
        body(&packet),
        vec![
            5,
            (5 << 5) | 10,
            0,
            3,
            1,
            0,
            2,
            0,
            0,
            7,
            (1 << 5) | 1,
            0xff,
            0xff,
            (4 << 5) | 2,
            1,
            b'a',
            0x7f
        ]
    );
    let data = [
        EntityMetaData::Byte(0),
        EntityMetaData::Short(0),
        EntityMetaData::Int(0),
        EntityMetaData::Float(0),
        EntityMetaData::String(String::new()),
        EntityMetaData::Slot(ItemStack::default()),
        EntityMetaData::Vec3i { x: 0, y: 0, z: 0 },
        EntityMetaData::Vec3f { x: 0, y: 0, z: 0 },
    ];
    for (i, d) in data.iter().enumerate() {
        assert_eq!(d.type_id() as usize, i);
    }
}

#[test]
fn player_list_item_layout() {
    let uuid = 0x0102030405060708090a0b0c0d0e0f10u128;
    let packet = Packet::S38PlayerListItem {
        uuid,
        action: PlayerListItemAction::AddPlayer {
            name: "ada".to_string(),
            game_mode: GameMode::Creative,
            ping: 0,
            display_name: None,
        },
    };
    let mut expected = vec![0, 1];
    expected.extend_from_slice(&uuid.to_be_bytes());
    expected.extend_from_slice(&[3, b'a', b'd', b'a', 0, 1, 0, 0]);
    assert_eq!(body(&packet), expected);
    let packet = Packet::S38PlayerListItem {
        uuid,
        action: PlayerListItemAction::UpdateDisplayName { display_name: Some("b".to_string()) },
    };
    let mut expected = vec![3, 1];
    expected.extend_from_slice(&uuid.to_be_bytes());
    expected.extend_from_slice(&[1, 1, b'b']);
    assert_eq!(body(&packet), expected);
    assert_eq!(PlayerListItemAction::UpdateGameMode { game_mode: GameMode::Survival }.id(), 1);
    assert_eq!(PlayerListItemAction::UpdateLatency { ping: 3 }.id(), 2);
    assert_eq!(PlayerListItemAction::RemovePlayer.id(), 4);
}

#[test]
fn map_chunk_bulk_layout() {
    let mut first = Chunk::new(1, -2);
    first.set_block(0, 0, 0, 0x1234);
    first.set_block(15, 255, 15, 0x0010);
    first.set_biome(0, 0, 9);
    let second = Chunk::new(3, 4);
    assert_eq!(section_mask(&first), (0x8001, 2));
    assert_eq!(section_mask(&second), (0, 0));
    let bytes = body(&Packet::S26MapChunkBulk { skylight: true, chunks: vec![first, second] });
    let mut expected = vec![1, 2];
    expected.extend_from_slice(&[0, 0, 0, 1, 0xff, 0xff, 0xff, 0xfe, 0x80, 0x01]);
    expected.extend_from_slice(&[0, 0, 0, 3, 0, 0, 0, 4, 0, 0]);
    assert_eq!(&bytes[..22], &expected[..]);
    let data = &bytes[22..];
    assert_eq!(data.len(), 2 * 8192 + 2 * 4096 + 256 + 256);
    assert_eq!(&data[..2], &[0x34, 0x12]);
    assert!(data[2..8192].iter().all(|b| *b == 0));
    assert_eq!(&data[2 * 8192 - 2..2 * 8192], &[0x10, 0x00]);
    assert!(data[2 * 8192..2 * 8192 + 2 * 4096].iter().all(|b| *b == 0xff));
    assert_eq!(data[2 * 8192 + 2 * 4096], 9);
    assert!(data[2 * 8192 + 2 * 4096 + 1..].iter().all(|b| *b == 0));
}

#[test]
fn map_chunk_bulk_without_skylight_has_half_the_light() {
    let mut chunk = Chunk::new(0, 0);
    chunk.set_block(0, 0, 0, 1);
    let bytes = body(&Packet::S26MapChunkBulk { skylight: false, chunks: vec![chunk] });
    assert_eq!(bytes.len(), 2 + 10 + 8192 + 2048 + 256);
    assert_eq!(bytes[0], 0);
}

#[test]
fn every_packet_has_its_opcode() {
    assert_eq!(Packet::C00StatusRequest.id(), 0x00);
    assert_eq!(Packet::C0AAnimation.id(), 0x0a);
    assert_eq!(Packet::C09HeldItemChange { slot: 0 }.id(), 0x09);
    assert_eq!(Packet::C10SetCreativeSlot { slot_id: 0, item: ItemStack::default() }.id(), 0x10);
    assert_eq!(Packet::S00KeepAlive { timestamp: 0 }.id(), 0x00);
    assert_eq!(Packet::S21ChunkData { x: 0, z: 0 }.id(), 0x21);
    assert_eq!(
        Packet::S23BlockChange { location: BlockPos::new(0, 0, 0), block_state: 0 }.id(),
        0x23
    );
    assert_eq!(Packet::S26MapChunkBulk { skylight: true, chunks: vec![] }.id(), 0x26);
    assert_eq!(Packet::S1CEntityMeta { entity_id: 0, entries: vec![] }.id(), 0x1c);
    assert_eq!(
        Packet::S2BChangeGameState { reason: GameStateReason::InvalidBed, value: 0 }.id(),
        0x2b
    );
    assert_eq!(
        Packet::S38PlayerListItem { uuid: 0, action: PlayerListItemAction::RemovePlayer }.id(),
        0x38
    );
    for (_, packet) in client_packets() {
        assert!((0..=0x39).contains(&packet.id()));
    }
    assert_eq!(GameStateReason::ChangeGameMode.to_u8(), 3);
    assert_eq!(GameStateReason::MobAppearance.to_u8(), 9);
}

#[test]
fn frame_without_compression_is_length_then_buffer() {
    let mut codec = codec_in(PlayState::Status, 0);
    let mut wire = BytesMut::new();
    assert_eq!(codec.encode(Packet::S01StatusPong { timestamp: 12345 }, &mut wire), Ok(()));
    assert_eq!(&wire[..], &[9, 1, 0, 0, 0, 0, 0, 0, 0x30, 0x39]);
}

#[test]
fn frame_below_the_threshold_carries_a_zero_marker() {
    let mut codec = codec_in(PlayState::Status, 256);
    let mut wire = BytesMut::from(&[0xeeu8][..]);
    assert_eq!(codec.encode(Packet::S01StatusPong { timestamp: 12345 }, &mut wire), Ok(()));
    assert_eq!(&wire[..], &[0xee, 10, 0, 1, 0, 0, 0, 0, 0, 0, 0x30, 0x39]);
}

#[test]
fn frame_above_the_threshold_is_deflated() {
    let codec = codec_in(PlayState::Status, 4);
    let frame = codec.encode_frame(&Packet::S01StatusPong { timestamp: 12345 }).unwrap();
    let buffer = [1u8, 0, 0, 0, 0, 0, 0, 0x30, 0x39];
    let stream = compress(&buffer).unwrap();
    assert_ne!(&stream[..], &buffer[..]);
    assert_eq!(decompress(&stream), Some(buffer.to_vec()));
    let mut expected = vec![stream.len() as u8 + 1, 9];
    expected.extend_from_slice(&stream);
    assert_eq!(frame, expected);
}

#[test]
fn frame_packet_covers_each_mode() {
    assert_eq!(frame_packet(0, &[1, 2, 3], None), Ok(vec![3, 1, 2, 3]));
    assert_eq!(frame_packet(3, &[1, 2, 3], None), Ok(vec![4, 0, 1, 2, 3]));
    assert_eq!(frame_packet(2, &[1, 2, 3], None), Err(EncodeError::CompressionFailed));
    assert_eq!(frame_packet(2, &[1, 2, 3], Some(vec![9, 9])), Ok(vec![3, 3, 9, 9]));
    let big = vec![0u8; PACKET_SIZE_LIMIT + 1];
    assert_eq!(frame_packet(0, &big, None), Err(EncodeError::PacketTooLarge));
    let full = vec![0u8; PACKET_SIZE_LIMIT];
    assert!(frame_packet(0, &full, None).is_ok());
    assert_eq!(
        frame_packet(PACKET_SIZE_LIMIT, &full, None),
        Err(EncodeError::PacketTooLarge)
    );
    assert_eq!(
        frame_packet(1, &[1, 2], Some(vec![0u8; PACKET_SIZE_LIMIT])),
        Err(EncodeError::PacketTooLarge)
    );
}

#[test]
fn packet_above_the_limit_fails_the_send() {
    let mut codec = codec_in(PlayState::Play, 0);
    let mut wire = BytesMut::from(&[7u8][..]);
    let message = "a".repeat(PACKET_SIZE_LIMIT);
    let packet = Packet::S02ChatMessage { json_data: message, position: 0 };
    assert!(encodable(&packet));
    assert_eq!(codec.encode(packet, &mut wire), Err(EncodeError::PacketTooLarge));
    assert_eq!(&wire[..], &[7]);
}

#[test]
fn decompress_rejects_what_is_no_stream() {
    assert_eq!(decompress(&[1, 2, 3]), None);
    assert_eq!(decompress(&compress(b"").unwrap()), Some(vec![]));
}

#[test]
fn codec_starts_in_handshake_without_compression() {
    let codec = MinecraftCodec::new();
    assert_eq!(codec.current_state(), PlayState::Handshake);
    assert_eq!(codec.compression_threshold(), 0);
    assert_eq!(codec.decoder_state(), DecoderState::Header);
}

#[test]
fn setting_the_phase_twice_is_setting_it_once() {
    let mut once = MinecraftCodec::new();
    once.change_state(PlayState::Login);
    once.change_compression_threshold(64);
    let mut twice = MinecraftCodec::new();
    twice.change_state(PlayState::Login);
    twice.change_state(PlayState::Login);
    twice.change_compression_threshold(64);
    twice.change_compression_threshold(64);
    assert_eq!(once.current_state(), twice.current_state());
    assert_eq!(once.compression_threshold(), twice.compression_threshold());
    assert_eq!(once.decoder_state(), twice.decoder_state());
}

#[test]
fn mutators_do_not_drop_buffered_bytes() {
    let mut codec = codec_in(PlayState::Status, 0);
    let mut wire = BytesMut::from(&[9u8, 1, 0][..]);
    assert_eq!(codec.decode(&mut wire), Ok(None));
    codec.change_state(PlayState::Status);
    codec.change_compression_threshold(0);
    assert_eq!(codec.decoder_state(), DecoderState::Body(9));
    wire.extend_from_slice(&[0, 0, 0, 0, 0, 0x30, 0x39]);
    assert_eq!(codec.decode(&mut wire), Ok(Some(Packet::C01StatusPing { timestamp: 12345 })));
}

#[test]
fn play_state_numbers() {
    assert_eq!(PlayState::from_i32(1), Some(PlayState::Status));
    assert_eq!(PlayState::from_i32(2), Some(PlayState::Login));
    assert_eq!(PlayState::from_i32(0), None);
    assert_eq!(PlayState::from_i32(3), None);
    assert_eq!(PlayState::Play.to_i32(), 3);
}

#[test]
fn digging_status_numbers() {
    for n in 0..6u8 {
        assert_eq!(DiggingStatus::from_u8(n).unwrap().to_u8(), n);
    }
    assert_eq!(DiggingStatus::from_u8(6), None);
    assert_eq!(DiggingStatus::from_u8(0), Some(DiggingStatus::StartDigging));
    assert_eq!(DiggingStatus::from_u8(2), Some(DiggingStatus::FinishDigging));
}

#[test]
fn bytes_mut_extension_reads_and_writes() {
    let mut buf = BytesMut::new();
    buf.put_var_int(300);
    buf.put_string("hé");
    buf.put_bool(true);
    buf.put_bool(false);
    assert_eq!(&buf[..], &[0xac, 0x02, 3, b'h', 0xc3, 0xa9, 1, 0]);
    assert!(buf.has_complete_var_int());
    assert_eq!(buf.get_var_int(), 300);
    assert_eq!(buf.get_string(), "hé");
    assert!(buf.get_bool());
    assert!(!buf.get_bool());
    assert_eq!(buf.len(), 0);
    assert!(!buf.has_complete_var_int());
    let mut partial = BytesMut::from(&[0x80u8][..]);
    assert!(!partial.has_complete_var_int());
    assert_eq!(partial.len(), 1);
}
