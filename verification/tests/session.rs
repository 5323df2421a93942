use bytes::BytesMut;
use rustcraft::broker::PacketBroker;
use rustcraft::client::{
    apply_to_codec, block_centre, bulk_packets, chat_packet, game_mode_float, in_region,
    status_response, str_eq, Action, ClientHandler, Event, SpeedArg,
};
use rustcraft::config::ServerConfig;
use rustcraft::mc::codec::MinecraftCodec;
use rustcraft::mc::proto::{
    AbilityFlags, DiggingStatus, EntityMetaData, EntityMetaEntry, GameStateReason, Packet,
    PlayState, PlayerListItemAction,
};
use rustcraft::model::{GameMode, ItemStack, Vec2f, Vec3d};
use rustcraft::server::ServerHandler;
use rustcraft::world::sched::GenerationScheduler;
use rustcraft::world::store::World;
use rustcraft::world::{block_state, BlockFace, BlockPos, Chunk, ChunkPos};

fn config(view_dist: i32, net_compression: usize, game_mode: GameMode) -> ServerConfig {
    ServerConfig {
        motd: "Hello \"world\"".to_string(),
        slots: 20,
        game_mode,
        difficulty: 2,
        net_endpoint: "127.0.0.1:25565".to_string(),
        net_compression,
        generator_threads: 1,
        view_dist,
        seed: None,
    }
}

fn server_with_region(view_dist: i32, net_compression: usize, r: i32) -> ServerHandler {
    let mut world = World::new();
    for x in -r..=r {
        for z in -r..=r {
            let mut chunk = Chunk::new(x, z);
            chunk.set_block(0, 63, 0, block_state(2, 0));
            world.insert_chunk(chunk);
        }
    }
    let (gen, _rx) = GenerationScheduler::new();
    ServerHandler::start(config(view_dist, net_compression, GameMode::Survival), world, gen)
}

fn text_of(packet: &Packet) -> (String, u8) {
    match packet {
        Packet::S02ChatMessage { json_data, position } => {
            let value: serde_json::Value = serde_json::from_str(json_data).unwrap();
            (value["text"].as_str().unwrap().to_string(), *position)
        }
        other => panic!("not a chat packet: {:?}", other),
    }
}

fn bulk_positions(actions: &[Action]) -> Vec<(i32, i32)> {
    let mut positions = Vec::new();
    for action in actions {
        if let Action::Send(Packet::S26MapChunkBulk { skylight, chunks }) = action {
            assert!(*skylight);
            assert!(!chunks.is_empty() && chunks.len() <= 10);
            for chunk in chunks {
                positions.push((chunk.x, chunk.z));
            }
        }
    }
    positions
}

#[test]
fn status_ping() {
    let mut server = server_with_region(1, 0, 0);
    server.change_num_players(3);
    let mut session = ClientHandler::new(1, GameMode::Survival);
    let mut codec = MinecraftCodec::new();

    let handshake = Packet::C00Handshake {
        protocol_version: 47,
        server_address: "x".to_string(),
        server_port: 25565,
        next_state: PlayState::Status,
    };
    let actions = session.handle_packet(&mut server, handshake, None);
    assert_eq!(actions, vec![Action::SetState(PlayState::Status)]);
    for action in &actions {
        apply_to_codec(&mut codec, action);
    }
    assert_eq!(codec.current_state(), PlayState::Status);

    let actions = session.handle_packet(&mut server, Packet::C00StatusRequest, None);
    assert_eq!(actions.len(), 1);
    let status = match &actions[0] {
        Action::Send(Packet::S00StatusResponse { status }) => status.clone(),
        other => panic!("unexpected {:?}", other),
    };
    assert!(status.contains("\"protocol\":47"));
    let value: serde_json::Value = serde_json::from_str(&status).unwrap();
    assert_eq!(value["version"]["protocol"], 47);
    assert_eq!(value["version"]["name"], "1.8.0");
    assert_eq!(value["players"]["max"], 20);
    assert_eq!(value["players"]["online"], 3);
    assert_eq!(value["players"]["sample"], serde_json::Value::Array(vec![]));
    assert_eq!(value["description"]["text"], "Hello \"world\"");

    let actions = session.handle_packet(&mut server, Packet::C01StatusPing { timestamp: 12345 }, None);
    assert_eq!(actions, vec![Action::Send(Packet::S01StatusPong { timestamp: 12345 })]);
}

#[test]
fn status_json_is_what_serde_json_writes() {
    let expected = {
        let mut version = serde_json::Map::new();
        version.insert("name".to_string(), serde_json::Value::from("1.8.0"));
        version.insert("protocol".to_string(), serde_json::Value::from(47));
        let mut players = serde_json::Map::new();
        players.insert("max".to_string(), serde_json::Value::from(20));
        players.insert("online".to_string(), serde_json::Value::from(-2));
        players.insert("sample".to_string(), serde_json::Value::Array(vec![]));
        let mut description = serde_json::Map::new();
        description.insert("text".to_string(), serde_json::Value::from("Hello \"world\""));
        let mut root = serde_json::Map::new();
        root.insert("version".to_string(), serde_json::Value::Object(version));
        root.insert("players".to_string(), serde_json::Value::Object(players));
        root.insert("description".to_string(), serde_json::Value::Object(description));
        serde_json::Value::Object(root).to_string()
    };
    let packet = status_response(&config(1, 0, GameMode::Survival), -2);
    assert_eq!(packet, Packet::S00StatusResponse { status: expected });
}

#[test]
fn handshake_with_another_protocol_version_closes_the_connection() {
    let mut server = server_with_region(1, 0, 0);
    let mut session = ClientHandler::new(1, GameMode::Survival);
    let handshake = Packet::C00Handshake {
        protocol_version: 46,
        server_address: "x".to_string(),
        server_port: 25565,
        next_state: PlayState::Login,
    };
    assert_eq!(session.handle_packet(&mut server, handshake, None), vec![Action::Disconnect]);
    assert_eq!(
        session.on_handshake(47, PlayState::Login),
        vec![Action::SetState(PlayState::Login)]
    );
}

#[test]
fn login_with_compression() {
    let view_dist = 2;
    let mut server = server_with_region(view_dist, 256, 3);
    let mut session = ClientHandler::new(7, GameMode::Survival);
    let mut codec = MinecraftCodec::new();
    let handshake = Packet::C00Handshake {
        protocol_version: 47,
        server_address: "x".to_string(),
        server_port: 25565,
        next_state: PlayState::Login,
    };
    for action in session.handle_packet(&mut server, handshake, None) {
        apply_to_codec(&mut codec, &action);
    }
    assert_eq!(codec.current_state(), PlayState::Login);

    let login = Packet::C00LoginStart { username: "ada".to_string() };
    let actions = session.handle_packet(&mut server, login, None);
    let uuid = session.player.uuid;
    let uuid_text = uuid::Uuid::from_u128(uuid).to_string();
    assert_eq!(uuid_text.len(), 36);

    assert_eq!(actions[0], Action::Send(Packet::S03LoginCompression { threshold: 256 }));
    assert_eq!(actions[1], Action::SetCompression(256));
    assert_eq!(
        actions[2],
        Action::Send(Packet::S02LoginSuccess { uuid: uuid_text, username: "ada".to_string() })
    );
    assert_eq!(actions[3], Action::SetState(PlayState::Play));
    assert_eq!(
        actions[4],
        Action::Send(Packet::S01JoinGame {
            entity_id: 7,
            game_mode: GameMode::Survival,
            dimension: 0,
            difficulty: 2,
            player_list_size: 4,
            world_type: "default".to_string(),
            reduced_debug_info: false,
        })
    );
    let n = actions.len();
    let bulk = &actions[5..n - 3];
    assert_eq!(bulk.len(), 3);
    let mut positions = bulk_positions(bulk);
    assert_eq!(positions.len(), 25);
    positions.sort();
    positions.dedup();
    let mut expected = Vec::new();
    for x in -view_dist..=view_dist {
        for z in -view_dist..=view_dist {
            expected.push((x, z));
        }
    }
    expected.sort();
    assert_eq!(positions, expected);
    assert_eq!(
        actions[n - 3],
        Action::Send(Packet::S08SetPlayerPosition {
            x: 0.0f64.to_bits(),
            y: 64.0f64.to_bits(),
            z: 0.0f64.to_bits(),
            yaw: 0.0f32.to_bits(),
            pitch: 0.0f32.to_bits(),
            flags: 0,
        })
    );
    match &actions[n - 2] {
        Action::Broadcast(packet) => {
            assert_eq!(text_of(packet), ("\u{a7}eada joined the game".to_string(), 1));
        }
        other => panic!("unexpected {:?}", other),
    }
    assert_eq!(
        actions[n - 1],
        Action::Broadcast(Packet::S38PlayerListItem {
            uuid,
            action: PlayerListItemAction::AddPlayer {
                name: "ada".to_string(),
                game_mode: GameMode::Survival,
                ping: 0,
                display_name: None,
            },
        })
    );

    // The actions, carried out in order, leave the codec in the play phase
    // under the configured threshold, and every packet can be framed on the way.
    let mut wire = BytesMut::new();
    for action in actions {
        apply_to_codec(&mut codec, &action);
        if let Action::Send(packet) = action {
            assert_eq!(codec.encode(packet, &mut wire), Ok(()));
        }
    }
    assert_eq!(codec.current_state(), PlayState::Play);
    assert_eq!(codec.compression_threshold(), 256);
    // The first frame went out before compression was switched on.
    assert_eq!(&wire[..4], &[3, 0x03, 0x80, 0x02]);

    assert_eq!(session.player.username, "ada");
    assert!(session.player.is_logged_in());
    assert_eq!(server.num_players(), 1);
    assert_eq!(session.known_chunks.positions().len(), 25);
    session.on_disconnect(&mut server);
    assert_eq!(server.num_players(), 0);
}

#[test]
fn login_ships_only_chunks_that_exist() {
    let mut server = server_with_region(3, 0, 1);
    let mut session = ClientHandler::new(7, GameMode::Survival);
    let actions = session.on_login_start(&mut server, "ben".to_string());
    let mut positions = bulk_positions(&actions);
    positions.sort();
    assert_eq!(positions.len(), 9);
    assert_eq!(positions[0], (-1, -1));
    assert_eq!(positions[8], (1, 1));
    assert_eq!(actions.len(), 5 + 1 + 3);
}

#[test]
fn chat_broadcast() {
    let mut server = server_with_region(0, 0, 0);
    let mut ada = ClientHandler::new(1, GameMode::Survival);
    let mut ben = ClientHandler::new(2, GameMode::Survival);
    ada.on_login_start(&mut server, "ada".to_string());
    ben.on_login_start(&mut server, "ben".to_string());
    let (mut broker, _fan_in) = PacketBroker::new();
    let mut ada_queue = broker.add_client(1);
    let mut ben_queue = broker.add_client(2);
    let actions =
        ada.handle_packet(&mut server, Packet::C01ChatMessage { message: "hi".to_string() }, None);
    assert_eq!(actions.len(), 1);
    match &actions[0] {
        Action::Broadcast(packet) => {
            assert_eq!(text_of(packet), ("\u{a7}bada\u{a7}r: hi".to_string(), 0));
            // The multiplexer puts a copy on every subscriber's queue.
            for (_, queue) in broker.subscribers() {
                queue.try_send(packet.clone()).unwrap();
            }
        }
        other => panic!("unexpected {:?}", other),
    }
    for queue in [&mut ada_queue, &mut ben_queue] {
        let packet = queue.try_recv().unwrap();
        assert_eq!(text_of(&packet), ("\u{a7}bada\u{a7}r: hi".to_string(), 0));
        assert!(queue.try_recv().is_err());
    }
}

#[test]
fn chat_text_is_escaped_for_json() {
    let packet = chat_packet(0, "say \"hi\"\n\\");
    match &packet {
        Packet::S02ChatMessage { json_data, position } => {
            assert_eq!(json_data, "{\"text\":\"say \\\"hi\\\"\\n\\\\\"}");
            assert_eq!(*position, 0);
        }
        other => panic!("unexpected {:?}", other),
    }
    assert_eq!(text_of(&packet), ("say \"hi\"\n\\".to_string(), 0));
}

#[test]
fn creative_dig() {
    let mut server = server_with_region(0, 0, 0);
    assert_ne!(server.world.get_block(0, 63, 0), 0);
    let mut session = ClientHandler::new(1, GameMode::Creative);
    let next_id = server.new_id() + 1;
    let dig = Packet::C07PlayerDigging {
        status: DiggingStatus::StartDigging,
        location: BlockPos::new(0, 63, 0),
        face: 1,
    };
    let actions = session.handle_packet(&mut server, dig, None);
    assert_eq!(
        actions,
        vec![Action::Broadcast(Packet::S23BlockChange {
            location: BlockPos::new(0, 63, 0),
            block_state: 0
        })]
    );
    assert_eq!(server.world.get_block(0, 63, 0), 0);
    assert_eq!(server.new_id(), next_id);
}

#[test]
fn creative_dig_ignores_the_end_of_digging_and_air() {
    let mut server = server_with_region(0, 0, 0);
    let mut session = ClientHandler::new(1, GameMode::Creative);
    let actions =
        session.on_digging(&mut server, DiggingStatus::FinishDigging, BlockPos::new(0, 63, 0));
    assert!(actions.is_empty());
    assert_ne!(server.world.get_block(0, 63, 0), 0);
    let actions =
        session.on_digging(&mut server, DiggingStatus::StartDigging, BlockPos::new(0, 64, 0));
    assert!(actions.is_empty());
    let actions =
        session.on_digging(&mut server, DiggingStatus::StartDigging, BlockPos::new(160, 64, 0));
    assert!(actions.is_empty());
    assert!(!server.world.has_chunk(ChunkPos::new(10, 0)));
}

#[test]
fn survival_dig_drops_the_item() {
    let mut server = server_with_region(0, 0, 0);
    server.world.set_block(3, 10, -4, block_state(17, 2));
    let mut session = ClientHandler::new(1, GameMode::Survival);
    let actions =
        session.on_digging(&mut server, DiggingStatus::StartDigging, BlockPos::new(3, 10, -4));
    assert!(actions.is_empty());
    let actions =
        session.on_digging(&mut server, DiggingStatus::FinishDigging, BlockPos::new(3, 10, -4));
    assert_eq!(
        actions,
        vec![
            Action::Broadcast(Packet::S23BlockChange {
                location: BlockPos::new(3, 10, -4),
                block_state: 0
            }),
            Action::Broadcast(Packet::S0ESpawnObject {
                entity_id: 1,
                kind: 2,
                x: 3 * 32 + 16,
                y: 10 * 32 + 16,
                z: -4 * 32 + 16,
                pitch: 0,
                yaw: 0,
                data: 0,
            }),
            Action::Broadcast(Packet::S1CEntityMeta {
                entity_id: 1,
                entries: vec![EntityMetaEntry::new(
                    10,
                    EntityMetaData::Slot(ItemStack { id: 17, count: 1, damage: 2 })
                )],
            }),
        ]
    );
    assert_eq!(server.world.get_block(3, 10, -4), 0);
    assert_eq!(server.new_id(), 2);
}

#[test]
fn block_centre_is_in_thirty_seconds() {
    assert_eq!(block_centre(0), 16);
    assert_eq!(block_centre(1), 48);
    assert_eq!(block_centre(-1), -16);
    assert_eq!(block_centre(i32::MAX), i32::MAX);
    assert_eq!(block_centre(i32::MIN), i32::MIN);
    assert_eq!(block_centre(10), ((10.0f32 + 0.5) * 32.0) as i32);
}

#[test]
fn movement_crossing_a_chunk_boundary() {
    let view_dist = 1;
    let mut server = server_with_region(view_dist, 0, 1);
    let mut session = ClientHandler::new(1, GameMode::Survival);
    session.on_login_start(&mut server, "ada".to_string());
    assert_eq!(session.known_chunks.positions().len(), 9);

    let stay = Packet::C04PlayerPos {
        x: 15.9f64.to_bits(),
        y: 65.0f64.to_bits(),
        z: 0.0f64.to_bits(),
        on_ground: true,
    };
    assert!(session.handle_packet(&mut server, stay, None).is_empty());
    assert!(!session.awaiting);

    let step = Packet::C04PlayerPos {
        x: 17.5f64.to_bits(),
        y: 65.0f64.to_bits(),
        z: 0.0f64.to_bits(),
        on_ground: true,
    };
    let actions = session.handle_packet(&mut server, step, None);
    assert_eq!(
        actions,
        vec![Action::AwaitRegion { center: ChunkPos::new(1, 0), r: view_dist }]
    );
    assert_eq!(session.current_chunk_pos, ChunkPos::new(1, 0));
    assert!(session.awaiting);
    assert_eq!(session.player.position.x, 17.5f64.to_bits());
    // The column at x = 2 was missing: it is pending now.
    for z in -1..=1 {
        assert!(server.gen.is_pending(ChunkPos::new(2, z)));
    }
    assert!(!server.gen.is_pending(ChunkPos::new(1, 0)));

    // The workers generate the column.
    for z in -1..=1 {
        server.world.insert_chunk(Chunk::new(2, z));
        server.gen.complete(ChunkPos::new(2, z));
    }
    let actions = session.region_ready(&server);
    assert!(!session.awaiting);
    let mut shipped = bulk_positions(&actions);
    shipped.sort();
    assert_eq!(shipped, vec![(2, -1), (2, 0), (2, 1)]);
    let mut dropped: Vec<(i32, i32)> = actions
        .iter()
        .filter_map(|a| match a {
            Action::Send(Packet::S21ChunkData { x, z }) => Some((*x, *z)),
            _ => None,
        })
        .collect();
    dropped.sort();
    assert_eq!(dropped, vec![(-1, -1), (-1, 0), (-1, 1)]);
    assert_eq!(actions.len(), 1 + 3);
    assert!(matches!(actions[0], Action::Send(Packet::S26MapChunkBulk { .. })));
    let mut known: Vec<(i32, i32)> =
        session.known_chunks.positions().iter().map(|p| (p.x, p.z)).collect();
    known.sort();
    let mut expected = Vec::new();
    for x in 0..=2 {
        for z in -1..=1 {
            expected.push((x, z));
        }
    }
    assert_eq!(known, expected);
    assert!(known.len() <= ((2 * view_dist + 1) * (2 * view_dist + 1)) as usize);
}

#[test]
fn position_and_rotation_are_recorded() {
    let mut server = server_with_region(0, 0, 0);
    let mut session = ClientHandler::new(1, GameMode::Survival);
    let rot = Packet::C05PlayerRot {
        yaw: 90.0f32.to_bits(),
        pitch: 10.0f32.to_bits(),
        on_ground: true,
    };
    assert!(session.handle_packet(&mut server, rot, None).is_empty());
    assert_eq!(
        session.player.rotation,
        Vec2f { x: 90.0f32.to_bits(), y: 10.0f32.to_bits() }
    );
    let actions = session.on_position(
        &mut server,
        Vec3d { x: (-0.5f64).to_bits(), y: 70.0f64.to_bits(), z: (-17.0f64).to_bits() },
        Some(Vec2f { x: 1, y: 2 }),
    );
    // -0.5 truncates to block 0, -17.0 to block -17, which lies in chunk -2.
    assert_eq!(actions, vec![Action::AwaitRegion { center: ChunkPos::new(0, -2), r: 0 }]);
    assert_eq!(session.player.rotation, Vec2f { x: 1, y: 2 });
    assert!(session.handle_packet(&mut server, Packet::C03Player { on_ground: true }, None).is_empty());
    assert!(session.handle_packet(&mut server, Packet::C0AAnimation, None).is_empty());
    assert!(session.handle_packet(&mut server, Packet::C00KeepAlive { id: 1 }, None).is_empty());
    assert!(session
        .handle_packet(&mut server, Packet::S00KeepAlive { timestamp: 1 }, None)
        .is_empty());
}

#[test]
fn gamemode_command() {
    let mut server = server_with_region(0, 0, 0);
    let mut session = ClientHandler::new(1, GameMode::Survival);
    session.on_login_start(&mut server, "ada".to_string());
    let uuid = session.player.uuid;
    let actions = session.handle_packet(
        &mut server,
        Packet::C01ChatMessage { message: "/gm 1".to_string() },
        None,
    );
    assert_eq!(session.player.game_mode, GameMode::Creative);
    assert_eq!(actions.len(), 4);
    assert_eq!(
        actions[0],
        Action::Send(Packet::S2BChangeGameState {
            reason: GameStateReason::ChangeGameMode,
            value: 1.0f32.to_bits(),
        })
    );
    assert_eq!(
        actions[1],
        Action::Send(Packet::S39PlayerAbilities {
            flags: AbilityFlags {
                allow_flying: true,
                is_creative: true,
                is_flying: false,
                god_mode: true
            },
            flying_speed: 0.05f32.to_bits(),
            walking_speed: 0.1f32.to_bits(),
        })
    );
    assert_eq!(
        actions[2],
        Action::Broadcast(Packet::S38PlayerListItem {
            uuid,
            action: PlayerListItemAction::UpdateGameMode { game_mode: GameMode::Creative },
        })
    );
    match &actions[3] {
        Action::Send(packet) => {
            assert_eq!(text_of(packet), ("Game mode changed to Creative".to_string(), 1));
        }
        other => panic!("unexpected {:?}", other),
    }
}

fn reply_of(session: &mut ClientHandler, line: &str, speed: Option<&SpeedArg>) -> (usize, String) {
    let actions = session.handle_command(line, speed);
    match actions.last().unwrap() {
        Action::Send(packet) => {
            let (text, position) = text_of(packet);
            assert_eq!(position, 1);
            (actions.len(), text)
        }
        other => panic!("unexpected {:?}", other),
    }
}

#[test]
fn command_errors_are_reported_to_the_player() {
    let mut session = ClientHandler::new(1, GameMode::Survival);
    assert_eq!(reply_of(&mut session, "/gm", None), (1, "\u{a7}cError: Missing argument 1".to_string()));
    assert_eq!(
        reply_of(&mut session, "/gm x", None),
        (1, "\u{a7}cError: Argument 1 is not valid".to_string())
    );
    assert_eq!(
        reply_of(&mut session, "/gm 4", None),
        (1, "\u{a7}cError: Argument 1 is not valid".to_string())
    );
    assert_eq!(
        reply_of(&mut session, "/gm 256", None),
        (1, "\u{a7}cError: Argument 1 is not valid".to_string())
    );
    assert_eq!(
        reply_of(&mut session, "/fly 1", None),
        (1, "\u{a7}cError: fly: Unknown command.".to_string())
    );
    assert_eq!(reply_of(&mut session, "/", None), (1, "\u{a7}cError: : Unknown command.".to_string()));
    assert_eq!(
        reply_of(&mut session, "/flyspeed", None),
        (1, "\u{a7}cError: Missing argument 1".to_string())
    );
    assert_eq!(
        reply_of(&mut session, "/walkspeed fast", None),
        (1, "\u{a7}cError: Argument 1 is not valid".to_string())
    );
    assert_eq!(session.player.game_mode, GameMode::Survival);
    assert_eq!(session.player.fly_speed, 0.05f32.to_bits());
}

#[test]
fn help_command_shows_the_overview() {
    let mut session = ClientHandler::new(1, GameMode::Survival);
    let (count, text) = reply_of(&mut session, "/help", None);
    assert_eq!(count, 1);
    assert_eq!(
        text,
        "== \u{a7}aHelp\u{a7}r ==\n\u{a7}9 /help\u{a7}r: Show command overview\n\u{a7}9 /gm \u{a7}7<mode>\u{a7}r: Change gamemode\n\u{a7}9 /flyspeed \u{a7}7<speed>\u{a7}r: Set flying speed multiplier\n\u{a7}9 /walkspeed \u{a7}7<speed>\u{a7}r: Set walking speed multiplier"
    );
}

#[test]
fn speed_commands_set_a_speed_and_send_the_abilities() {
    let mut session = ClientHandler::new(1, GameMode::Spectator);
    let speed = SpeedArg { bits: 0.25f32.to_bits(), text: "0.25".to_string() };
    let actions = session.handle_command("/flyspeed 0.25", Some(&speed));
    assert_eq!(actions.len(), 2);
    assert_eq!(
        actions[0],
        Action::Send(Packet::S39PlayerAbilities {
            flags: AbilityFlags::from_game_mode(GameMode::Spectator),
            flying_speed: 0.25f32.to_bits(),
            walking_speed: 0.1f32.to_bits(),
        })
    );
    match &actions[1] {
        Action::Send(packet) => {
            assert_eq!(text_of(packet), ("Flying speed changed to 0.25".to_string(), 1))
        }
        other => panic!("unexpected {:?}", other),
    }
    assert_eq!(
        reply_of(&mut session, "/walkspeed 0.25", Some(&speed)),
        (2, "Walking speed changed to 0.25".to_string())
    );
    assert_eq!(session.player.fly_speed, 0.25f32.to_bits());
    assert_eq!(session.player.walk_speed, 0.25f32.to_bits());
}

#[test]
fn every_game_mode_can_be_set() {
    let mut session = ClientHandler::new(1, GameMode::Creative);
    for (n, mode, name) in [
        (0, GameMode::Survival, "Survival"),
        (1, GameMode::Creative, "Creative"),
        (2, GameMode::Adventure, "Adventure"),
        (3, GameMode::Spectator, "Spectator"),
    ] {
        let (count, text) = reply_of(&mut session, &format!("/gm {}", n), None);
        assert_eq!(count, 4);
        assert_eq!(text, format!("Game mode changed to {}", name));
        assert_eq!(session.player.game_mode, mode);
        assert_eq!(game_mode_float(mode), (n as f32).to_bits());
    }
}

#[test]
fn placement_puts_the_held_block_next_to_the_clicked_one() {
    let mut server = server_with_region(0, 0, 0);
    let mut session = ClientHandler::new(1, GameMode::Creative);
    let set = Packet::C10SetCreativeSlot {
        slot_id: 38,
        item: ItemStack { id: 5, count: 64, damage: 0x12 },
    };
    assert!(session.handle_packet(&mut server, set, None).is_empty());
    assert!(session
        .handle_packet(&mut server, Packet::C09HeldItemChange { slot: 2 }, None)
        .is_empty());
    assert_eq!(session.player.selected_slot, 2);
    assert_eq!(session.player.held_item(), Some(ItemStack { id: 5, count: 64, damage: 0x12 }));
    let place = Packet::C08PlayerBlockPlacement {
        location: BlockPos::new(0, 63, 0),
        face: BlockFace::PosY,
    };
    let actions = session.handle_packet(&mut server, place, None);
    let state = block_state(5, 2);
    assert_eq!(
        actions,
        vec![Action::Broadcast(Packet::S23BlockChange {
            location: BlockPos::new(0, 64, 0),
            block_state: state
        })]
    );
    assert_eq!(server.world.get_block(0, 64, 0), state);
    assert_ne!(server.world.get_block(0, 63, 0), state);
}

#[test]
fn placement_replaces_tall_grass() {
    let mut server = server_with_region(0, 0, 0);
    server.world.set_block(1, 64, 1, block_state(31, 1));
    let mut session = ClientHandler::new(1, GameMode::Creative);
    session.player.set_item(36, ItemStack { id: 1, count: 1, damage: 0 });
    let actions = session.on_placement(&mut server, BlockPos::new(1, 64, 1), BlockFace::PosX);
    assert_eq!(actions.len(), 1);
    assert_eq!(server.world.get_block(1, 64, 1), block_state(1, 0));
    assert_eq!(server.world.get_block(2, 64, 1), 0);
}

#[test]
fn placement_does_nothing_without_a_block_in_hand() {
    let mut server = server_with_region(0, 0, 0);
    let mut session = ClientHandler::new(1, GameMode::Creative);
    let at = BlockPos::new(0, 63, 0);
    assert!(session.on_placement(&mut server, at, BlockFace::PosY).is_empty());
    session.player.set_item(36, ItemStack { id: 256, count: 1, damage: 0 });
    assert!(session.on_placement(&mut server, at, BlockFace::PosY).is_empty());
    session.player.set_item(36, ItemStack { id: 1, count: 1, damage: 0 });
    assert!(session.on_placement(&mut server, at, BlockFace::Special).is_empty());
    assert_eq!(server.world.get_block(0, 64, 0), 0);
    session.player.selected_slot = 100;
    assert!(session.on_placement(&mut server, at, BlockFace::PosY).is_empty());
}

#[test]
fn creative_slot_outside_the_inventory_is_ignored() {
    let mut server = server_with_region(0, 0, 0);
    let mut session = ClientHandler::new(1, GameMode::Creative);
    let before = session.player.inventory.clone();
    for slot_id in [-1, 45, i16::MAX] {
        let set = Packet::C10SetCreativeSlot {
            slot_id,
            item: ItemStack { id: 5, count: 1, damage: 0 },
        };
        assert!(session.handle_packet(&mut server, set, None).is_empty());
    }
    assert_eq!(session.player.inventory, before);
}

#[test]
fn bulk_packets_hold_at_most_ten_chunks() {
    let chunks: Vec<Chunk> = (0..23).map(|i| Chunk::new(i, 0)).collect();
    let actions = bulk_packets(&chunks);
    assert_eq!(actions.len(), 3);
    let sizes: Vec<usize> = actions
        .iter()
        .map(|a| match a {
            Action::Send(Packet::S26MapChunkBulk { chunks, .. }) => chunks.len(),
            other => panic!("unexpected {:?}", other),
        })
        .collect();
    assert_eq!(sizes, vec![10, 10, 3]);
    assert_eq!(bulk_positions(&actions), (0..23).map(|i| (i, 0)).collect::<Vec<_>>());
    assert!(bulk_packets(&Vec::new()).is_empty());
    assert_eq!(bulk_packets(&chunks[..10].to_vec()).len(), 1);
}

#[test]
fn known_chunks_are_never_sent_twice() {
    let mut server = server_with_region(1, 0, 1);
    let mut session = ClientHandler::new(1, GameMode::Survival);
    let first = session.send_chunks(&server.world, 0, 0, 1);
    assert_eq!(first.len(), 9);
    let second = session.send_chunks(&server.world, 0, 0, 1);
    assert!(second.is_empty());
    server.world.insert_chunk(Chunk::new(2, 0));
    let third = session.send_chunks(&server.world, 1, 0, 1);
    assert_eq!(third, vec![Chunk::new(2, 0)]);
}

#[test]
fn region_membership() {
    assert!(in_region(ChunkPos::new(1, -1), 0, 0, 1));
    assert!(!in_region(ChunkPos::new(2, 0), 0, 0, 1));
    assert!(!in_region(ChunkPos::new(0, 0), 0, 0, -1));
    assert!(in_region(ChunkPos::new(i32::MAX, 0), i32::MAX, 0, 5));
    assert!(in_region(ChunkPos::new(i32::MIN + 1, i32::MAX), 0, 0, i32::MAX));
    assert!(!in_region(ChunkPos::new(i32::MIN, 0), 0, 0, i32::MAX));
}

#[test]
fn keep_alive_packet() {
    let session = ClientHandler::new(1, GameMode::Survival);
    assert_eq!(session.keep_alive(), Packet::S00KeepAlive { timestamp: 69 });
}

#[test]
fn disconnect_before_login_keeps_the_count() {
    let mut server = server_with_region(0, 0, 0);
    let session = ClientHandler::new(1, GameMode::Survival);
    session.on_disconnect(&mut server);
    assert_eq!(server.num_players(), 0);
}

#[test]
fn string_equality() {
    assert!(str_eq("gm", "gm"));
    assert!(!str_eq("gm", "gmx"));
    assert!(!str_eq("gm", "gn"));
    assert!(str_eq("", ""));
}

#[test]
fn server_counters() {
    let mut server = server_with_region(0, 0, 0);
    assert_eq!(server.new_id(), 1);
    assert_eq!(server.new_id(), 2);
    server.id_counter = i32::MAX;
    assert_eq!(server.new_id(), i32::MAX);
    assert_eq!(server.new_id(), i32::MIN);
    server.change_num_players(2);
    server.change_num_players(-1);
    assert_eq!(server.num_players(), 1);
}

#[test]
fn events_are_answered() {
    let mut server = server_with_region(1, 0, 1);
    let mut session = ClientHandler::new(1, GameMode::Survival);
    let pong = Packet::S01StatusPong { timestamp: 5 };
    assert_eq!(
        session.on_event(&mut server, Event::Outbound(pong.clone()), None),
        vec![Action::Send(pong)]
    );
    assert_eq!(
        session.on_event(&mut server, Event::KeepAlive, None),
        vec![Action::Send(Packet::S00KeepAlive { timestamp: 69 })]
    );
    let login = Event::Inbound(Packet::C00LoginStart { username: "ada".to_string() });
    let actions = session.on_event(&mut server, login, None);
    assert_eq!(bulk_positions(&actions).len(), 9);
    assert_eq!(server.num_players(), 1);
    session.current_chunk_pos = ChunkPos::new(2, 0);
    let actions = session.on_event(&mut server, Event::RegionReady, None);
    assert_eq!(actions.len(), 6);
    assert!(actions.iter().all(|a| matches!(a, Action::Send(Packet::S21ChunkData { .. }))));
    assert_eq!(session.known_chunks.positions().len(), 3);
    assert_eq!(session.on_event(&mut server, Event::Closed, None), vec![Action::Disconnect]);
    assert_eq!(server.num_players(), 0);
}

fn json_literal(text: &str) -> String {
    let mut out = String::from("\"");
    for c in text.chars() {
        match c {
            '"' => out.push_str("\\\""),
            '\\' => out.push_str("\\\\"),
            '\u{08}' => out.push_str("\\b"),
            '\t' => out.push_str("\\t"),
            '\n' => out.push_str("\\n"),
            '\u{0c}' => out.push_str("\\f"),
            '\r' => out.push_str("\\r"),
            c if (c as u32) < 0x20 => out.push_str(&format!("\\u00{:02x}", c as u32)),
            c => out.push(c),
        }
    }
    out.push('"');
    out
}

#[test]
fn chat_json_escapes_exactly_what_json_asks_for() {
    let mut samples: Vec<String> = Vec::new();
    for code in 0..0x300u32 {
        if let Some(c) = char::from_u32(code) {
            samples.push(format!("a{}b", c));
        }
    }
    samples.push("\u{7f}\u{80}\u{2028}\u{2029}\u{ffff}\u{10ffff}/'".to_string());
    samples.push(String::new());
    samples.push("\u{0}\u{1f}\"\\\n\r\t\u{8}\u{c}".to_string());
    for text in samples {
        match chat_packet(1, &text) {
            Packet::S02ChatMessage { json_data, position } => {
                assert_eq!(json_data, format!("{{\"text\":{}}}", json_literal(&text)));
                assert_eq!(position, 1);
            }
            other => panic!("unexpected {:?}", other),
        }
    }
}

fn login_uuid_text(uuid: u128) -> String {
    let mut server = server_with_region(0, 0, 0);
    let mut session = ClientHandler::new(1, GameMode::Survival);
    session.player.uuid = uuid;
    let actions = session.on_login_start(&mut server, "ada".to_string());
    match &actions[2] {
        Action::Send(Packet::S02LoginSuccess { uuid, .. }) => uuid.clone(),
        other => panic!("unexpected {:?}", other),
    }
}

#[test]
fn login_success_carries_the_hyphenated_uuid() {
    assert_eq!(
        login_uuid_text(0xa1a2a3a4b1b2c1c2d1d2d3d4d5d6d7d8),
        "a1a2a3a4-b1b2-c1c2-d1d2-d3d4d5d6d7d8"
    );
    assert_eq!(login_uuid_text(0), "00000000-0000-0000-0000-000000000000");
    assert_eq!(login_uuid_text(0xf), "00000000-0000-0000-0000-00000000000f");
    assert_eq!(login_uuid_text(u128::MAX), "ffffffff-ffff-ffff-ffff-ffffffffffff");
    assert_eq!(
        login_uuid_text(0x0123456789abcdef0123456789abcdef),
        "01234567-89ab-cdef-0123-456789abcdef"
    );
}
