use rustcraft::broker::PacketBroker;
use rustcraft::command::{invalid_arg_message, missing_arg_message, parse_u8, Command};
use rustcraft::config::{BiomeLayer, ServerConfig};
use rustcraft::float_bits::double_to_i32;
use rustcraft::mc::buffer::{ReadBuffer, WriteBuffer};
use rustcraft::mc::proto::Packet;
use rustcraft::mc::wire::DecodeError;
use rustcraft::model::{Entity, GameMode, ItemStack, Player, Vec2f, Vec3d};
use rustcraft::text::{decimal, decimal_unsigned, join};
use rustcraft::world::chunk_set::ChunkSet;
use rustcraft::world::sched::{GenerationScheduler, RegionAwait};
use rustcraft::world::store::World;
use rustcraft::world::{BlockPos, Chunk, ChunkPos};

#[test]
fn command_line_is_cut_at_spaces() {
    let command = Command::parse("/gm 1");
    assert_eq!(command.name(), "gm");
    assert_eq!(command.arg_count(), 1);
    assert_eq!(command.arg_text(0), Ok("1"));
    assert_eq!(command.arg(0), Ok(1));
    assert_eq!(command.arg_text(1), Err("Missing argument 2".to_string()));
    assert_eq!(command.arg(1), Err("Missing argument 2".to_string()));
}

#[test]
fn command_line_keeps_empty_pieces() {
    let command = Command::parse("/a  b ");
    assert_eq!(command.name(), "a");
    assert_eq!(command.arg_count(), 3);
    assert_eq!(command.arg_text(0), Ok(""));
    assert_eq!(command.arg_text(1), Ok("b"));
    assert_eq!(command.arg_text(2), Ok(""));
    assert_eq!(command.arg(0), Err("Argument 1 is not valid".to_string()));
    let command = Command::parse("/");
    assert_eq!(command.name(), "");
    assert_eq!(command.arg_count(), 0);
    let command = Command::parse("");
    assert_eq!(command.name(), "");
    let command = Command::parse("x\u{a7}y z");
    assert_eq!(command.name(), "\u{a7}y");
    assert_eq!(command.arg_text(0), Ok("z"));
}

#[test]
fn command_argument_far_out_is_missing() {
    let command = Command::parse("/gm");
    assert_eq!(
        command.arg_text(usize::MAX),
        Err(format!("Missing argument {}", usize::MAX as u128 + 1))
    );
    assert_eq!(command.arg(41), Err("Missing argument 42".to_string()));
}

#[test]
fn u8_parses_as_std_does() {
    for text in [
        "0", "1", "9", "10", "255", "256", "999", "0255", "00000", "+5", "+", "", "-1", "1a", " 1",
        "1 ", "++1", "٣", "4294967296", "99999999999999999999999",
    ] {
        assert_eq!(parse_u8(text), text.parse::<u8>().ok(), "for {:?}", text);
    }
}

#[test]
fn argument_messages() {
    assert_eq!(missing_arg_message(1), "Missing argument 1");
    assert_eq!(invalid_arg_message(12), "Argument 12 is not valid");
}

#[test]
fn decimal_numerals() {
    for v in [0i64, 1, 9, 10, 47, 100, -1, -10, 2147483647, -2147483648, i64::MAX, i64::MIN] {
        assert_eq!(decimal(v), v.to_string());
    }
    assert_eq!(decimal_unsigned(u128::MAX), u128::MAX.to_string());
    assert_eq!(decimal_unsigned(0), "0");
    assert_eq!(join("ab".to_string(), "\u{a7}c"), "ab\u{a7}c");
    assert_eq!(join(String::new(), ""), "");
}

#[test]
fn double_truncates_as_a_cast_does() {
    let samples = [
        0.0f64,
        -0.0,
        0.5,
        -0.5,
        0.999999,
        1.0,
        -1.0,
        1.5,
        17.5,
        -17.5,
        255.99,
        65536.0,
        2147483646.5,
        2147483647.0,
        2147483647.5,
        2147483648.0,
        -2147483648.0,
        -2147483648.5,
        -2147483649.0,
        1e10,
        -1e10,
        1e300,
        -1e300,
        f64::MAX,
        f64::MIN,
        f64::MIN_POSITIVE,
        5e-324,
        f64::INFINITY,
        f64::NEG_INFINITY,
        f64::NAN,
        -f64::NAN,
        4503599627370496.0,
        1073741824.0,
        1073741823.75,
    ];
    for v in samples {
        assert_eq!(double_to_i32(v.to_bits()), v as i32, "for {:?}", v);
    }
    let mut bits: u64 = 0x9e3779b97f4a7c15;
    for _ in 0..20000 {
        bits ^= bits << 13;
        bits ^= bits >> 7;
        bits ^= bits << 17;
        assert_eq!(double_to_i32(bits), f64::from_bits(bits) as i32, "for {:#x}", bits);
        let near = ((bits % 64 + 1000) << 52) | (bits >> 12);
        assert_eq!(double_to_i32(near), f64::from_bits(near) as i32, "for {:#x}", near);
    }
}

#[test]
fn game_mode_numbers() {
    assert_eq!(GameMode::from_u8(0), Some(GameMode::Survival));
    assert_eq!(GameMode::from_u8(1), Some(GameMode::Creative));
    assert_eq!(GameMode::from_u8(2), Some(GameMode::Adventure));
    assert_eq!(GameMode::from_u8(3), Some(GameMode::Spectator));
    assert_eq!(GameMode::from_u8(4), None);
    assert_eq!(GameMode::Spectator.to_u8(), 3);
}

#[test]
fn item_stack_on_the_wire() {
    let empty = ItemStack::default();
    assert_eq!(empty, ItemStack { id: -1, count: 0, damage: 0 });
    assert!(!empty.is_present());
    assert!(empty.is_block());
    let stack = ItemStack { id: 256, count: 3, damage: 0x0102 };
    assert!(stack.is_present());
    assert!(!stack.is_block());
    assert!(ItemStack { id: 255, count: 1, damage: 0 }.is_block());
    let mut buf = WriteBuffer::new();
    empty.write(&mut buf);
    stack.write(&mut buf);
    assert_eq!(buf.data(), &[0xff, 0xff, 1, 0, 3, 1, 2, 0]);
    let mut read = ReadBuffer::new(buf.into_vec());
    assert_eq!(ItemStack::read(&mut read), Ok(empty));
    assert_eq!(ItemStack::read(&mut read), Ok(stack));
    assert_eq!(ItemStack::read(&mut read), Err(DecodeError::UnexpectedEnd));
    let mut short = ReadBuffer::new(vec![0, 1, 5, 0, 0]);
    assert_eq!(ItemStack::read(&mut short), Err(DecodeError::UnexpectedEnd));
}

#[test]
fn player_starts_out_fresh() {
    let player = Player::new(7, GameMode::Adventure);
    assert_eq!(player.eid, 7);
    assert_eq!(player.username, "");
    assert!(!player.is_logged_in());
    assert_eq!(player.position, Vec3d { x: 0, y: 0, z: 0 });
    assert_eq!(player.rotation, Vec2f { x: 0, y: 0 });
    assert_eq!(player.game_mode, GameMode::Adventure);
    assert_eq!(player.fly_speed, 0.05f32.to_bits());
    assert_eq!(player.walk_speed, 0.1f32.to_bits());
    assert_eq!(player.inventory, vec![ItemStack::default(); 45]);
    assert_eq!(player.selected_slot, 0);
    let other = Player::with_uuid(7, GameMode::Adventure, player.uuid);
    assert_eq!(player, other);
    let third = Player::with_uuid(7, GameMode::Adventure, 5);
    assert_eq!(third.uuid, 5);
}

#[test]
fn player_inventory_access() {
    let mut player = Player::with_uuid(1, GameMode::Creative, 0);
    *player.item_stack_at(3) = ItemStack { id: 9, count: 1, damage: 0 };
    assert_eq!(player.inventory[3].id, 9);
    *player.item_stack_in_hotbar(2) = ItemStack { id: 4, count: 2, damage: 1 };
    assert_eq!(player.inventory[38], ItemStack { id: 4, count: 2, damage: 1 });
    player.selected_slot = 2;
    assert_eq!(player.held_item(), Some(ItemStack { id: 4, count: 2, damage: 1 }));
    player.selected_slot = 9;
    assert_eq!(player.held_item(), None);
    player.selected_slot = -37;
    assert_eq!(player.held_item(), None);
    player.selected_slot = -36;
    assert_eq!(player.held_item(), Some(ItemStack::default()));
}

#[test]
fn player_is_an_entity() {
    let mut player = Player::with_uuid(4, GameMode::Survival, 0);
    assert_eq!(player.id(), 4);
    player.set_pos(Vec3d { x: 33.7f64.to_bits(), y: 70.2f64.to_bits(), z: (-1.5f64).to_bits() });
    player.set_rot(Vec2f { x: 5, y: 6 });
    assert_eq!(player.pos().y, 70.2f64.to_bits());
    assert_eq!(player.rot(), Vec2f { x: 5, y: 6 });
    assert_eq!(player.block_pos(), BlockPos::new(33, 70, -1));
    assert_eq!(player.chunk_pos(), ChunkPos::new(2, -1));
}

#[test]
fn config_holds_its_fields() {
    let config = ServerConfig {
        motd: "m".to_string(),
        slots: 1,
        game_mode: GameMode::Survival,
        difficulty: 0,
        net_endpoint: "e".to_string(),
        net_compression: 0,
        generator_threads: 2,
        view_dist: 3,
        seed: Some(4),
    };
    assert_eq!(config.clone(), config);
    assert_ne!(BiomeLayer::Sea, BiomeLayer::Land);
}

#[test]
fn chunk_set_behaves_as_a_set() {
    let mut set = ChunkSet::new();
    assert!(!set.contains(ChunkPos::new(1, 2)));
    assert!(set.insert(ChunkPos::new(1, 2)));
    assert!(!set.insert(ChunkPos::new(1, 2)));
    assert!(set.insert(ChunkPos::new(2, 1)));
    assert!(set.contains(ChunkPos::new(1, 2)));
    assert!(!set.contains(ChunkPos::new(1, 1)));
    let mut members: Vec<(i32, i32)> = set.positions().iter().map(|p| (p.x, p.z)).collect();
    members.sort();
    assert_eq!(members, vec![(1, 2), (2, 1)]);
    assert!(set.remove(ChunkPos::new(1, 2)));
    assert!(!set.remove(ChunkPos::new(1, 2)));
    assert_eq!(set.positions(), vec![ChunkPos::new(2, 1)]);
}

#[test]
fn request_region_twice_enqueues_each_missing_chunk_once() {
    let mut world = World::new();
    world.insert_chunk(Chunk::new(0, 0));
    let (mut sched, rx) = GenerationScheduler::new();
    let first = sched.request_region(&world, 0, 0, 1);
    assert_eq!(first.len(), 8);
    let mut sorted: Vec<(i32, i32)> = first.iter().map(|p| (p.x, p.z)).collect();
    sorted.sort();
    sorted.dedup();
    assert_eq!(sorted.len(), 8);
    assert!(!sorted.contains(&(0, 0)));
    let second = sched.request_region(&world, 0, 0, 1);
    assert!(second.is_empty());
    let queued: Vec<ChunkPos> = rx.try_iter().collect();
    assert_eq!(queued, first);
    assert!(sched.is_pending(ChunkPos::new(1, 1)));
    assert!(!sched.is_pending(ChunkPos::new(0, 0)));
}

#[test]
fn request_region_skips_pending_and_present_chunks() {
    let mut world = World::new();
    let (mut sched, rx) = GenerationScheduler::new();
    assert_eq!(sched.request_region(&world, 5, 5, 0), vec![ChunkPos::new(5, 5)]);
    let wider = sched.request_region(&world, 5, 5, 1);
    assert_eq!(wider.len(), 8);
    // A worker finishes one chunk: it is in the world, and pending no more.
    world.insert_chunk(Chunk::new(5, 5));
    sched.complete(ChunkPos::new(5, 5));
    assert!(!sched.is_pending(ChunkPos::new(5, 5)));
    assert!(sched.request_region(&world, 5, 5, 1).is_empty());
    assert!(sched.request_region(&world, 0, 0, -1).is_empty());
    assert_eq!(rx.try_iter().count(), 9);
    drop(rx);
    // Without a receiver the position is pending all the same.
    assert_eq!(sched.request_region(&world, 50, 50, 0), vec![ChunkPos::new(50, 50)]);
    assert!(sched.is_pending(ChunkPos::new(50, 50)));
}

#[test]
fn request_region_at_the_edge_of_the_coordinates() {
    let world = World::new();
    let (mut sched, _rx) = GenerationScheduler::new();
    let queued = sched.request_region(&world, i32::MAX, i32::MIN, 1);
    let mut sorted: Vec<(i32, i32)> = queued.iter().map(|p| (p.x, p.z)).collect();
    sorted.sort();
    assert_eq!(
        sorted,
        vec![
            (i32::MAX - 1, i32::MIN),
            (i32::MAX - 1, i32::MIN + 1),
            (i32::MAX, i32::MIN),
            (i32::MAX, i32::MIN + 1)
        ]
    );
}

#[test]
fn region_await_waits_for_what_the_world_lacks() {
    let mut world = World::new();
    world.insert_chunk(Chunk::new(0, 0));
    world.insert_chunk(Chunk::new(1, 0));
    let mut wait = RegionAwait::new(&world, 0, 0, 1);
    assert!(!wait.is_done());
    for x in -1..=1 {
        for z in -1..=1 {
            assert!(!wait.is_done());
            wait.complete(ChunkPos::new(x, z));
        }
    }
    assert!(wait.is_done());
    wait.complete(ChunkPos::new(9, 9));
    assert!(wait.is_done());
    let mut wait = RegionAwait::new(&world, 0, 0, 0);
    assert!(wait.is_done());
    wait.complete(ChunkPos::new(0, 0));
    assert!(wait.is_done());
    let mut wait = RegionAwait::new(&world, 2, 0, 1);
    for z in -1..=1 {
        for x in 2..=3 {
            wait.complete(ChunkPos::new(x, z));
        }
        wait.complete(ChunkPos::new(1, z));
    }
    assert!(wait.is_done());
}

#[test]
fn broker_registers_and_drops_clients() {
    let (mut broker, mut fan_in) = PacketBroker::new();
    assert!(broker.subscribers().is_empty());
    let mut first = broker.add_client(1);
    let mut second = broker.add_client(2);
    assert!(broker.is_registered(1));
    assert!(broker.is_registered(2));
    assert!(!broker.is_registered(3));
    let mut ids: Vec<i32> = broker.subscribers().iter().map(|(id, _)| *id).collect();
    ids.sort();
    assert_eq!(ids, vec![1, 2]);

    // What is written to the bus arrives at its reading end, in order.
    let bus = broker.new_broadcast();
    bus.try_send(Packet::S00KeepAlive { timestamp: 1 }).unwrap();
    bus.try_send(Packet::S00KeepAlive { timestamp: 2 }).unwrap();
    assert_eq!(fan_in.try_recv().ok(), Some(Packet::S00KeepAlive { timestamp: 1 }));
    assert_eq!(fan_in.try_recv().ok(), Some(Packet::S00KeepAlive { timestamp: 2 }));

    // A copy for every subscriber arrives at that subscriber's queue.
    for (id, queue) in broker.subscribers() {
        queue.try_send(Packet::S00KeepAlive { timestamp: id }).unwrap();
    }
    assert_eq!(first.try_recv().ok(), Some(Packet::S00KeepAlive { timestamp: 1 }));
    assert_eq!(second.try_recv().ok(), Some(Packet::S00KeepAlive { timestamp: 2 }));
    assert!(first.try_recv().is_err());

    assert!(broker.remove_client(1));
    assert!(!broker.remove_client(1));
    assert!(!broker.is_registered(1));
    let ids: Vec<i32> = broker.subscribers().iter().map(|(id, _)| *id).collect();
    assert_eq!(ids, vec![2]);
}

#[test]
fn broker_queue_holds_128_packets() {
    let (mut broker, _fan_in) = PacketBroker::new();
    let _rx = broker.add_client(7);
    let (_, queue) = broker.subscribers().pop().unwrap();
    for i in 0..128 {
        assert!(queue.try_send(Packet::S00KeepAlive { timestamp: i }).is_ok());
    }
    assert!(queue.try_send(Packet::S00KeepAlive { timestamp: 128 }).is_err());
}

#[test]
fn broker_replaces_a_client_that_registers_again() {
    let (mut broker, _fan_in) = PacketBroker::new();
    let mut old = broker.add_client(7);
    let mut new = broker.add_client(7);
    assert_eq!(broker.subscribers().len(), 1);
    let (_, queue) = broker.subscribers().pop().unwrap();
    queue.try_send(Packet::C0AAnimation).unwrap();
    assert_eq!(new.try_recv().ok(), Some(Packet::C0AAnimation));
    assert!(old.try_recv().is_err());
}
