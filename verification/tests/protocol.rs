//! The dispatch state machine end to end: login, chunk push, pose updates,
//! chat, handshake, and the registry and allocator behaviour.

use oxidized_alpha::channel::PacketSerializer;
use oxidized_alpha::chunk::spawn_chunk;
use oxidized_alpha::error::Error;
use oxidized_alpha::player::Player;
use oxidized_alpha::registry::EntityIdAllocator;
use oxidized_alpha::session::{finish_login, handle_packet, DecodeOutcome, Packet, Session};

fn decode_one(bytes: Vec<u8>) -> (Packet, usize) {
    let mut ser = PacketSerializer::new(bytes);
    match ser.read_packet() {
        DecodeOutcome::Decoded { packet } => (packet, ser.pos),
        DecodeOutcome::NeedMore => panic!("incomplete packet"),
    }
}

fn login_bytes(version: u32, username: &str, password: &str, seed: u64, dimension: u8) -> Vec<u8> {
    let mut ser = PacketSerializer::new(Vec::new());
    ser.write_u8(0x01);
    ser.write_be_u32(version);
    ser.write_string(username).unwrap();
    ser.write_string(password).unwrap();
    ser.write_be_u64(seed);
    ser.write_u8(dimension);
    ser.output
}

fn do_login(
    username: &str,
    players: &mut Vec<Player>,
    alloc: &mut EntityIdAllocator,
) -> (Session, Vec<u8>) {
    let mut sess = Session::new();
    let mut ser = PacketSerializer::new(Vec::new());
    let (packet, _) = decode_one(login_bytes(3, username, "x", 42, 0));
    let pending = handle_packet(packet, &mut ser, &mut sess, players, alloc).unwrap();
    finish_login(players, pending.unwrap());
    (sess, ser.output)
}

#[test]
fn login_steve_yields_entity_one_and_registry_record() {
    let mut players: Vec<Player> = Vec::new();
    let mut alloc = EntityIdAllocator::new();
    let mut sess = Session::new();
    let mut ser = PacketSerializer::new(Vec::new());

    let (packet, used) = decode_one(login_bytes(3, "Steve", "x", 42, 0));
    assert_eq!(used, 1 + 4 + 7 + 3 + 8 + 1);
    let pending = handle_packet(packet, &mut ser, &mut sess, &mut players, &mut alloc).unwrap();
    assert_eq!(pending, Some(0));
    assert_eq!(sess.username.as_deref(), Some("Steve"));

    let out = &ser.output;
    // login response: entity id 1, two empty reserved strings, seed 42, dimension 0
    assert_eq!(out[0], 0x01);
    assert_eq!(&out[1..5], &1i32.to_be_bytes());
    assert_eq!(&out[5..9], &[0, 0, 0, 0]);
    assert_eq!(&out[9..17], &42u64.to_be_bytes());
    assert_eq!(out[17], 0);
    // chunk push: pre-chunk announcement for grid (1, 1) in load mode, then
    // the map chunk at world origin (16, 0, 16) with extents (15, 127, 15)
    assert_eq!(out[18], 0x32);
    assert_eq!(&out[19..23], &1i32.to_be_bytes());
    assert_eq!(&out[23..27], &1i32.to_be_bytes());
    assert_eq!(out[27], 0x01);
    assert_eq!(out[28], 0x33);
    assert_eq!(&out[29..33], &16i32.to_be_bytes());
    assert_eq!(&out[33..35], &0i16.to_be_bytes());
    assert_eq!(&out[35..39], &16i32.to_be_bytes());
    assert_eq!(&out[39..42], &[15, 127, 15]);
    let clen = i32::from_be_bytes([out[42], out[43], out[44], out[45]]) as usize;
    // after the compressed bytes: the spawn-position packet, then the pose
    let sp = 46 + clen;
    assert_eq!(out[sp], 0x06);
    assert_eq!(&out[sp + 1..sp + 5], &0i32.to_be_bytes());
    assert_eq!(&out[sp + 5..sp + 9], &80i32.to_be_bytes());
    assert_eq!(&out[sp + 9..sp + 13], &0i32.to_be_bytes());
    let pl = sp + 13;
    assert_eq!(out[pl], 0x0d);
    assert_eq!(&out[pl + 1..pl + 9], &0.0f64.to_be_bytes());
    assert_eq!(&out[pl + 9..pl + 17], &81.6f64.to_be_bytes());
    assert_eq!(&out[pl + 17..pl + 25], &80.0f64.to_be_bytes());
    assert_eq!(&out[pl + 25..pl + 33], &0.0f64.to_be_bytes());
    assert_eq!(&out[pl + 33..pl + 37], &0.0f32.to_be_bytes());
    assert_eq!(&out[pl + 37..pl + 41], &0.0f32.to_be_bytes());
    assert_eq!(out[pl + 41], 1);
    assert_eq!(out.len(), pl + 42);

    // the registry record before and after the completion step
    assert_eq!(players.len(), 1);
    assert!(!players[0].logged_in);
    finish_login(&mut players, 0);
    let p = &players[0];
    assert_eq!(p.username, "Steve");
    assert!(p.logged_in);
    assert_eq!(p.x, 0.0f64.to_bits());
    assert_eq!(p.y, 80.0f64.to_bits());
    assert_eq!(p.z, 0.0f64.to_bits());
    assert_eq!(p.stance, 81.6f64.to_bits());
    assert_eq!(p.yaw, 0);
    assert_eq!(p.pitch, 0);
    assert!(p.on_ground);

    // a second distinct login in the same process yields entity id 2
    let (_, out2) = do_login("Alex", &mut players, &mut alloc);
    assert_eq!(&out2[1..5], &2i32.to_be_bytes());
    assert_eq!(players.len(), 2);
    // the first record is still there, untouched
    assert_eq!(players[0].username, "Steve");
    assert!(players[0].logged_in);
}

#[test]
fn login_version_99_rejected_and_registry_untouched() {
    let mut players: Vec<Player> = Vec::new();
    let mut alloc = EntityIdAllocator::new();
    let mut sess = Session::new();
    let mut ser = PacketSerializer::new(Vec::new());

    let (packet, _) = decode_one(login_bytes(99, "Steve", "x", 42, 0));
    let e = handle_packet(packet, &mut ser, &mut sess, &mut players, &mut alloc).unwrap_err();
    assert_eq!(e, Error::InvalidProtocolVersion);
    assert!(players.is_empty());
    assert!(ser.output.is_empty());
    assert!(sess.username.is_none());
    assert_eq!(alloc.next, 1);
}

#[test]
fn spawn_chunk_arrays_and_compression() {
    let c = spawn_chunk();
    assert_eq!(c.blocks.len(), 32768);
    assert_eq!(c.data.len(), 32768);
    assert_eq!(c.block_light.len(), 32768);
    assert_eq!(c.sky_light.len(), 32768);
    assert!(c.blocks.iter().all(|b| *b == 0));
    assert!(c.data.iter().all(|b| *b == 0));
    assert!(c.block_light.iter().all(|b| *b == 15));
    assert!(c.sky_light.iter().all(|b| *b == 15));

    let mut ser = PacketSerializer::new(Vec::new());
    ser.write_chunk(c.clone()).unwrap();
    let out = &ser.output;
    let clen = i32::from_be_bytes([out[24], out[25], out[26], out[27]]) as usize;
    assert_eq!(out.len(), 28 + clen);
    // the compressed payload is smaller than the raw 131072-byte concatenation
    assert!(clen < 131072);
    // and decompresses back to exactly that concatenation
    let mut raw = c.blocks.clone();
    raw.extend_from_slice(&c.data);
    raw.extend_from_slice(&c.block_light);
    raw.extend_from_slice(&c.sky_light);
    assert_eq!(raw.len(), 131072);
    let restored = miniz_oxide::inflate::decompress_to_vec_zlib(&out[28..]).unwrap();
    assert_eq!(restored, raw);
}

fn position_and_look_bytes() -> Vec<u8> {
    let mut ser = PacketSerializer::new(Vec::new());
    ser.write_u8(0x0d);
    ser.write_be_u64(5.0f64.to_bits());
    ser.write_be_u64(71.6f64.to_bits());
    ser.write_be_u64(70.0f64.to_bits());
    ser.write_be_u64(3.0f64.to_bits());
    ser.write_be_u32(90.0f32.to_bits());
    ser.write_be_u32(0.0f32.to_bits());
    ser.write_u8(1);
    ser.output
}

#[test]
fn position_and_look_updates_only_the_bound_player() {
    let mut players: Vec<Player> = Vec::new();
    let mut alloc = EntityIdAllocator::new();
    let (mut steve, _) = do_login("Steve", &mut players, &mut alloc);
    let (_, _) = do_login("Alex", &mut players, &mut alloc);
    let alex_before = players[1].clone();

    let (packet, _) = decode_one(position_and_look_bytes());
    let mut ser = PacketSerializer::new(Vec::new());
    let pending = handle_packet(packet, &mut ser, &mut steve, &mut players, &mut alloc).unwrap();
    assert_eq!(pending, None);
    assert!(ser.output.is_empty());

    let p = &players[0];
    assert_eq!(p.username, "Steve");
    assert!(p.logged_in);
    assert_eq!(p.x, 5.0f64.to_bits());
    assert_eq!(p.stance, 71.6f64.to_bits());
    assert_eq!(p.y, 70.0f64.to_bits());
    assert_eq!(p.z, 3.0f64.to_bits());
    assert_eq!(p.yaw, 90.0f32.to_bits());
    assert_eq!(p.pitch, 0.0f32.to_bits());
    assert!(p.on_ground);
    assert_eq!(players[1], alex_before);
}

#[test]
fn position_packet_updates_position_and_stance_only() {
    let mut players: Vec<Player> = Vec::new();
    let mut alloc = EntityIdAllocator::new();
    let (mut steve, _) = do_login("Steve", &mut players, &mut alloc);

    let mut w = PacketSerializer::new(Vec::new());
    w.write_u8(0x0b);
    w.write_be_u64(1.5f64.to_bits());
    w.write_be_u64(66.0f64.to_bits());
    w.write_be_u64(67.6f64.to_bits());
    w.write_be_u64(9.0f64.to_bits());
    w.write_u8(0);
    let (packet, _) = decode_one(w.output);
    let mut ser = PacketSerializer::new(Vec::new());
    handle_packet(packet, &mut ser, &mut steve, &mut players, &mut alloc).unwrap();

    let p = &players[0];
    assert_eq!(p.x, 1.5f64.to_bits());
    assert_eq!(p.y, 66.0f64.to_bits());
    assert_eq!(p.stance, 67.6f64.to_bits());
    assert_eq!(p.z, 9.0f64.to_bits());
    assert!(!p.on_ground);
    // orientation untouched
    assert_eq!(p.yaw, 0);
    assert_eq!(p.pitch, 0);
}

#[test]
fn look_packet_updates_orientation_only() {
    let mut players: Vec<Player> = Vec::new();
    let mut alloc = EntityIdAllocator::new();
    let (mut steve, _) = do_login("Steve", &mut players, &mut alloc);

    let mut w = PacketSerializer::new(Vec::new());
    w.write_u8(0x0c);
    w.write_be_u32(180.0f32.to_bits());
    w.write_be_u32((-30.0f32).to_bits());
    w.write_u8(1);
    let (packet, _) = decode_one(w.output);
    let mut ser = PacketSerializer::new(Vec::new());
    handle_packet(packet, &mut ser, &mut steve, &mut players, &mut alloc).unwrap();

    let p = &players[0];
    assert_eq!(p.yaw, 180.0f32.to_bits());
    assert_eq!(p.pitch, (-30.0f32).to_bits());
    assert!(p.on_ground);
    // position untouched
    assert_eq!(p.x, 0.0f64.to_bits());
    assert_eq!(p.y, 80.0f64.to_bits());
}

#[test]
fn ground_flag_packet_updates_flag_only() {
    let mut players: Vec<Player> = Vec::new();
    let mut alloc = EntityIdAllocator::new();
    let (mut steve, _) = do_login("Steve", &mut players, &mut alloc);
    assert!(players[0].on_ground);

    let (packet, used) = decode_one(vec![0x0a, 0x00]);
    assert_eq!(used, 2);
    let mut ser = PacketSerializer::new(Vec::new());
    handle_packet(packet, &mut ser, &mut steve, &mut players, &mut alloc).unwrap();
    assert!(!players[0].on_ground);
    assert_eq!(players[0].x, 0.0f64.to_bits());
}

#[test]
fn pose_before_login_is_dropped() {
    let mut players: Vec<Player> = Vec::new();
    let mut alloc = EntityIdAllocator::new();
    let mut sess = Session::new();
    let (packet, _) = decode_one(position_and_look_bytes());
    let mut ser = PacketSerializer::new(Vec::new());
    let pending = handle_packet(packet, &mut ser, &mut sess, &mut players, &mut alloc).unwrap();
    assert_eq!(pending, None);
    assert!(players.is_empty());
    assert!(ser.output.is_empty());
}

#[test]
fn pose_with_no_matching_record_is_dropped() {
    let mut players: Vec<Player> = Vec::new();
    let mut alloc = EntityIdAllocator::new();
    let (_, _) = do_login("Steve", &mut players, &mut alloc);
    let before = players.clone();

    let mut ghost_sess = Session { username: Some("Nobody".to_string()) };
    let (packet, _) = decode_one(position_and_look_bytes());
    let mut ser = PacketSerializer::new(Vec::new());
    handle_packet(packet, &mut ser, &mut ghost_sess, &mut players, &mut alloc).unwrap();
    assert_eq!(players, before);
}

#[test]
fn keep_alive_replies_single_zero_byte() {
    let mut players: Vec<Player> = Vec::new();
    let mut alloc = EntityIdAllocator::new();
    let mut sess = Session::new();
    let (packet, used) = decode_one(vec![0x00]);
    assert_eq!(used, 1);
    let mut ser = PacketSerializer::new(Vec::new());
    let pending = handle_packet(packet, &mut ser, &mut sess, &mut players, &mut alloc).unwrap();
    assert_eq!(pending, None);
    assert_eq!(ser.output, vec![0]);
}

#[test]
fn handshake_replies_fixed_acceptance_token() {
    let mut players: Vec<Player> = Vec::new();
    let mut alloc = EntityIdAllocator::new();
    let mut sess = Session::new();
    let mut w = PacketSerializer::new(Vec::new());
    w.write_u8(0x02);
    w.write_string("Steve").unwrap();
    let (packet, _) = decode_one(w.output);
    let mut ser = PacketSerializer::new(Vec::new());
    handle_packet(packet, &mut ser, &mut sess, &mut players, &mut alloc).unwrap();
    assert_eq!(ser.output, vec![2, 0, 1, b'-']);
    // a handshake does not authenticate
    assert!(sess.username.is_none());
    assert!(players.is_empty());
}

#[test]
fn chat_message_is_intake_only() {
    let mut players: Vec<Player> = Vec::new();
    let mut alloc = EntityIdAllocator::new();
    let mut sess = Session::new();
    let mut w = PacketSerializer::new(Vec::new());
    w.write_u8(0x03);
    w.write_string("hello there").unwrap();
    let (packet, _) = decode_one(w.output);
    match &packet {
        Packet::ChatMessage { message } => assert_eq!(message, "hello there"),
        _ => panic!("expected a chat message"),
    }
    let mut ser = PacketSerializer::new(Vec::new());
    let pending = handle_packet(packet, &mut ser, &mut sess, &mut players, &mut alloc).unwrap();
    assert_eq!(pending, None);
    assert!(ser.output.is_empty());
    assert!(players.is_empty());
}

#[test]
fn unknown_packet_id_is_skipped_without_terminating() {
    let mut players: Vec<Player> = Vec::new();
    let mut alloc = EntityIdAllocator::new();
    let mut sess = Session::new();
    let (packet, used) = decode_one(vec![0x99, 0xaa, 0xbb]);
    assert_eq!(used, 1);
    match &packet {
        Packet::Unknown { id } => assert_eq!(*id, 0x99),
        _ => panic!("expected an unknown packet"),
    }
    let mut ser = PacketSerializer::new(Vec::new());
    let pending = handle_packet(packet, &mut ser, &mut sess, &mut players, &mut alloc).unwrap();
    assert_eq!(pending, None);
    assert!(ser.output.is_empty());
}

#[test]
fn truncated_packet_consumes_nothing() {
    let full = login_bytes(3, "Steve", "x", 42, 0);
    for cut in [0, 1, 3, 6, 9, full.len() - 1] {
        let mut ser = PacketSerializer::new(full[..cut].to_vec());
        match ser.read_packet() {
            DecodeOutcome::NeedMore => assert_eq!(ser.pos, 0),
            DecodeOutcome::Decoded { .. } => panic!("decoded a truncated packet"),
        }
    }
}

#[test]
fn decode_consumes_exactly_one_packet() {
    let mut bytes = login_bytes(3, "Steve", "x", 42, 0);
    let login_len = bytes.len();
    bytes.push(0x00);
    bytes.push(0x0a);
    let mut ser = PacketSerializer::new(bytes);
    match ser.read_packet() {
        DecodeOutcome::Decoded { packet: Packet::Login { version, seed, dimension, .. } } => {
            assert_eq!(version, 3);
            assert_eq!(seed, 42);
            assert_eq!(dimension, 0);
        },
        _ => panic!("expected a login packet"),
    }
    assert_eq!(ser.pos, login_len);
    match ser.read_packet() {
        DecodeOutcome::Decoded { packet: Packet::KeepAlive } => {},
        _ => panic!("expected a keep-alive packet"),
    }
    assert_eq!(ser.pos, login_len + 1);
}

#[test]
fn entity_ids_strictly_increase() {
    let mut alloc = EntityIdAllocator::new();
    let a = alloc.allocate();
    let b = alloc.allocate();
    let c = alloc.allocate();
    assert_eq!((a, b, c), (1, 2, 3));
    assert!(a < b && b < c);
}

#[test]
fn interleaved_logins_keep_every_record() {
    let mut players: Vec<Player> = Vec::new();
    let mut alloc = EntityIdAllocator::new();
    let (_, out1) = do_login("Steve", &mut players, &mut alloc);
    let (_, out2) = do_login("Alex", &mut players, &mut alloc);
    let (_, out3) = do_login("Robin", &mut players, &mut alloc);
    let ids: Vec<i32> = [&out1, &out2, &out3]
        .iter()
        .map(|o| i32::from_be_bytes([o[1], o[2], o[3], o[4]]))
        .collect();
    assert_eq!(ids, vec![1, 2, 3]);
    let names: Vec<&str> = players.iter().map(|p| p.username.as_str()).collect();
    assert_eq!(names, vec!["Steve", "Alex", "Robin"]);
    assert!(players.iter().all(|p| p.logged_in));
}

#[test]
fn incremental_feed_completes_a_packet() {
    let full = position_and_look_bytes();
    let mut ser = PacketSerializer::new(full[..10].to_vec());
    assert!(matches!(ser.read_packet(), DecodeOutcome::NeedMore));
    assert_eq!(ser.pos, 0);
    let mut input = ser.input;
    input.extend_from_slice(&full[10..]);
    let mut ser = PacketSerializer::new(input);
    match ser.read_packet() {
        DecodeOutcome::Decoded { packet: Packet::PlayerPositionAndLook { x, on_ground, .. } } => {
            assert_eq!(x, 5.0f64.to_bits());
            assert!(on_ground);
        }
        _ => panic!("expected the completed pose packet"),
    }
    assert_eq!(ser.pos, full.len());
}

#[test]
fn duplicate_usernames_update_the_first_match() {
    let mut players: Vec<Player> = Vec::new();
    let mut alloc = EntityIdAllocator::new();
    let (mut steve, _) = do_login("Steve", &mut players, &mut alloc);
    let (_, _) = do_login("Steve", &mut players, &mut alloc);
    let second_before = players[1].clone();

    let (packet, _) = decode_one(position_and_look_bytes());
    let mut ser = PacketSerializer::new(Vec::new());
    handle_packet(packet, &mut ser, &mut steve, &mut players, &mut alloc).unwrap();
    assert_eq!(players[0].x, 5.0f64.to_bits());
    assert_eq!(players[1], second_before);
}
