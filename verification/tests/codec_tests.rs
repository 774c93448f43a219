use lurk::codec::{
    encode_message, i16_from_le, i16_to_le, parse_character_header, u16_from_le, u16_to_le,
    CHARACTER_HEADER_LEN,
};
use lurk::protocol::{ErrorType, Message, MessageType};

fn name32(text: &str) -> [u8; 32] {
    let mut n = [0u8; 32];
    n[..text.len()].copy_from_slice(text.as_bytes());
    n
}

#[test]
fn u16_little_endian() {
    assert_eq!(u16_to_le(0x1234), [0x34, 0x12]);
    assert_eq!(u16_to_le(0), [0, 0]);
    assert_eq!(u16_to_le(u16::MAX), [0xFF, 0xFF]);
    assert_eq!(u16_from_le(0x34, 0x12), 0x1234);
    assert_eq!(u16_from_le(0xFF, 0xFF), u16::MAX);
}

#[test]
fn i16_little_endian() {
    assert_eq!(i16_to_le(-2), [0xFE, 0xFF]);
    assert_eq!(i16_to_le(100), [100, 0]);
    assert_eq!(i16_to_le(i16::MIN), [0x00, 0x80]);
    assert_eq!(i16_from_le(0xFE, 0xFF), -2);
    assert_eq!(i16_from_le(0x00, 0x80), i16::MIN);
    assert_eq!(i16_from_le(0xFF, 0x7F), i16::MAX);
    for x in [i16::MIN, -300, -1, 0, 1, 255, 256, i16::MAX] {
        let b = i16_to_le(x);
        assert_eq!(b, x.to_le_bytes());
        assert_eq!(i16_from_le(b[0], b[1]), x);
    }
}

#[test]
fn encode_accept() {
    let m = Message::Accept { message_type: MessageType::ACCEPT, accepted_type: MessageType::CHARACTER };
    assert_eq!(encode_message(&m), Some(vec![8, 10]));
}

#[test]
fn encode_character() {
    let m = Message::Character {
        message_type: MessageType::CHARACTER,
        character_name: name32("Bob"),
        flags: 0x88,
        attack: 0x0102,
        defense: 3,
        regen: 4,
        health: -1,
        gold: 5,
        curr_room: 6,
        desc_len: 2,
        desc: vec![b'h', b'i'],
    };
    let mut expected = vec![10];
    expected.extend_from_slice(&name32("Bob"));
    expected.extend_from_slice(&[0x88, 0x02, 0x01, 3, 0, 4, 0, 0xFF, 0xFF, 5, 0, 6, 0, 2, 0, b'h', b'i']);
    let bytes = encode_message(&m).unwrap();
    assert_eq!(bytes, expected);
    assert_eq!(bytes.len(), 1 + CHARACTER_HEADER_LEN + 2);
}

#[test]
fn encode_room_and_connection() {
    let room = Message::Room {
        message_type: MessageType::ROOM,
        room_number: 258,
        room_name: name32("Hall"),
        desc_len: 3,
        room_desc: b"abc".to_vec(),
    };
    let mut expected = vec![9, 2, 1];
    expected.extend_from_slice(&name32("Hall"));
    expected.extend_from_slice(&[3, 0, b'a', b'b', b'c']);
    assert_eq!(encode_message(&room), Some(expected.clone()));
    let conn = Message::Connection {
        message_type: MessageType::CONNECTION,
        room_number: 258,
        room_name: name32("Hall"),
        desc_len: 3,
        room_desc: b"abc".to_vec(),
    };
    expected[0] = 13;
    assert_eq!(encode_message(&conn), Some(expected));
}

#[test]
fn encode_error_game_version() {
    let e = Message::Error {
        message_type: MessageType::ERROR,
        error_code: ErrorType::STAT_ERROR,
        message_len: 2,
        message: b"no".to_vec(),
    };
    assert_eq!(encode_message(&e), Some(vec![7, 4, 2, 0, b'n', b'o']));
    let g = Message::Game {
        message_type: MessageType::GAME,
        initial_points: 300,
        stat_limit: 5000,
        desc_len: 1,
        game_desc: vec![b'x'],
    };
    assert_eq!(encode_message(&g), Some(vec![11, 44, 1, 0x88, 0x13, 1, 0, b'x']));
    let v = Message::Version {
        message_type: MessageType::VERSION,
        major_revision: 2,
        minor_revision: 3,
        ext_len: 4,
        ext_list: vec![1, 2, 3, 4],
    };
    assert_eq!(encode_message(&v), Some(vec![14, 2, 3, 0, 0]));
}

#[test]
fn encode_unsent_kinds() {
    assert_eq!(encode_message(&Message::Start { message_type: MessageType::START }), None);
    assert_eq!(encode_message(&Message::Leave { message_type: MessageType::LEAVE }), None);
    assert_eq!(encode_message(&Message::Fight { message_type: MessageType::FIGHT }), None);
    assert_eq!(
        encode_message(&Message::ChangeRoom { message_type: MessageType::CHANGEROOM, target_room: 1 }),
        None
    );
    assert_eq!(
        encode_message(&Message::Loot { message_type: MessageType::LOOT, target_name: vec![1] }),
        None
    );
    assert_eq!(
        encode_message(&Message::PVPFight { message_type: MessageType::PVPFIGHT, target_name: [0; 32] }),
        None
    );
    assert_eq!(
        encode_message(&Message::Message {
            message_type: MessageType::MESSAGE,
            message_len: 0,
            recipient_name: [0; 32],
            sender_name: [0; 30],
            end_marker: 0,
            message: vec![],
        }),
        None
    );
}

#[test]
fn character_header_roundtrip() {
    let m = Message::Character {
        message_type: MessageType::CHARACTER,
        character_name: name32("Zed"),
        flags: 0x20,
        attack: 100,
        defense: 200,
        regen: 0,
        health: -300,
        gold: 65535,
        curr_room: 7,
        desc_len: 4,
        desc: b"tall".to_vec(),
    };
    let bytes = encode_message(&m).unwrap();
    let mut header = [0u8; 47];
    header.copy_from_slice(&bytes[1..48]);
    let h = parse_character_header(&header);
    assert_eq!(bytes[0], MessageType::CHARACTER);
    assert_eq!(h.name, name32("Zed"));
    assert_eq!(h.flags, 0x20);
    assert_eq!(h.attack, 100);
    assert_eq!(h.defense, 200);
    assert_eq!(h.regen, 0);
    assert_eq!(h.health, -300);
    assert_eq!(h.gold, 65535);
    assert_eq!(h.curr_room, 7);
    assert_eq!(h.desc_len, 4);
    assert_eq!(&bytes[48..], b"tall");
}

#[test]
fn header_bytes_roundtrip() {
    let mut b = [0u8; 47];
    for (i, x) in b.iter_mut().enumerate() {
        *x = (i as u8).wrapping_mul(37).wrapping_add(0x81);
    }
    let h = parse_character_header(&b);
    let m = Message::Character {
        message_type: MessageType::CHARACTER,
        character_name: h.name,
        flags: h.flags,
        attack: h.attack,
        defense: h.defense,
        regen: h.regen,
        health: h.health,
        gold: h.gold,
        curr_room: h.curr_room,
        desc_len: h.desc_len,
        desc: vec![1, 2, 3],
    };
    let bytes = encode_message(&m).unwrap();
    assert_eq!(bytes[0], MessageType::CHARACTER);
    assert_eq!(&bytes[1..48], &b[..]);
    assert_eq!(&bytes[48..], &[1, 2, 3]);
}
