use lurk::codec::encode_message;
use lurk::game::{GameState, Room};
use lurk::protocol::{ErrorType, Message, MessageType};
use lurk::session::{
    character_header, classify_request, ClientSession, HeaderOutcome, LeaveOutcome, RequestKind, StartOutcome,
    DEFAULT_NAME, NOT_READY_TEXT, PLAYER_EXISTS_TEXT, STAT_ERROR_TEXT, WELCOME,
};

fn name32(text: &str) -> [u8; 32] {
    let mut n = [0u8; 32];
    n[..text.len()].copy_from_slice(text.as_bytes());
    n
}

fn header(name: &str, flags: u8, attack: u16, defense: u16, regen: u16, desc_len: u16) -> [u8; 47] {
    let mut h = [0u8; 47];
    h[..32].copy_from_slice(&name32(name));
    h[32] = flags;
    h[33..35].copy_from_slice(&attack.to_le_bytes());
    h[35..37].copy_from_slice(&defense.to_le_bytes());
    h[37..39].copy_from_slice(&regen.to_le_bytes());
    h[39..41].copy_from_slice(&(-7i16).to_le_bytes());
    h[41..43].copy_from_slice(&11u16.to_le_bytes());
    h[43..45].copy_from_slice(&3u16.to_le_bytes());
    h[45..47].copy_from_slice(&desc_len.to_le_bytes());
    h
}

fn error_bytes(code: u8, text: &str) -> Vec<u8> {
    let mut v = vec![7, code];
    v.extend_from_slice(&(text.len() as u16).to_le_bytes());
    v.extend_from_slice(text.as_bytes());
    v
}

fn world() -> GameState {
    let mut g = GameState::new();
    g.add_room(Room::new(0, String::from("Joy Room"), String::from("happy"), vec![1, 2]));
    g.add_room(Room::new(1, String::from("Fear Tomb"), String::from("fish"), vec![0]));
    g.add_room(Room::new(2, String::from("Goblin Bathhouse"), String::from("slime"), vec![0]));
    g
}

/// Joins a character named `name` with small stats and the description "d".
fn join(s: &mut ClientSession, g: &mut GameState, name: &str) -> Message {
    match character_header(g, &header(name, 0, 10, 20, 30, 1)) {
        HeaderOutcome::Proceed(h, n) => s.character_body(g, &h, n, b"d"),
        HeaderOutcome::Refused(_) => panic!("refused"),
    }
}

#[test]
fn request_kinds() {
    assert_eq!(classify_request(MessageType::CHARACTER), RequestKind::Character);
    assert_eq!(classify_request(MessageType::START), RequestKind::Start);
    assert_eq!(classify_request(MessageType::LEAVE), RequestKind::Leave);
    for t in [MessageType::CHANGEROOM, MessageType::FIGHT, MessageType::LOOT, MessageType::MESSAGE,
              MessageType::PVPFIGHT, MessageType::VERSION] {
        assert_eq!(classify_request(t), RequestKind::Unhandled);
    }
    for t in [MessageType::ACCEPT, MessageType::CONNECTION, MessageType::ERROR, MessageType::ROOM] {
        assert_eq!(classify_request(t), RequestKind::ServerOnly);
    }
    for t in [0u8, 11, 15, 200, 255] {
        assert_eq!(classify_request(t), RequestKind::Unknown);
    }
}

#[test]
fn new_session_defaults() {
    let s = ClientSession::new();
    assert_eq!((s.stat_limit, s.initial_points), (5000, 300));
    assert!(!s.game_started && !s.player_joined);
    assert_eq!(s.character.name, "");
    assert_eq!(s.character.flags, 0xFF);
}

#[test]
fn greeting_messages() {
    let s = ClientSession::new();
    let msgs = s.greeting();
    assert_eq!(msgs.len(), 2);
    assert_eq!(encode_message(&msgs[0]), Some(vec![14, 2, 3, 0, 0]));
    let mut game = vec![11, 44, 1, 0x88, 0x13];
    game.extend_from_slice(&(WELCOME.len() as u16).to_le_bytes());
    game.extend_from_slice(WELCOME.as_bytes());
    assert_eq!(encode_message(&msgs[1]), Some(game));
}

#[test]
fn character_accepted_then_name_taken() {
    let mut g = world();
    let mut s = ClientSession::new();
    let reply = join(&mut s, &mut g, "Ann");
    assert_eq!(encode_message(&reply), Some(vec![8, 10]));
    assert!(s.player_joined);
    assert!(!s.game_started);
    let mut expected_name = String::from("Ann");
    expected_name.push_str(&"\0".repeat(29));
    assert_eq!(s.character.name, expected_name);
    assert_eq!(s.character.desc, "d");
    assert_eq!(s.character.flags, 0x88);
    assert_eq!((s.character.attack, s.character.defense, s.character.regen), (10, 20, 30));
    assert_eq!((s.character.health, s.character.gold, s.character.curr_room), (-7, 11, 0));
    assert_eq!(g.get_character(&expected_name).unwrap().attack, 10);

    match character_header(&g, &header("Ann", 0, 1, 1, 1, 0)) {
        HeaderOutcome::Refused(m) => {
            assert_eq!(encode_message(&m), Some(error_bytes(ErrorType::PLAYER_EXISTS, PLAYER_EXISTS_TEXT)));
        }
        HeaderOutcome::Proceed(..) => panic!("a taken name was accepted"),
    }
}

#[test]
fn stats_over_initial_points_refused() {
    let mut g = world();
    let mut s = ClientSession::new();
    let (h, n) = match character_header(&g, &header("Bob", 0, 200, 100, 1, 0)) {
        HeaderOutcome::Proceed(h, n) => (h, n),
        HeaderOutcome::Refused(_) => panic!("refused"),
    };
    assert_eq!(h.attack, 200);
    assert_eq!(h.health, -7);
    let reply = s.character_body(&mut g, &h, n, b"");
    assert_eq!(encode_message(&reply), Some(error_bytes(ErrorType::STAT_ERROR, STAT_ERROR_TEXT)));
    assert!(!s.player_joined);
    assert_eq!(s.character.name, "");
    assert_eq!(s.character.attack, 50);
    let mut name = String::from("Bob");
    name.push_str(&"\0".repeat(29));
    assert!(g.get_character(&name).is_none());
}

#[test]
fn stats_exactly_initial_points_accepted() {
    let mut g = world();
    let mut s = ClientSession::new();
    let (h, n) = match character_header(&g, &header("Cy", 0x40, 100, 100, 100, 0)) {
        HeaderOutcome::Proceed(h, n) => (h, n),
        HeaderOutcome::Refused(_) => panic!("refused"),
    };
    let reply = s.character_body(&mut g, &h, n, b"");
    assert_eq!(encode_message(&reply), Some(vec![8, 10]));
    assert_eq!(s.character.flags, 0x40);
}

#[test]
fn all_flags_become_alive_and_ready() {
    let mut g = world();
    let mut s = ClientSession::new();
    let (h, n) = match character_header(&g, &header("Dee", 0xFF, 1, 1, 1, 0)) {
        HeaderOutcome::Proceed(h, n) => (h, n),
        HeaderOutcome::Refused(_) => panic!("refused"),
    };
    s.character_body(&mut g, &h, n, b"");
    assert_eq!(s.character.flags, 0x88);
}

#[test]
fn empty_name_and_invalid_description() {
    let mut g = world();
    let mut s = ClientSession::new();
    let (h, _) = match character_header(&g, &header("Eve", 0, 1, 1, 1, 2)) {
        HeaderOutcome::Proceed(h, n) => (h, n),
        HeaderOutcome::Refused(_) => panic!("refused"),
    };
    let reply = s.character_body(&mut g, &h, String::new(), &[0xFF, b'a']);
    assert_eq!(encode_message(&reply), Some(vec![8, 10]));
    assert_eq!(s.character.name, DEFAULT_NAME);
    assert_eq!(s.character.name, "DEFAULT MEAT");
    assert_eq!(s.character.desc, "\u{FFFD}a");
    assert!(g.get_character(&String::from("DEFAULT MEAT")).is_some());
}

#[test]
fn invalid_name_bytes_read_lossily() {
    let g = world();
    let mut h = header("", 0, 1, 1, 1, 0);
    h[0] = 0xC0;
    match character_header(&g, &h) {
        HeaderOutcome::Proceed(_, n) => {
            assert!(n.starts_with('\u{FFFD}'));
            assert_eq!(n.chars().count(), 32);
        }
        HeaderOutcome::Refused(_) => panic!("refused"),
    }
}

#[test]
fn start_before_join_not_ready() {
    let g = world();
    let mut s = ClientSession::new();
    match s.start(&g) {
        StartOutcome::NotReady(m) => {
            assert_eq!(encode_message(&m), Some(error_bytes(ErrorType::NOT_READY, NOT_READY_TEXT)));
        }
        StartOutcome::Started(_) => panic!("started without a character"),
    }
    assert!(!s.game_started);
}

#[test]
fn start_after_join_describes_rooms() {
    let mut g = world();
    let mut s = ClientSession::new();
    join(&mut s, &mut g, "Ann");
    assert!(s.can_start(&g));
    let msgs = match s.start(&g) {
        StartOutcome::Started(m) => m,
        StartOutcome::NotReady(_) => panic!("not ready"),
    };
    assert!(s.game_started);
    assert_eq!(msgs.len(), 4);
    let mut character = vec![10];
    character.extend_from_slice(&name32("Ann"));
    character.extend_from_slice(&[0x88, 10, 0, 20, 0, 30, 0]);
    character.extend_from_slice(&(-7i16).to_le_bytes());
    character.extend_from_slice(&[11, 0, 0, 0, 1, 0, b'd']);
    assert_eq!(encode_message(&msgs[0]), Some(character));
    let mut room = vec![9, 0, 0];
    room.extend_from_slice(&name32("Joy Room"));
    room.extend_from_slice(&[5, 0]);
    room.extend_from_slice(b"happy");
    assert_eq!(encode_message(&msgs[1]), Some(room));
    let mut c1 = vec![13, 1, 0];
    c1.extend_from_slice(&name32("Fear Tomb"));
    c1.extend_from_slice(&[4, 0]);
    c1.extend_from_slice(b"fish");
    assert_eq!(encode_message(&msgs[2]), Some(c1));
    let mut c2 = vec![13, 2, 0];
    c2.extend_from_slice(&name32("Goblin Bathhouse"));
    c2.extend_from_slice(&[5, 0]);
    c2.extend_from_slice(b"slime");
    assert_eq!(encode_message(&msgs[3]), Some(c2));
}

#[test]
fn cannot_start_without_room_or_long_name() {
    let mut g = GameState::new();
    let mut s = ClientSession::new();
    join(&mut s, &mut g, "Ann");
    assert!(!s.can_start(&g));
    g.add_room(Room::new(0, String::from("Joy Room"), String::from("happy"), vec![9]));
    assert!(!s.can_start(&g));
    g.add_room(Room::new(9, "x".repeat(33), String::from("long"), vec![]));
    assert!(!s.can_start(&g));
    g.add_room(Room::new(9, "x".repeat(32), String::from("long"), vec![]));
    assert!(s.can_start(&g));
    s.character.name = String::from(DEFAULT_NAME);
    assert!(!s.can_start(&g));
}

#[test]
fn leave_disconnects_only_joined() {
    let mut g = world();
    let mut s = ClientSession::new();
    assert_eq!(s.leave(), LeaveOutcome::Ignored);
    join(&mut s, &mut g, "Ann");
    assert_eq!(s.leave(), LeaveOutcome::Disconnect);
}

#[test]
fn announced_character_reads_back() {
    let mut g = world();
    let mut s = ClientSession::new();
    join(&mut s, &mut g, "Quinn");
    let msgs = match s.start(&g) {
        StartOutcome::Started(m) => m,
        StartOutcome::NotReady(_) => panic!("not ready"),
    };
    let bytes = encode_message(&msgs[0]).unwrap();
    let mut header = [0u8; 47];
    header.copy_from_slice(&bytes[1..48]);
    let h = lurk::codec::parse_character_header(&header);
    assert_eq!(bytes[0], MessageType::CHARACTER);
    assert_eq!(&h.name[..], &s.character.name.as_bytes()[..32]);
    assert_eq!(h.flags, s.character.flags);
    assert_eq!((h.attack, h.defense, h.regen), (s.character.attack, s.character.defense, s.character.regen));
    assert_eq!((h.health, h.gold, h.curr_room), (s.character.health, s.character.gold, s.character.curr_room));
    assert_eq!(h.desc_len as usize, s.character.desc.len());
    assert_eq!(&bytes[48..], s.character.desc.as_bytes());
}
