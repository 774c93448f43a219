use lurk::game::{Character, GameState, Room};
use lurk::protocol::CharacterFlags;

#[test]
fn new_character_defaults() {
    let c = Character::new(String::from("Ann"), String::from("brave"));
    assert_eq!(c.name, "Ann");
    assert_eq!(c.desc, "brave");
    assert!(c.is_active);
    assert_eq!(c.flags, 0xFF);
    assert_eq!((c.attack, c.defense, c.regen, c.health, c.gold, c.curr_room), (50, 50, 100, 100, 0, 0));
}

#[test]
fn new_monster_flags_and_stats() {
    let m = Character::new_monster(String::from("Ogre"), String::from("big"), 1, 2, 3, -4, 5, 6);
    assert_eq!(m.flags, CharacterFlags::IS_ALIVE | CharacterFlags::IS_MONSTER);
    assert_eq!(m.flags, 0b1010_0000);
    assert!(m.is_active);
    assert_eq!((m.attack, m.defense, m.regen, m.health, m.gold, m.curr_room), (1, 2, 3, -4, 5, 6));
    assert_eq!(m.name, "Ogre");
}

#[test]
fn room_new_keeps_fields() {
    let r = Room::new(4, String::from("Doom Chute"), String::from("acid"), vec![0]);
    assert_eq!(r.id_num, 4);
    assert_eq!(r.name, "Doom Chute");
    assert_eq!(r.desc, "acid");
    assert_eq!(r.connections, vec![0]);
}

#[test]
fn add_room_returns_previous() {
    let mut g = GameState::new();
    assert!(g.get_room(0).is_none());
    let prev = g.add_room(Room::new(0, String::from("Joy Room"), String::from("a"), vec![1, 2]));
    assert!(prev.is_none());
    assert_eq!(g.get_room(0).unwrap().name, "Joy Room");
    let prev = g.add_room(Room::new(0, String::from("Other"), String::from("b"), vec![]));
    assert_eq!(prev.unwrap().name, "Joy Room");
    assert_eq!(g.get_room(0).unwrap().name, "Other");
    assert!(g.get_room(1).is_none());
}

#[test]
fn add_character_read_after_write() {
    let mut g = GameState::new();
    let mut a = Character::new(String::from("Ann"), String::from("one"));
    let mut b = Character::new(String::from("Bob"), String::from("two"));
    g.add_character(&mut a);
    g.add_character(&mut b);
    assert_eq!(g.get_character(&String::from("Ann")).unwrap().desc, "one");
    assert_eq!(g.get_character(&String::from("Bob")).unwrap().desc, "two");
    assert!(g.get_character(&String::from("Cat")).is_none());
    let mut a2 = Character::new(String::from("Ann"), String::from("replaced"));
    a2.gold = 9;
    g.add_character(&mut a2);
    let found = g.get_character(&String::from("Ann")).unwrap();
    assert_eq!(found.desc, "replaced");
    assert_eq!(found.gold, 9);
    assert_eq!(a2.desc, "replaced");
    assert_eq!(g.get_character(&String::from("Bob")).unwrap().desc, "two");
}
