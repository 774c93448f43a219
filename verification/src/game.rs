//! The server's game state: characters, rooms, and the tables that hold them.

use vstd::prelude::*;
use crate::protocol::CharacterFlags;

verus! {

broadcast use vstd::std_specs::hash::group_hash_axioms;

/// A player or a monster.
#[derive(Clone, Debug)]
pub struct Character {
    pub name: String,
    pub is_active: bool,
    pub flags: u8,
    pub attack: u16,
    pub defense: u16,
    pub regen: u16,
    pub health: i16,
    pub gold: u16,
    pub curr_room: u16,
    pub desc: String,
}

impl Character {
    /// A fresh player: active, every flag set, 50 attack, 50 defense,
    /// 100 regen, 100 health, no gold, in room 0.
    pub fn new(name: String, desc: String) -> (c: Character)
        ensures
            c.name == name,
            c.desc == desc,
            c.is_active,
            c.flags == 0xFFu8,
            c.attack == 50,
            c.defense == 50,
            c.regen == 100,
            c.health == 100,
            c.gold == 0,
            c.curr_room == 0,
    {
        Character {
            name,
            desc,
            is_active: true,
            flags: 0xFF,
            attack: 50,
            defense: 50,
            regen: 100,
            health: 100,
            gold: 0,
            curr_room: 0,
        }
    }

    /// A monster with the given stats: active, flagged alive and monster.
    pub fn new_monster(
        name: String,
        desc: String,
        attack: u16,
        defense: u16,
        regen: u16,
        health: i16,
        gold: u16,
        curr_room: u16,
    ) -> (c: Character)
        ensures
            c.name == name,
            c.desc == desc,
            c.is_active,
            c.flags == CharacterFlags::IS_ALIVE | CharacterFlags::IS_MONSTER,
            c.flags == 0b10100000u8,
            c.attack == attack,
            c.defense == defense,
            c.regen == regen,
            c.health == health,
            c.gold == gold,
            c.curr_room == curr_room,
    {
        let flags = CharacterFlags::IS_ALIVE | CharacterFlags::IS_MONSTER;
        assert(CharacterFlags::IS_ALIVE | CharacterFlags::IS_MONSTER == 0b10100000u8)
            by (bit_vector);
        Character {
            name,
            desc,
            is_active: true,
            flags,
            attack,
            defense,
            regen,
            health,
            gold,
            curr_room,
        }
    }

    /// A copy of this character, field for field.
    fn copy(&self) -> (c: Character)
        ensures
            c == *self,
    {
        Character {
            name: self.name.clone(),
            is_active: self.is_active,
            flags: self.flags,
            attack: self.attack,
            defense: self.defense,
            regen: self.regen,
            health: self.health,
            gold: self.gold,
            curr_room: self.curr_room,
            desc: self.desc.clone(),
        }
    }
}

/// A room of the game world and the numbers of the rooms it leads to.
pub struct Room {
    pub id_num: u16,
    pub name: String,
    pub desc: String,
    pub connections: Vec<u16>,
}

impl Room {
    pub fn new(id_num: u16, name: String, desc: String, connections: Vec<u16>) -> (r: Room)
        ensures
            r.id_num == id_num,
            r.name == name,
            r.desc == desc,
            r.connections == connections,
    {
        Room { id_num, name, desc, connections }
    }
}

/// The rooms of the world, by number, and the characters that have joined,
/// by name.
///
/// At most one character of each name is held. The characters are kept in a
/// vector rather than a hash map keyed by name: vstd's contracts for
/// `HashMap` hold only for key types that it gives a hashing model, and it
/// gives none to `String`.
pub struct GameState {
    pub room_hashmap: std::collections::HashMap<u16, Room>,
    characters: Vec<Character>,
}

/// The position in `cs` of the character named `name`, if there is one.
pub open spec fn position_of(cs: Seq<Character>, name: Seq<char>) -> Option<int>
    decreases cs.len(),
{
    if cs.len() == 0 {
        None
    } else if cs.last().name@ == name {
        Some(cs.len() - 1)
    } else {
        position_of(cs.drop_last(), name)
    }
}

proof fn lemma_position_of(cs: Seq<Character>, name: Seq<char>)
    ensures
        match position_of(cs, name) {
            Some(i) => 0 <= i < cs.len() && cs[i].name@ == name,
            None => forall|j: int| 0 <= j < cs.len() ==> cs[j].name@ != name,
        },
    decreases cs.len(),
{
    if cs.len() > 0 {
        let rest = cs.drop_last();
        lemma_position_of(rest, name);
        assert forall|j: int| 0 <= j < rest.len() implies #[trigger] rest[j] == cs[j] by {}
        assert(cs.last() == cs[cs.len() - 1]);
        if cs.last().name@ != name {
            assert(position_of(cs, name) == position_of(rest, name));
            if position_of(rest, name) is None {
                assert forall|j: int| 0 <= j < cs.len() implies cs[j].name@ != name by {
                    if j < rest.len() {
                        assert(rest[j] == cs[j]);
                    }
                }
            }
        }
    }
}

/// A character put into the game is found under its name afterwards, every
/// other name finds what it found before, and the number of characters grows
/// by one exactly when the name was new.
pub proof fn lemma_character_read_after_write(before: GameState, after: GameState, c: Character)
    requires
        after.characters() == before.characters().insert(c.name@, c),
    ensures
        after.characters().contains_key(c.name@),
        after.characters()[c.name@] == c,
        after.characters().len() == before.characters().len() + (if before.characters().contains_key(
            c.name@,
        ) {
            0nat
        } else {
            1nat
        }),
        forall|n: Seq<char>|
            n != c.name@ ==> (#[trigger] after.characters().contains_key(n)
                == before.characters().contains_key(n) && (after.characters().contains_key(n)
                ==> after.characters()[n] == before.characters()[n])),
{
    before.lemma_finite();
    assert(after.characters().dom() =~= before.characters().dom().insert(c.name@));
}

/// Putting a character into the game a second time changes nothing; putting
/// in another character of the same name replaces the first and leaves the
/// number of characters as one put-in left it.
pub proof fn lemma_character_put_twice(
    before: GameState,
    once: GameState,
    twice: GameState,
    c: Character,
    c2: Character,
)
    requires
        c2.name@ == c.name@,
        once.characters() == before.characters().insert(c.name@, c),
        twice.characters() == once.characters().insert(c2.name@, c2),
    ensures
        c2 == c ==> twice.characters() == once.characters(),
        twice.characters() == before.characters().insert(c.name@, c2),
        twice.characters()[c.name@] == c2,
        twice.characters().len() == once.characters().len(),
{
    lemma_character_read_after_write(before, once, c);
    lemma_character_read_after_write(once, twice, c2);
    assert(once.characters().insert(c2.name@, c2) =~= before.characters().insert(c.name@, c2));
    if c2 == c {
        assert(once.characters().insert(c.name@, c) =~= once.characters());
    }
}

/// A room put into the game is found under its number afterwards, every
/// other number finds what it found before, and the number of rooms grows by
/// one exactly when the number was new.
pub proof fn lemma_room_read_after_write(before: GameState, after: GameState, room: Room)
    requires
        after.rooms() == before.rooms().insert(room.id_num, room),
    ensures
        after.rooms().contains_key(room.id_num),
        after.rooms()[room.id_num] == room,
        after.rooms().len() == before.rooms().len() + (if before.rooms().contains_key(room.id_num) {
            0nat
        } else {
            1nat
        }),
        forall|id: u16|
            id != room.id_num ==> (#[trigger] after.rooms().contains_key(id)
                == before.rooms().contains_key(id) && (after.rooms().contains_key(id)
                ==> after.rooms()[id] == before.rooms()[id])),
{
    before.lemma_finite();
    assert(after.rooms().dom() =~= before.rooms().dom().insert(room.id_num));
}

/// The names held in `cs` are finitely many.
proof fn lemma_names_finite(cs: Seq<Character>)
    ensures
        Set::new(|name: Seq<char>| position_of(cs, name) is Some).finite(),
    decreases cs.len(),
{
    let names = Set::new(|name: Seq<char>| position_of(cs, name) is Some);
    if cs.len() == 0 {
        assert(names =~= Set::<Seq<char>>::empty());
    } else {
        let rest = cs.drop_last();
        lemma_names_finite(rest);
        let rest_names = Set::new(|name: Seq<char>| position_of(rest, name) is Some);
        assert(names =~= rest_names.insert(cs.last().name@));
    }
}

impl GameState {
    /// No two characters share a name.
    pub closed spec fn wf(&self) -> bool {
        forall|i: int, j: int|
            0 <= i < j < self.characters@.len() ==> #[trigger] self.characters@[i].name@
                != #[trigger] self.characters@[j].name@
    }

    /// The characters that have joined, by name.
    pub closed spec fn characters(&self) -> Map<Seq<char>, Character> {
        Map::new(
            |name: Seq<char>| position_of(self.characters@, name) is Some,
            |name: Seq<char>| self.characters@[position_of(self.characters@, name)->0],
        )
    }

    /// The rooms of the world, by number.
    pub closed spec fn rooms(&self) -> Map<u16, Room> {
        self.room_hashmap@
    }

    /// The game holds finitely many rooms and finitely many characters.
    pub proof fn lemma_finite(&self)
        ensures
            self.rooms().dom().finite(),
            self.characters().dom().finite(),
    {
        lemma_names_finite(self.characters@);
        assert(self.characters().dom() =~= Set::new(
            |name: Seq<char>| position_of(self.characters@, name) is Some,
        ));
    }

    /// An empty world: no rooms, no characters.
    pub fn new() -> (g: GameState)
        ensures
            g.wf(),
            g.rooms() == Map::<u16, Room>::empty(),
            g.characters() == Map::<Seq<char>, Character>::empty(),
    {
        let g = GameState {
            room_hashmap: std::collections::HashMap::new(),
            characters: Vec::new(),
        };
        assert(g.characters() =~= Map::<Seq<char>, Character>::empty());
        g
    }

    /// Puts `room` under its number, and gives back the room that was there
    /// before, if any.
    pub fn add_room(&mut self, room: Room) -> (previous: Option<Room>)
        ensures
            final(self).rooms() == old(self).rooms().insert(room.id_num, room),
            final(self).characters() == old(self).characters(),
            final(self).wf() == old(self).wf(),
            final(self).rooms().len() == old(self).rooms().len() + (if old(self).rooms().contains_key(
                room.id_num,
            ) {
                0nat
            } else {
                1nat
            }),
            match previous {
                Some(p) => old(self).rooms().contains_key(room.id_num) && p == old(self).rooms()[room.id_num],
                None => !old(self).rooms().contains_key(room.id_num),
            },
    {
        let id = room.id_num;
        proof {
            self.lemma_finite();
        }
        let previous = self.room_hashmap.insert(id, room);
        proof {
            assert(self.rooms().dom() =~= old(self).rooms().dom().insert(id));
        }
        previous
    }

    /// Puts a copy of `character` under its name, in place of any character
    /// of that name.
    pub fn add_character(&mut self, character: &mut Character)
        requires
            old(self).wf(),
        ensures
            final(self).wf(),
            final(self).characters() == old(self).characters().insert(
                old(character).name@,
                *old(character),
            ),
            final(self).characters().len() == old(self).characters().len() + (if old(
                self,
            ).characters().contains_key(old(character).name@) {
                0nat
            } else {
                1nat
            }),
            final(self).rooms() == old(self).rooms(),
            *final(character) == *old(character),
    {
        proof {
            old(self).lemma_finite();
            assert(old(self).characters().insert(old(character).name@, *old(character)).dom()
                =~= old(self).characters().dom().insert(old(character).name@));
        }
        let c = character.copy();
        let ghost name = c.name@;
        let ghost before = self.characters@;
        proof {
            lemma_position_of(before, name);
        }
        let n = self.characters.len();
        let mut i: usize = 0;
        while i < n
            invariant
                n == self.characters@.len(),
                self.characters@ == before,
                before == old(self).characters@,
                self.room_hashmap@ == old(self).room_hashmap@,
                old(self).wf(),
                old(self).characters().dom().finite(),
                old(self).characters().insert(old(character).name@, *old(character)).dom()
                    == old(self).characters().dom().insert(old(character).name@),
                c == *old(character),
                *character == *old(character),
                name == c.name@,
                match position_of(before, name) {
                    Some(p) => 0 <= p < before.len() && before[p].name@ == name,
                    None => forall|j: int| 0 <= j < before.len() ==> before[j].name@ != name,
                },
                i <= n,
                forall|j: int| 0 <= j < i ==> self.characters@[j].name@ != name,
            decreases n - i,
        {
            if self.characters[i].name == c.name {
                self.characters.set(i, c);
                proof {
                    self.lemma_replace_keeps_names(before, i as int, name);
                }
                return;
            }
            i = i + 1;
        }
        self.characters.push(c);
        proof {
            self.lemma_push_new_name(before, name);
        }
    }

    /// The character named `name`, if one has joined.
    pub fn get_character(&self, name: &String) -> (c: Option<&Character>)
        requires
            self.wf(),
        ensures
            match c {
                Some(c) => self.characters().contains_key(name@) && *c == self.characters()[name@],
                None => !self.characters().contains_key(name@),
            },
    {
        let ghost cs = self.characters@;
        proof {
            lemma_position_of(cs, name@);
        }
        let n = self.characters.len();
        let mut i: usize = 0;
        while i < n
            invariant
                n == self.characters@.len(),
                self.characters@ == cs,
                self.wf(),
                i <= n,
                forall|j: int| 0 <= j < i ==> self.characters@[j].name@ != name@,
            decreases n - i,
        {
            if self.characters[i].name == *name {
                proof {
                    self.lemma_unique_position(i as int, name@);
                }
                return Some(&self.characters[i]);
            }
            i = i + 1;
        }
        None
    }

    /// The room numbered `id`, if there is one.
    pub fn get_room(&self, id: u16) -> (r: Option<&Room>)
        ensures
            match r {
                Some(r) => self.rooms().contains_key(id) && *r == self.rooms()[id],
                None => !self.rooms().contains_key(id),
            },
    {
        self.room_hashmap.get(&id)
    }

    /// With unique names, the character at `i` is the one that the name
    /// `name` finds.
    proof fn lemma_unique_position(&self, i: int, name: Seq<char>)
        requires
            self.wf(),
            0 <= i < self.characters@.len(),
            self.characters@[i].name@ == name,
        ensures
            position_of(self.characters@, name) == Some(i),
    {
        lemma_position_of(self.characters@, name);
        let p = position_of(self.characters@, name)->0;
        if p != i {
            if p < i {
                assert(self.characters@[p].name@ != self.characters@[i].name@);
            } else {
                assert(self.characters@[i].name@ != self.characters@[p].name@);
            }
        }
    }

    proof fn lemma_replace_keeps_names(&self, before: Seq<Character>, i: int, name: Seq<char>)
        requires
            0 <= i < before.len(),
            before[i].name@ == name,
            self.characters@ == before.update(i, self.characters@[i]),
            self.characters@[i].name@ == name,
            forall|a: int, b: int|
                0 <= a < b < before.len() ==> #[trigger] before[a].name@ != #[trigger] before[b].name@,
        ensures
            self.wf(),
            self.characters() == Map::new(
                |k: Seq<char>| position_of(before, k) is Some,
                |k: Seq<char>| before[position_of(before, k)->0],
            ).insert(name, self.characters@[i]),
    {
        let cs = self.characters@;
        assert forall|a: int, b: int| 0 <= a < b < cs.len() implies #[trigger] cs[a].name@
            != #[trigger] cs[b].name@ by {
            assert(before[a].name@ != before[b].name@);
        }
        let old_map = Map::new(
            |k: Seq<char>| position_of(before, k) is Some,
            |k: Seq<char>| before[position_of(before, k)->0],
        );
        assert forall|k: Seq<char>| #[trigger] self.characters().contains_key(k)
            <==> old_map.insert(name, cs[i]).contains_key(k) by {
            lemma_position_of(cs, k);
            lemma_position_of(before, k);
            if position_of(before, k) is Some {
                let p = position_of(before, k)->0;
                if p != i {
                    assert(cs[p] == before[p]);
                }
            }
            if position_of(cs, k) is Some {
                let p = position_of(cs, k)->0;
                if p != i {
                    assert(cs[p] == before[p]);
                }
            }
        }
        assert forall|k: Seq<char>| #[trigger] self.characters().contains_key(k) implies
            self.characters()[k] == old_map.insert(name, cs[i])[k] by {
            lemma_position_of(cs, k);
            lemma_position_of(before, k);
            self.lemma_unique_position(position_of(cs, k)->0, k);
            if k == name {
                self.lemma_unique_position(i, k);
            } else {
                let p = position_of(cs, k)->0;
                assert(p != i);
                assert(cs[p] == before[p]);
                let q = position_of(before, k)->0;
                if q != p {
                    if q < p {
                        assert(before[q].name@ != before[p].name@);
                    } else {
                        assert(before[p].name@ != before[q].name@);
                    }
                }
            }
        }
        assert(self.characters() =~= old_map.insert(name, cs[i]));
    }

    proof fn lemma_push_new_name(&self, before: Seq<Character>, name: Seq<char>)
        requires
            before.len() + 1 == self.characters@.len(),
            self.characters@ == before.push(self.characters@.last()),
            self.characters@.last().name@ == name,
            forall|j: int| 0 <= j < before.len() ==> before[j].name@ != name,
            forall|a: int, b: int|
                0 <= a < b < before.len() ==> #[trigger] before[a].name@ != #[trigger] before[b].name@,
        ensures
            self.wf(),
            self.characters() == Map::new(
                |k: Seq<char>| position_of(before, k) is Some,
                |k: Seq<char>| before[position_of(before, k)->0],
            ).insert(name, self.characters@.last()),
    {
        let cs = self.characters@;
        let n = before.len() as int;
        assert forall|a: int, b: int| 0 <= a < b < cs.len() implies #[trigger] cs[a].name@
            != #[trigger] cs[b].name@ by {
            if b < n {
                assert(before[a].name@ != before[b].name@);
            } else {
                assert(cs[a] == before[a]);
            }
        }
        let old_map = Map::new(
            |k: Seq<char>| position_of(before, k) is Some,
            |k: Seq<char>| before[position_of(before, k)->0],
        );
        assert(cs.drop_last() =~= before);
        assert forall|k: Seq<char>|
            #[trigger] position_of(cs, k) == (if k == name {
                Some(n)
            } else {
                position_of(before, k)
            }) by {}
        assert forall|k: Seq<char>| #[trigger] self.characters().contains_key(k)
            <==> old_map.insert(name, cs.last()).contains_key(k) by {
            assert(position_of(cs, k) == (if k == name { Some(n) } else { position_of(before, k) }));
        }
        assert forall|k: Seq<char>| #[trigger] self.characters().contains_key(k) implies
            self.characters()[k] == old_map.insert(name, cs.last())[k] by {
            assert(position_of(cs, k) == (if k == name { Some(n) } else { position_of(before, k) }));
            if k != name {
                lemma_position_of(before, k);
                assert(cs[position_of(before, k)->0] == before[position_of(before, k)->0]);
            }
        }
        assert(self.characters() =~= old_map.insert(name, cs.last()));
    }
}

} // verus!
