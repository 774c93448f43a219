//! What the server decides for one connected client: the messages it
//! greets a client with, and its answer to each request the client sends.
//!
//! The server reads the type byte of each request, and the bytes that the
//! request kind calls for, and hands them to the functions here; it sends
//! the messages that come back and applies the outcome.

use vstd::prelude::*;
use crate::codec::{lemma_character_wire_roundtrip, wire, parse_character_header, read_character_header, CharacterHeader, CharacterHeaderView};
use crate::game::{Character, GameState, Room};
use crate::protocol::{CharacterFlags, ErrorType, Message, MessageType, MessageView};
use crate::text::{bytes_to_vec, first32, pad32, padded_name, string_from_utf8_lossy, utf8_lossy};
use vstd::utf8::{encode_utf8, is_char_boundary};

verus! {

/// The description that every client is sent when it connects.
pub const WELCOME: &'static str = "        
           \\`-._           __
            \\\\  `-..____,.'  `.
             :`.         /    \\`.
             :  )       :      : \\
              ;'        '   ;  |  :
              )..      .. .:.`.;  :
             /::...  .:::...   ` ;
             ; _ '    __        /:\\
             `:o>   /\\o_>      ;:. `.
            `-`.__ ;   __..--- /:.   \\
            === \\_/   ;=====_.':.     ;
             ,/'`--'...`--....        ;
                  ;                    ;
                .'                      ;
              .'                        ;
            .'     ..     ,      .       ;
           :       ::..  /      ;::.     |
          /      `.;::.  |       ;:..    ;
         :         |:.   :       ;:.    ;
         :         ::     ;:..   |.    ;
          :       :;      :::....|     |
          /\\     ,/ \\      ;:::::;     ;
        .:. \\:..|    :     ; '.--|     ;
       ::.  :''  `-.,,;     ;'   ;     ;
    .-'. _.'\\      / `;      \\,__:      \\
    `---'    `----'   ;      /    \\,.,,,/
                       `----`              ";

/// Sent when a character of the requested name has joined already.
pub const PLAYER_EXISTS_TEXT: &'static str = "Error: Character already joined";

/// Sent when attack, defense and regen add up to more than the initial points.
pub const STAT_ERROR_TEXT: &'static str =
    "Error: stats set too high; Attack, Defense, and Regen should not exceed initial_points";

/// Sent when a client asks to start before its character was accepted.
pub const NOT_READY_TEXT: &'static str = "Error: your character has not been accepted to the server";

/// The name given to a character whose name reads as empty text.
pub const DEFAULT_NAME: &'static str = "DEFAULT MEAT";

/// The `Error` message with the given code and text.
pub open spec fn error_view(code: u8, text: Seq<u8>) -> MessageView {
    MessageView::Error {
        message_type: MessageType::ERROR,
        error_code: code,
        message_len: text.len() as u16,
        message: text,
    }
}

/// The `Error` message with the given code and text.
fn error_message(code: u8, text: &str) -> (m: Message)
    ensures
        m@ == error_view(code, encode_utf8(text@)),
{
    let bytes = text.as_bytes();
    let len = bytes.len();
    Message::Error {
        message_type: MessageType::ERROR,
        error_code: code,
        message_len: len as u16,
        message: bytes_to_vec(bytes),
    }
}

/// What the server does with a request of a given type byte.
#[derive(PartialEq, Eq, Debug, Clone, Copy)]
pub enum RequestKind {
    /// A `Character` message: its 47 header bytes follow.
    Character,
    /// A `Start` message.
    Start,
    /// A `Leave` message.
    Leave,
    /// A kind that a client may send and the server does not act on yet.
    Unhandled,
    /// A kind that only a server sends; it is ignored.
    ServerOnly,
    /// A byte that names no kind of message; it is ignored.
    Unknown,
}

/// The kind of request that the type byte `t` starts.
pub open spec fn request_kind_of(t: u8) -> RequestKind {
    if t == MessageType::CHARACTER {
        RequestKind::Character
    } else if t == MessageType::START {
        RequestKind::Start
    } else if t == MessageType::LEAVE {
        RequestKind::Leave
    } else if t == MessageType::CHANGEROOM || t == MessageType::FIGHT || t == MessageType::LOOT
        || t == MessageType::MESSAGE || t == MessageType::PVPFIGHT || t == MessageType::VERSION {
        RequestKind::Unhandled
    } else if t == MessageType::ACCEPT || t == MessageType::CONNECTION || t
        == MessageType::ERROR || t == MessageType::ROOM {
        RequestKind::ServerOnly
    } else {
        RequestKind::Unknown
    }
}

/// The kind of request that the type byte `t` starts.
pub fn classify_request(t: u8) -> (k: RequestKind)
    ensures
        k == request_kind_of(t),
{
    if t == MessageType::CHARACTER {
        RequestKind::Character
    } else if t == MessageType::START {
        RequestKind::Start
    } else if t == MessageType::LEAVE {
        RequestKind::Leave
    } else if t == MessageType::CHANGEROOM || t == MessageType::FIGHT || t == MessageType::LOOT
        || t == MessageType::MESSAGE || t == MessageType::PVPFIGHT || t == MessageType::VERSION {
        RequestKind::Unhandled
    } else if t == MessageType::ACCEPT || t == MessageType::CONNECTION || t
        == MessageType::ERROR || t == MessageType::ROOM {
        RequestKind::ServerOnly
    } else {
        RequestKind::Unknown
    }
}

/// The flags that an accepted character gets from the flags it asked for:
/// all set or none set both become alive and ready.
pub open spec fn accepted_flags(requested: u8) -> u8 {
    if requested == CharacterFlags::ALL_FLAGS_SET || requested == CharacterFlags::NO_FLAGS_SET {
        0b10001000u8
    } else {
        requested
    }
}

/// The name that an accepted character gets from the text of its name field.
pub open spec fn accepted_name(name: Seq<char>) -> Seq<char> {
    if name.len() == 0 {
        DEFAULT_NAME@
    } else {
        name
    }
}

/// The name that a character header asks for, as text.
pub open spec fn requested_name(h: CharacterHeaderView) -> Seq<char> {
    utf8_lossy(h.name)
}

/// How the server answers the header of a `Character` request.
pub enum HeaderOutcome {
    /// A character of that name has joined already: this error goes back,
    /// and the request ends here.
    Refused(Message),
    /// Read the `desc_len` description bytes that the header announces,
    /// then hand them to [`ClientSession::character_body`] with the header
    /// and the name.
    Proceed(CharacterHeader, String),
}

/// How the server answers a `Start` request.
pub enum StartOutcome {
    /// The character was not accepted yet: this error goes back.
    NotReady(Message),
    /// The character, its room, and each room it leads to: these go back.
    Started(Vec<Message>),
}

/// How the server answers a `Leave` request.
#[derive(PartialEq, Eq, Debug, Clone, Copy)]
pub enum LeaveOutcome {
    /// No character has joined: nothing happens.
    Ignored,
    /// Close the connection and stop serving the client.
    Disconnect,
}

/// The `Room` message for the room numbered `number`.
pub open spec fn room_view(number: u16, room: Room) -> MessageView {
    MessageView::Room {
        message_type: MessageType::ROOM,
        room_number: number,
        room_name: pad32(encode_utf8(room.name@)),
        desc_len: encode_utf8(room.desc@).len() as u16,
        room_desc: encode_utf8(room.desc@),
    }
}

/// The `Connection` message for the room numbered `number`.
pub open spec fn connection_view(number: u16, room: Room) -> MessageView {
    MessageView::Connection {
        message_type: MessageType::CONNECTION,
        room_number: number,
        room_name: pad32(encode_utf8(room.name@)),
        desc_len: encode_utf8(room.desc@).len() as u16,
        room_desc: encode_utf8(room.desc@),
    }
}

/// The `Character` message that describes `c`, with the first 32 bytes of
/// its name.
pub open spec fn character_view(c: Character) -> MessageView {
    MessageView::Character {
        message_type: MessageType::CHARACTER,
        character_name: encode_utf8(c.name@).subrange(0, 32),
        flags: c.flags,
        attack: c.attack,
        defense: c.defense,
        regen: c.regen,
        health: c.health,
        gold: c.gold,
        curr_room: c.curr_room,
        desc_len: encode_utf8(c.desc@).len() as u16,
        desc: encode_utf8(c.desc@),
    }
}

/// A room name fits the 32-byte name field.
pub open spec fn name_fits(room: Room) -> bool {
    encode_utf8(room.name@).len() <= 32
}

/// Answers the 47 header bytes of a `Character` request: refused with a
/// `PLAYER_EXISTS` error when a character of the requested name (the
/// name field read as text) has joined already, else go on with the
/// header and that name.
pub fn character_header(game: &GameState, data: &[u8; 47]) -> (o: HeaderOutcome)
    requires
        game.wf(),
    ensures
        ({
            let h = read_character_header(data@);
            match o {
                HeaderOutcome::Refused(m) => {
                    &&& game.characters().contains_key(requested_name(h))
                    &&& m@ == error_view(ErrorType::PLAYER_EXISTS, encode_utf8(PLAYER_EXISTS_TEXT@))
                },
                HeaderOutcome::Proceed(header, name) => {
                    &&& !game.characters().contains_key(requested_name(h))
                    &&& header@ == h
                    &&& name@ == requested_name(h)
                },
            }
        }),
{
    let header = parse_character_header(data);
    let name = string_from_utf8_lossy(&header.name);
    match game.get_character(&name) {
        Some(_) => HeaderOutcome::Refused(
            error_message(ErrorType::PLAYER_EXISTS, PLAYER_EXISTS_TEXT),
        ),
        None => HeaderOutcome::Proceed(header, name),
    }
}

/// The state that the server keeps for one client.
pub struct ClientSession {
    /// The highest value a stat may take.
    pub stat_limit: u16,
    /// The points that attack, defense and regen may share.
    pub initial_points: u16,
    pub game_started: bool,
    pub player_joined: bool,
    /// The client's character, once accepted.
    pub character: Character,
}

impl ClientSession {
    /// A game is started only by a client whose character has joined.
    pub open spec fn consistent(&self) -> bool {
        self.game_started ==> self.player_joined
    }

    /// The state of a client that has just connected: limit 5000, 300
    /// initial points, nothing joined or started, and a fresh character with
    /// empty name and description.
    pub fn new() -> (s: ClientSession)
        ensures
            s.stat_limit == 5000,
            s.initial_points == 300,
            !s.game_started,
            !s.player_joined,
            s.consistent(),
            s.character.name@ == Seq::<char>::empty(),
            s.character.desc@ == Seq::<char>::empty(),
            s.character.is_active,
            s.character.flags == 0xFFu8,
            s.character.attack == 50,
            s.character.defense == 50,
            s.character.regen == 100,
            s.character.health == 100,
            s.character.gold == 0,
            s.character.curr_room == 0,
    {
        ClientSession {
            stat_limit: 5000,
            initial_points: 300,
            game_started: false,
            player_joined: false,
            character: Character::new(String::new(), String::new()),
        }
    }

    /// The messages that greet a client as it connects: the protocol version
    /// 2.3 with no extensions, then the game's points, stat limit and
    /// description.
    pub fn greeting(&self) -> (msgs: Vec<Message>)
        ensures
            msgs@.len() == 2,
            msgs@[0]@ == (MessageView::Version {
                message_type: MessageType::VERSION,
                major_revision: 2,
                minor_revision: 3,
                ext_len: 0,
                ext_list: Seq::empty(),
            }),
            msgs@[1]@ == (MessageView::Game {
                message_type: MessageType::GAME,
                initial_points: self.initial_points,
                stat_limit: self.stat_limit,
                desc_len: encode_utf8(WELCOME@).len() as u16,
                game_desc: encode_utf8(WELCOME@),
            }),
    {
        let mut msgs: Vec<Message> = Vec::new();
        msgs.push(
            Message::Version {
                message_type: MessageType::VERSION,
                major_revision: 2,
                minor_revision: 3,
                ext_len: 0,
                ext_list: Vec::new(),
            },
        );
        let bytes = WELCOME.as_bytes();
        let len = bytes.len();
        msgs.push(
            Message::Game {
                message_type: MessageType::GAME,
                initial_points: self.initial_points,
                stat_limit: self.stat_limit,
                desc_len: len as u16,
                game_desc: bytes_to_vec(bytes),
            },
        );
        msgs
    }

    /// Answers the rest of a `Character` request, given its header, the name
    /// it asks for and its description bytes.
    ///
    /// When attack, defense and regen add up to more than the initial
    /// points, a `STAT_ERROR` error goes back and nothing changes. Otherwise
    /// the client's character takes the requested stats and flags (all set
    /// or none set become alive and ready), the name (empty text becomes
    /// `DEFAULT_NAME`), the description read as text, room 0, and is
    /// active; the client has joined; a copy of the character goes into the
    /// game under its name; and an `Accept` of the `Character` request goes
    /// back.
    pub fn character_body(
        &mut self,
        game: &mut GameState,
        header: &CharacterHeader,
        name: String,
        desc: &[u8],
    ) -> (reply: Message)
        requires
            old(game).wf(),
            header.attack + header.defense + header.regen <= u16::MAX,
        ensures
            final(game).wf(),
            final(game).rooms() == old(game).rooms(),
            old(self).consistent() ==> final(self).consistent(),
            if header.attack + header.defense + header.regen > old(self).initial_points {
                &&& reply@ == error_view(ErrorType::STAT_ERROR, encode_utf8(STAT_ERROR_TEXT@))
                &&& *final(self) == *old(self)
                &&& final(game).characters() == old(game).characters()
            } else {
                let c = final(self).character;
                &&& reply@ == (MessageView::Accept {
                    message_type: MessageType::ACCEPT,
                    accepted_type: MessageType::CHARACTER,
                })
                &&& c.name@ == accepted_name(name@)
                &&& c.desc@ == utf8_lossy(desc@)
                &&& c.is_active
                &&& c.flags == accepted_flags(header.flags)
                &&& c.attack == header.attack
                &&& c.defense == header.defense
                &&& c.regen == header.regen
                &&& c.health == header.health
                &&& c.gold == header.gold
                &&& c.curr_room == 0
                &&& final(self).player_joined
                &&& final(self).game_started == old(self).game_started
                &&& final(self).stat_limit == old(self).stat_limit
                &&& final(self).initial_points == old(self).initial_points
                &&& final(game).characters() == old(game).characters().insert(c.name@, c)
            },
    {
        let points = header.attack + header.defense + header.regen;
        if points > self.initial_points {
            return error_message(ErrorType::STAT_ERROR, STAT_ERROR_TEXT);
        }
        let flags = header.flags;
        if flags == CharacterFlags::ALL_FLAGS_SET || flags == CharacterFlags::NO_FLAGS_SET {
            let ready = CharacterFlags::IS_ALIVE | CharacterFlags::IS_READY;
            assert(CharacterFlags::IS_ALIVE | CharacterFlags::IS_READY == 0b10001000u8)
                by (bit_vector);
            self.character.flags = ready;
        } else {
            self.character.flags = flags;
        }
        self.character.name = if name.as_str().is_empty() {
            DEFAULT_NAME.to_owned()
        } else {
            name
        };
        self.character.desc = string_from_utf8_lossy(desc);
        self.character.is_active = true;
        self.character.attack = header.attack;
        self.character.defense = header.defense;
        self.character.regen = header.regen;
        self.character.health = header.health;
        self.character.gold = header.gold;
        self.character.curr_room = 0;
        self.player_joined = true;
        game.add_character(&mut self.character);
        Message::Accept { message_type: MessageType::ACCEPT, accepted_type: MessageType::CHARACTER }
    }

    /// The server can answer a `Start` request of a joined client: the
    /// character's name holds at least 32 bytes and a character boundary at
    /// byte 32, its room exists, and that room and every room it leads to
    /// exist and have names of at most 32 bytes.
    pub open spec fn can_start_spec(&self, game: &GameState) -> bool {
        let name = encode_utf8(self.character.name@);
        let rooms = game.rooms();
        let here = self.character.curr_room;
        &&& name.len() >= 32
        &&& is_char_boundary(name, 32)
        &&& rooms.contains_key(here)
        &&& name_fits(rooms[here])
        &&& forall|i: int|
            0 <= i < rooms[here].connections@.len() ==> {
                &&& #[trigger] rooms.contains_key(rooms[here].connections@[i])
                &&& name_fits(rooms[rooms[here].connections@[i]])
            }
    }

    /// Whether the server can answer a `Start` request of a joined client;
    /// see [`Self::can_start_spec`].
    pub fn can_start(&self, game: &GameState) -> (ok: bool)
        ensures
            ok == self.can_start_spec(game),
    {
        let name = self.character.name.as_str();
        let bytes = name.as_bytes();
        if bytes.len() < 32 || !name.is_char_boundary(32) {
            return false;
        }
        let here = match game.get_room(self.character.curr_room) {
            Some(r) => r,
            None => {
                return false;
            },
        };
        let here_name = here.name.as_str();
        if here_name.as_bytes().len() > 32 {
            return false;
        }
        let ok = rooms_exist_and_fit(game, &here.connections);
        assert(ok == self.can_start_spec(game));
        ok
    }

    /// Answers a `Start` request.
    ///
    /// A client whose character has not joined gets a `NOT_READY` error and
    /// nothing changes. A joined client gets its character, its room, and a
    /// `Connection` for each room that its room leads to, in order; the game
    /// is then started.
    pub fn start(&mut self, game: &GameState) -> (o: StartOutcome)
        requires
            old(self).player_joined ==> old(self).can_start_spec(game),
        ensures
            old(self).consistent() ==> final(self).consistent(),
            match o {
                StartOutcome::NotReady(m) => {
                    &&& !old(self).player_joined
                    &&& m@ == error_view(ErrorType::NOT_READY, encode_utf8(NOT_READY_TEXT@))
                    &&& *final(self) == *old(self)
                },
                StartOutcome::Started(msgs) => {
                    let here = game.rooms()[old(self).character.curr_room];
                    &&& old(self).player_joined
                    &&& msgs@.len() == 2 + here.connections@.len()
                    &&& msgs@[0]@ == character_view(old(self).character)
                    &&& msgs@[1]@ == room_view(old(self).character.curr_room, here)
                    &&& forall|i: int|
                        0 <= i < here.connections@.len() ==> #[trigger] msgs@[2 + i]@
                            == connection_view(
                            here.connections@[i],
                            game.rooms()[here.connections@[i]],
                        )
                    &&& final(self).game_started
                    &&& final(self).player_joined == old(self).player_joined
                    &&& final(self).character == old(self).character
                    &&& final(self).stat_limit == old(self).stat_limit
                    &&& final(self).initial_points == old(self).initial_points
                },
            },
    {
        if !self.player_joined {
            return StartOutcome::NotReady(error_message(ErrorType::NOT_READY, NOT_READY_TEXT));
        }
        let mut msgs: Vec<Message> = Vec::new();
        let name_bytes = self.character.name.as_str().as_bytes();
        let desc_bytes = self.character.desc.as_str().as_bytes();
        let desc_len = desc_bytes.len();
        msgs.push(
            Message::Character {
                message_type: MessageType::CHARACTER,
                character_name: first32(name_bytes),
                flags: self.character.flags,
                attack: self.character.attack,
                defense: self.character.defense,
                regen: self.character.regen,
                health: self.character.health,
                gold: self.character.gold,
                curr_room: self.character.curr_room,
                desc_len: desc_len as u16,
                desc: bytes_to_vec(desc_bytes),
            },
        );
        let here_id = self.character.curr_room;
        let here = match game.get_room(here_id) {
            Some(r) => r,
            None => {
                return StartOutcome::Started(msgs);
            },
        };
        msgs.push(room_message(MessageType::ROOM, here_id, here));
        let n = here.connections.len();
        let mut i: usize = 0;
        while i < n
            invariant
                n == here.connections@.len(),
                i <= n,
                game.rooms().contains_key(here_id),
                *here == game.rooms()[here_id],
                forall|j: int|
                    0 <= j < n ==> {
                        &&& #[trigger] game.rooms().contains_key(here.connections@[j])
                        &&& name_fits(game.rooms()[here.connections@[j]])
                    },
                msgs@.len() == 2 + i,
                msgs@[0]@ == character_view(self.character),
                msgs@[1]@ == room_view(here_id, *here),
                forall|j: int|
                    0 <= j < i ==> #[trigger] msgs@[2 + j]@ == connection_view(
                        here.connections@[j],
                        game.rooms()[here.connections@[j]],
                    ),
            decreases n - i,
        {
            let id = here.connections[i];
            let conn = match game.get_room(id) {
                Some(r) => r,
                None => {
                    return StartOutcome::Started(msgs);
                },
            };
            msgs.push(room_message(MessageType::CONNECTION, id, conn));
            i = i + 1;
        }
        self.game_started = true;
        StartOutcome::Started(msgs)
    }

    /// Answers a `Leave` request: a client whose character has joined is
    /// disconnected; any other request of this kind is ignored.
    pub fn leave(&self) -> (o: LeaveOutcome)
        ensures
            o == (if self.player_joined {
                LeaveOutcome::Disconnect
            } else {
                LeaveOutcome::Ignored
            }),
    {
        if self.player_joined {
            LeaveOutcome::Disconnect
        } else {
            LeaveOutcome::Ignored
        }
    }
}

/// An error message carries its code and every byte of its text, and
/// announces the text's length (when it fits in 16 bits).
pub proof fn lemma_error_view(code: u8, text: Seq<u8>)
    ensures
        error_view(code, text) is Error,
        error_view(code, text)->Error_message_type == MessageType::ERROR,
        error_view(code, text)->Error_error_code == code,
        error_view(code, text)->Error_message == text,
        text.len() <= 65535 ==> error_view(code, text)->Error_message_len as int == text.len(),
{
}

/// A character keeps the name it asked for unless that name is empty text,
/// which becomes the default name.
pub proof fn lemma_accepted_name(name: Seq<char>)
    ensures
        name.len() > 0 ==> accepted_name(name) == name,
        name.len() == 0 ==> accepted_name(name) == DEFAULT_NAME@,
{
}

/// The request kind of each type byte: `Character`, `Start` and `Leave` are
/// acted on; the other kinds a client may send are not yet; the kinds only
/// a server sends, and every byte outside 1 to 14, are ignored.
pub proof fn lemma_request_kinds(t: u8)
    ensures
        t == 10 <==> request_kind_of(t) == RequestKind::Character,
        t == 6 <==> request_kind_of(t) == RequestKind::Start,
        t == 12 <==> request_kind_of(t) == RequestKind::Leave,
        (t == 1 || t == 2 || t == 3 || t == 4 || t == 5 || t == 14) <==> request_kind_of(t)
            == RequestKind::Unhandled,
        (t == 7 || t == 8 || t == 9 || t == 13) <==> request_kind_of(t) == RequestKind::ServerOnly,
        (t == 0 || t == 11 || t > 14) <==> request_kind_of(t) == RequestKind::Unknown,
{
}

/// The flags that a character is accepted with: a requested byte with some
/// but not all bits set is kept as it is; all set or none set both become
/// exactly the alive and ready bits.
pub proof fn lemma_accepted_flags(requested: u8)
    ensures
        requested != 0xFFu8 && requested != 0u8 ==> accepted_flags(requested) == requested,
        requested == 0xFFu8 || requested == 0u8 ==> accepted_flags(requested)
            == CharacterFlags::IS_ALIVE | CharacterFlags::IS_READY,
{
    assert(CharacterFlags::IS_ALIVE | CharacterFlags::IS_READY == 0b10001000u8) by (bit_vector);
}

/// The messages that answer a `Start` request carry whole descriptions: the
/// `Room` and `Connection` messages hold every byte of the room's
/// description and announce its length (when it fits in 16 bits), and name
/// the room in its name bytes padded with zeros to 32; the `Character`
/// message holds every byte of the character's description and the first 32
/// bytes of its name.
pub proof fn lemma_start_messages_whole(number: u16, room: Room, c: Character)
    ensures
        ({
            let desc = encode_utf8(room.desc@);
            let name = encode_utf8(room.name@);
            &&& room_view(number, room) is Room
            &&& room_view(number, room)->Room_message_type == MessageType::ROOM
            &&& room_view(number, room)->Room_room_number == number
            &&& room_view(number, room)->Room_room_desc == desc
            &&& desc.len() <= 65535 ==> room_view(number, room)->Room_desc_len as int == desc.len()
            &&& name.len() <= 32 ==> room_view(number, room)->Room_room_name.len() == 32
                && room_view(number, room)->Room_room_name.subrange(0, name.len() as int) == name
                && forall|j: int|
                name.len() <= j < 32 ==> room_view(number, room)->Room_room_name[j] == 0u8
            &&& connection_view(number, room) is Connection
            &&& connection_view(number, room)->Connection_message_type == MessageType::CONNECTION
            &&& connection_view(number, room)->Connection_room_number == number
            &&& connection_view(number, room)->Connection_room_desc == desc
            &&& desc.len() <= 65535 ==> connection_view(number, room)->Connection_desc_len as int
                == desc.len()
            &&& name.len() <= 32 ==> connection_view(number, room)->Connection_room_name
                == room_view(number, room)->Room_room_name
        }),
        ({
            let desc = encode_utf8(c.desc@);
            let v = character_view(c);
            &&& v is Character
            &&& v->Character_message_type == MessageType::CHARACTER
            &&& v->Character_desc == desc
            &&& desc.len() <= 65535 ==> v->Character_desc_len as int == desc.len()
            &&& encode_utf8(c.name@).len() >= 32 ==> v->Character_character_name.len() == 32
                && forall|j: int|
                0 <= j < 32 ==> v->Character_character_name[j] == encode_utf8(c.name@)[j]
            &&& v->Character_flags == c.flags
            &&& v->Character_attack == c.attack
            &&& v->Character_defense == c.defense
            &&& v->Character_regen == c.regen
            &&& v->Character_health == c.health
            &&& v->Character_gold == c.gold
            &&& v->Character_curr_room == c.curr_room
        }),
{
    let name = encode_utf8(room.name@);
    if name.len() <= 32 {
        assert(pad32(name).subrange(0, name.len() as int) =~= name);
    }
}

/// Whether the server can answer a `Start` request depends only on what the
/// answer needs: the character's name holds at least 32 bytes with a
/// character boundary at byte 32, and its room and every room that room
/// leads to exist with names of at most 32 bytes. Descriptions, of any
/// length, play no part.
pub proof fn lemma_can_start_exactly(s: ClientSession, game: GameState)
    ensures
        s.can_start_spec(&game) <==> ({
            let name = encode_utf8(s.character.name@);
            let here = s.character.curr_room;
            &&& name.len() >= 32
            &&& is_char_boundary(name, 32)
            &&& game.rooms().contains_key(here)
            &&& encode_utf8(game.rooms()[here].name@).len() <= 32
            &&& forall|i: int|
                0 <= i < game.rooms()[here].connections@.len() ==> {
                    &&& #[trigger] game.rooms().contains_key(game.rooms()[here].connections@[i])
                    &&& encode_utf8(game.rooms()[game.rooms()[here].connections@[i]].name@).len()
                        <= 32
                }
        }),
{
    let here = s.character.curr_room;
    let rooms = game.rooms();
    if rooms.contains_key(here) {
        let conns = rooms[here].connections@;
        if forall|i: int|
            0 <= i < conns.len() ==> {
                &&& #[trigger] rooms.contains_key(conns[i])
                &&& name_fits(rooms[conns[i]])
            } {
            assert forall|i: int| 0 <= i < conns.len() implies {
                &&& #[trigger] rooms.contains_key(conns[i])
                &&& encode_utf8(rooms[conns[i]].name@).len() <= 32
            } by {
                assert(rooms.contains_key(conns[i]));
            }
        }
        if forall|i: int|
            0 <= i < conns.len() ==> {
                &&& #[trigger] rooms.contains_key(conns[i])
                &&& encode_utf8(rooms[conns[i]].name@).len() <= 32
            } {
            assert forall|i: int| 0 <= i < conns.len() implies {
                &&& #[trigger] rooms.contains_key(conns[i])
                &&& name_fits(rooms[conns[i]])
            } by {
                assert(rooms.contains_key(conns[i]));
            }
        }
    }
}

/// Once a character is accepted under the name that its header asked for,
/// every later `Character` request that asks for that name is refused: the
/// name is then among the game's characters, which is what
/// [`ClientSession::character_header`] refuses.
pub proof fn lemma_rejoin_refused(
    before: GameState,
    after: GameState,
    accepted: Character,
    first: CharacterHeaderView,
    later: CharacterHeaderView,
)
    requires
        requested_name(first).len() > 0,
        accepted.name@ == accepted_name(requested_name(first)),
        after.characters() == before.characters().insert(accepted.name@, accepted),
        later.name == first.name,
    ensures
        after.characters().contains_key(requested_name(later)),
{
}

/// What the server announces about a character at the start of a game,
/// written out and read back as a `Character` message, gives the
/// character's first 32 name bytes, flags and numbers, followed by its
/// description.
pub proof fn lemma_announced_character_reads_back(c: Character)
    requires
        encode_utf8(c.name@).len() >= 32,
    ensures
        ({
            let b = wire(character_view(c))->0;
            let h = read_character_header(b.subrange(1, 48));
            &&& b[0] == MessageType::CHARACTER
            &&& h.name == encode_utf8(c.name@).subrange(0, 32)
            &&& h.flags == c.flags
            &&& h.attack == c.attack
            &&& h.defense == c.defense
            &&& h.regen == c.regen
            &&& h.health == c.health
            &&& h.gold == c.gold
            &&& h.curr_room == c.curr_room
            &&& h.desc_len == encode_utf8(c.desc@).len() as u16
            &&& b.subrange(48, b.len() as int) == encode_utf8(c.desc@)
        }),
{
    lemma_character_wire_roundtrip(character_view(c));
}

/// Every room numbered in `ids` exists and has a name of at most 32 bytes.
fn rooms_exist_and_fit(game: &GameState, ids: &Vec<u16>) -> (ok: bool)
    ensures
        ok == forall|i: int|
            0 <= i < ids@.len() ==> {
                &&& #[trigger] game.rooms().contains_key(ids@[i])
                &&& name_fits(game.rooms()[ids@[i]])
            },
{
    let n = ids.len();
    let mut i: usize = 0;
    while i < n
        invariant
            n == ids@.len(),
            i <= n,
            forall|j: int|
                0 <= j < i ==> {
                    &&& #[trigger] game.rooms().contains_key(ids@[j])
                    &&& name_fits(game.rooms()[ids@[j]])
                },
        decreases n - i,
    {
        let id = ids[i];
        match game.get_room(id) {
            Some(r) => {
                let r_name = r.name.as_str();
                if r_name.as_bytes().len() > 32 {
                    assert(!name_fits(game.rooms()[ids@[i as int]]));
                    return false;
                }
                assert(r_name@ == r.name@);
            },
            None => {
                assert(!game.rooms().contains_key(ids@[i as int]));
                return false;
            },
        }
        i = i + 1;
    }
    true
}

/// The `Room` message (when `kind` is `ROOM`) or `Connection` message (any
/// other `kind`) for the room numbered `number`.
fn room_message(kind: u8, number: u16, room: &Room) -> (m: Message)
    requires
        name_fits(*room),
    ensures
        kind == MessageType::ROOM ==> m@ == room_view(number, *room),
        kind != MessageType::ROOM ==> m@ == connection_view(number, *room),
{
    let desc = room.desc.as_str().as_bytes();
    let desc_len = desc.len();
    let room_name = padded_name(room.name.as_str().as_bytes());
    if kind == MessageType::ROOM {
        Message::Room {
            message_type: MessageType::ROOM,
            room_number: number,
            room_name,
            desc_len: desc_len as u16,
            room_desc: bytes_to_vec(desc),
        }
    } else {
        Message::Connection {
            message_type: MessageType::CONNECTION,
            room_number: number,
            room_name,
            desc_len: desc_len as u16,
            room_desc: bytes_to_vec(desc),
        }
    }
}

} // verus!
