//! Message type codes, error codes, character flags and the message values
//! that travel between a LURK server and its clients.

use vstd::prelude::*;

verus! {

/// The one-byte type code that starts every LURK message.
pub struct MessageType;

impl MessageType {
    pub const ACCEPT: u8 = 8;
    pub const CHANGEROOM: u8 = 2;
    pub const CHARACTER: u8 = 10;
    pub const CONNECTION: u8 = 13;
    pub const ERROR: u8 = 7;
    pub const FIGHT: u8 = 3;
    pub const GAME: u8 = 11;
    pub const LEAVE: u8 = 12;
    pub const LOOT: u8 = 5;
    pub const MESSAGE: u8 = 1;
    pub const ROOM: u8 = 9;
    pub const START: u8 = 6;
    pub const PVPFIGHT: u8 = 4;
    pub const VERSION: u8 = 14;
}

/// The error codes that an `Error` message carries.
pub struct ErrorType;

impl ErrorType {
    pub const OTHER: u8 = 0;
    pub const BAD_ROOM: u8 = 1;
    pub const PLAYER_EXISTS: u8 = 2;
    pub const BAD_MONSTER: u8 = 3;
    pub const STAT_ERROR: u8 = 4;
    pub const NOT_READY: u8 = 5;
    pub const NO_TARGET: u8 = 6;
    pub const NO_FIGHT: u8 = 7;
    pub const PVP_DISABLED: u8 = 8;
}

/// The bits of a character's flags byte.
pub struct CharacterFlags;

impl CharacterFlags {
    pub const IS_ALIVE: u8 = 0b10000000;
    pub const JOIN_BATTLE: u8 = 0b01000000;
    pub const IS_MONSTER: u8 = 0b00100000;
    pub const IS_STARTED: u8 = 0b00010000;
    pub const IS_READY: u8 = 0b00001000;
    pub const ALL_FLAGS_SET: u8 = 0b11111111;
    pub const NO_FLAGS_SET: u8 = 0b00000000;
}

/// One LURK message, field by field as it stands on the wire.
///
/// The connection a message came from or goes to is not part of the value:
/// the server keeps it beside the message.
#[allow(inconsistent_fields)]
pub enum Message {
    Accept { message_type: u8, accepted_type: u8 },
    ChangeRoom { message_type: u8, target_room: u16 },
    Character {
        message_type: u8,
        /// Exactly 32 bytes, null-padded.
        character_name: [u8; 32],
        flags: u8,
        attack: u16,
        defense: u16,
        regen: u16,
        health: i16,
        gold: u16,
        curr_room: u16,
        desc_len: u16,
        desc: Vec<u8>,
    },
    Connection {
        message_type: u8,
        room_number: u16,
        room_name: [u8; 32],
        desc_len: u16,
        room_desc: Vec<u8>,
    },
    Error { message_type: u8, error_code: u8, message_len: u16, message: Vec<u8> },
    Fight { message_type: u8 },
    Game {
        message_type: u8,
        initial_points: u16,
        stat_limit: u16,
        desc_len: u16,
        game_desc: Vec<u8>,
    },
    Leave { message_type: u8 },
    Loot { message_type: u8, target_name: Vec<u8> },
    Message {
        message_type: u8,
        message_len: u16,
        recipient_name: [u8; 32],
        sender_name: [u8; 30],
        end_marker: u16,
        message: Vec<u8>,
    },
    Room {
        message_type: u8,
        room_number: u16,
        room_name: [u8; 32],
        desc_len: u16,
        room_desc: Vec<u8>,
    },
    Start { message_type: u8 },
    PVPFight { message_type: u8, target_name: [u8; 32] },
    Version {
        message_type: u8,
        major_revision: u8,
        minor_revision: u8,
        ext_len: u16,
        ext_list: Vec<u8>,
    },
}

/// What a [`Message`] holds, with every byte buffer and name taken as a
/// sequence of bytes.
#[allow(inconsistent_fields)]
pub enum MessageView {
    Accept { message_type: u8, accepted_type: u8 },
    ChangeRoom { message_type: u8, target_room: u16 },
    Character {
        message_type: u8,
        character_name: Seq<u8>,
        flags: u8,
        attack: u16,
        defense: u16,
        regen: u16,
        health: i16,
        gold: u16,
        curr_room: u16,
        desc_len: u16,
        desc: Seq<u8>,
    },
    Connection {
        message_type: u8,
        room_number: u16,
        room_name: Seq<u8>,
        desc_len: u16,
        room_desc: Seq<u8>,
    },
    Error { message_type: u8, error_code: u8, message_len: u16, message: Seq<u8> },
    Fight { message_type: u8 },
    Game {
        message_type: u8,
        initial_points: u16,
        stat_limit: u16,
        desc_len: u16,
        game_desc: Seq<u8>,
    },
    Leave { message_type: u8 },
    Loot { message_type: u8, target_name: Seq<u8> },
    Message {
        message_type: u8,
        message_len: u16,
        recipient_name: Seq<u8>,
        sender_name: Seq<u8>,
        end_marker: u16,
        message: Seq<u8>,
    },
    Room {
        message_type: u8,
        room_number: u16,
        room_name: Seq<u8>,
        desc_len: u16,
        room_desc: Seq<u8>,
    },
    Start { message_type: u8 },
    PVPFight { message_type: u8, target_name: Seq<u8> },
    Version {
        message_type: u8,
        major_revision: u8,
        minor_revision: u8,
        ext_len: u16,
        ext_list: Seq<u8>,
    },
}

impl View for Message {
    type V = MessageView;

    open spec fn view(&self) -> MessageView {
        match self {
            Message::Accept { message_type, accepted_type } => MessageView::Accept {
                message_type: *message_type,
                accepted_type: *accepted_type,
            },
            Message::ChangeRoom { message_type, target_room } => MessageView::ChangeRoom {
                message_type: *message_type,
                target_room: *target_room,
            },
            Message::Character {
                message_type,
                character_name,
                flags,
                attack,
                defense,
                regen,
                health,
                gold,
                curr_room,
                desc_len,
                desc,
            } => MessageView::Character {
                message_type: *message_type,
                character_name: character_name@,
                flags: *flags,
                attack: *attack,
                defense: *defense,
                regen: *regen,
                health: *health,
                gold: *gold,
                curr_room: *curr_room,
                desc_len: *desc_len,
                desc: desc@,
            },
            Message::Connection { message_type, room_number, room_name, desc_len, room_desc } =>
                MessageView::Connection {
                message_type: *message_type,
                room_number: *room_number,
                room_name: room_name@,
                desc_len: *desc_len,
                room_desc: room_desc@,
            },
            Message::Error { message_type, error_code, message_len, message } =>
                MessageView::Error {
                message_type: *message_type,
                error_code: *error_code,
                message_len: *message_len,
                message: message@,
            },
            Message::Fight { message_type } => MessageView::Fight { message_type: *message_type },
            Message::Game { message_type, initial_points, stat_limit, desc_len, game_desc } =>
                MessageView::Game {
                message_type: *message_type,
                initial_points: *initial_points,
                stat_limit: *stat_limit,
                desc_len: *desc_len,
                game_desc: game_desc@,
            },
            Message::Leave { message_type } => MessageView::Leave { message_type: *message_type },
            Message::Loot { message_type, target_name } => MessageView::Loot {
                message_type: *message_type,
                target_name: target_name@,
            },
            Message::Message {
                message_type,
                message_len,
                recipient_name,
                sender_name,
                end_marker,
                message,
            } => MessageView::Message {
                message_type: *message_type,
                message_len: *message_len,
                recipient_name: recipient_name@,
                sender_name: sender_name@,
                end_marker: *end_marker,
                message: message@,
            },
            Message::Room { message_type, room_number, room_name, desc_len, room_desc } =>
                MessageView::Room {
                message_type: *message_type,
                room_number: *room_number,
                room_name: room_name@,
                desc_len: *desc_len,
                room_desc: room_desc@,
            },
            Message::Start { message_type } => MessageView::Start { message_type: *message_type },
            Message::PVPFight { message_type, target_name } => MessageView::PVPFight {
                message_type: *message_type,
                target_name: target_name@,
            },
            Message::Version { message_type, major_revision, minor_revision, ext_len, ext_list } =>
                MessageView::Version {
                message_type: *message_type,
                major_revision: *major_revision,
                minor_revision: *minor_revision,
                ext_len: *ext_len,
                ext_list: ext_list@,
            },
        }
    }
}

} // verus!
