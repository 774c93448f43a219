//! The LURK wire format: little-endian integers, the bytes that the server
//! writes for each message it sends, and the fixed-size body of a
//! `Character` message that it reads from a client.

use vstd::prelude::*;
use crate::protocol::{Message, MessageView};

verus! {

/// The two little-endian bytes of an unsigned 16-bit value.
pub open spec fn le_u16(x: u16) -> Seq<u8> {
    seq![(x % 256) as u8, (x / 256) as u8]
}

/// The unsigned 16-bit pattern of a signed value (two's complement).
pub open spec fn twos_complement(x: i16) -> u16 {
    if x < 0 {
        (x + 65536) as u16
    } else {
        x as u16
    }
}

/// The two little-endian bytes of a signed 16-bit value.
pub open spec fn le_i16(x: i16) -> Seq<u8> {
    le_u16(twos_complement(x))
}

/// The unsigned value whose little-endian bytes are `lo`, `hi`.
pub open spec fn u16_of_le(lo: u8, hi: u8) -> u16 {
    (lo + 256 * hi) as u16
}

/// The signed value whose little-endian two's-complement bytes are `lo`, `hi`.
pub open spec fn i16_of_le(lo: u8, hi: u8) -> i16 {
    let u = lo + 256 * hi;
    if u >= 32768 {
        (u - 65536) as i16
    } else {
        u as i16
    }
}

/// Little-endian bytes of an unsigned 16-bit value.
pub fn u16_to_le(x: u16) -> (b: [u8; 2])
    ensures
        b@ == le_u16(x),
{
    let b = [(x % 256) as u8, (x / 256) as u8];
    assert(b@ =~= le_u16(x));
    b
}

/// Little-endian two's-complement bytes of a signed 16-bit value.
pub fn i16_to_le(x: i16) -> (b: [u8; 2])
    ensures
        b@ == le_i16(x),
{
    let u: u16 = if x < 0 {
        (x as i32 + 65536) as u16
    } else {
        x as u16
    };
    u16_to_le(u)
}

/// The unsigned value of two little-endian bytes.
pub fn u16_from_le(lo: u8, hi: u8) -> (x: u16)
    ensures
        x == u16_of_le(lo, hi),
{
    lo as u16 + 256 * (hi as u16)
}

/// The signed value of two little-endian two's-complement bytes.
pub fn i16_from_le(lo: u8, hi: u8) -> (x: i16)
    ensures
        x == i16_of_le(lo, hi),
{
    let u: i32 = lo as i32 + 256 * (hi as i32);
    if u >= 32768 {
        (u - 65536) as i16
    } else {
        u as i16
    }
}

/// Reading back the bytes of an unsigned value gives the value.
pub proof fn lemma_u16_roundtrip(x: u16)
    ensures
        u16_of_le(le_u16(x)[0], le_u16(x)[1]) == x,
{
}

/// Reading back the bytes of a signed value gives the value.
pub proof fn lemma_i16_roundtrip(x: i16)
    ensures
        i16_of_le(le_i16(x)[0], le_i16(x)[1]) == x,
{
}

/// Writing out the value of two bytes gives back the bytes.
pub proof fn lemma_le_u16_of_bytes(lo: u8, hi: u8)
    ensures
        le_u16(u16_of_le(lo, hi)) == seq![lo, hi],
{
    assert(le_u16(u16_of_le(lo, hi)) =~= seq![lo, hi]);
}

/// Writing out the signed value of two bytes gives back the bytes.
pub proof fn lemma_le_i16_of_bytes(lo: u8, hi: u8)
    ensures
        le_i16(i16_of_le(lo, hi)) == seq![lo, hi],
{
    assert(le_i16(i16_of_le(lo, hi)) =~= seq![lo, hi]);
}

/// The bytes that the server writes for a message, or `None` for the kinds
/// of message it does not send.
///
/// A `Version` message goes out with an empty extension list whatever it
/// holds.
pub open spec fn wire(m: MessageView) -> Option<Seq<u8>> {
    match m {
        MessageView::Accept { message_type, accepted_type } => Some(
            seq![message_type, accepted_type],
        ),
        MessageView::Character {
            message_type,
            character_name,
            flags,
            attack,
            defense,
            regen,
            health,
            gold,
            curr_room,
            desc_len,
            desc,
        } => Some(
            seq![message_type] + character_name + seq![flags] + le_u16(attack) + le_u16(defense)
                + le_u16(regen) + le_i16(health) + le_u16(gold) + le_u16(curr_room) + le_u16(
                desc_len,
            ) + desc,
        ),
        MessageView::Connection { message_type, room_number, room_name, desc_len, room_desc } =>
            Some(
            seq![message_type] + le_u16(room_number) + room_name + le_u16(desc_len) + room_desc,
        ),
        MessageView::Error { message_type, error_code, message_len, message } => Some(
            seq![message_type, error_code] + le_u16(message_len) + message,
        ),
        MessageView::Game { message_type, initial_points, stat_limit, desc_len, game_desc } =>
            Some(
            seq![message_type] + le_u16(initial_points) + le_u16(stat_limit) + le_u16(desc_len)
                + game_desc,
        ),
        MessageView::Room { message_type, room_number, room_name, desc_len, room_desc } => Some(
            seq![message_type] + le_u16(room_number) + room_name + le_u16(desc_len) + room_desc,
        ),
        MessageView::Version { message_type, major_revision, minor_revision, .. } => Some(
            seq![message_type, major_revision, minor_revision, 0u8, 0u8],
        ),
        _ => None,
    }
}

/// Appends `bytes` to `out`.
fn push_bytes(out: &mut Vec<u8>, bytes: &[u8])
    ensures
        final(out)@ == old(out)@ + bytes@,
{
    let n = bytes.len();
    let mut i: usize = 0;
    while i < n
        invariant
            n == bytes@.len(),
            i <= n,
            out@ == old(out)@ + bytes@.subrange(0, i as int),
        decreases n - i,
    {
        out.push(bytes[i]);
        i = i + 1;
        assert(out@ =~= old(out)@ + bytes@.subrange(0, i as int));
    }
    assert(bytes@.subrange(0, n as int) =~= bytes@);
}

/// Appends the little-endian bytes of `x` to `out`.
fn push_u16(out: &mut Vec<u8>, x: u16)
    ensures
        final(out)@ == old(out)@ + le_u16(x),
{
    let b = u16_to_le(x);
    push_bytes(out, &b);
}

/// The bytes that the server writes for `m`, or `None` for the kinds of
/// message it does not send (`ChangeRoom`, `Fight`, `Leave`, `Loot`,
/// `Message`, `Start`, `PVPFight`).
pub fn encode_message(m: &Message) -> (r: Option<Vec<u8>>)
    ensures
        match r {
            Some(bytes) => wire(m@) == Some(bytes@),
            None => wire(m@) is None,
        },
{
    let mut out: Vec<u8> = Vec::new();
    match m {
        Message::Accept { message_type, accepted_type } => {
            out.push(*message_type);
            out.push(*accepted_type);
        },
        Message::Character {
            message_type,
            character_name,
            flags,
            attack,
            defense,
            regen,
            health,
            gold,
            curr_room,
            desc_len,
            desc,
        } => {
            out.push(*message_type);
            push_bytes(&mut out, character_name);
            out.push(*flags);
            push_u16(&mut out, *attack);
            push_u16(&mut out, *defense);
            push_u16(&mut out, *regen);
            let h = i16_to_le(*health);
            push_bytes(&mut out, &h);
            push_u16(&mut out, *gold);
            push_u16(&mut out, *curr_room);
            push_u16(&mut out, *desc_len);
            push_bytes(&mut out, desc.as_slice());
        },
        Message::Connection { message_type, room_number, room_name, desc_len, room_desc } => {
            out.push(*message_type);
            push_u16(&mut out, *room_number);
            push_bytes(&mut out, room_name);
            push_u16(&mut out, *desc_len);
            push_bytes(&mut out, room_desc.as_slice());
        },
        Message::Error { message_type, error_code, message_len, message } => {
            out.push(*message_type);
            out.push(*error_code);
            push_u16(&mut out, *message_len);
            push_bytes(&mut out, message.as_slice());
        },
        Message::Game { message_type, initial_points, stat_limit, desc_len, game_desc } => {
            out.push(*message_type);
            push_u16(&mut out, *initial_points);
            push_u16(&mut out, *stat_limit);
            push_u16(&mut out, *desc_len);
            push_bytes(&mut out, game_desc.as_slice());
        },
        Message::Room { message_type, room_number, room_name, desc_len, room_desc } => {
            out.push(*message_type);
            push_u16(&mut out, *room_number);
            push_bytes(&mut out, room_name);
            push_u16(&mut out, *desc_len);
            push_bytes(&mut out, room_desc.as_slice());
        },
        Message::Version { message_type, major_revision, minor_revision, .. } => {
            out.push(*message_type);
            out.push(*major_revision);
            out.push(*minor_revision);
            push_u16(&mut out, 0);
        },
        _ => {
            return None;
        },
    }
    assert(wire(m@) == Some(out@));
    Some(out)
}

/// The 47 bytes that follow the type byte of a `Character` message, read
/// into their fields.
pub struct CharacterHeader {
    /// Exactly 32 bytes, null-padded.
    pub name: [u8; 32],
    pub flags: u8,
    pub attack: u16,
    pub defense: u16,
    pub regen: u16,
    pub health: i16,
    pub gold: u16,
    pub curr_room: u16,
    /// The number of description bytes that follow the header.
    pub desc_len: u16,
}

/// What a [`CharacterHeader`] holds, with the name as a sequence of bytes.
pub struct CharacterHeaderView {
    pub name: Seq<u8>,
    pub flags: u8,
    pub attack: u16,
    pub defense: u16,
    pub regen: u16,
    pub health: i16,
    pub gold: u16,
    pub curr_room: u16,
    pub desc_len: u16,
}

impl View for CharacterHeader {
    type V = CharacterHeaderView;

    open spec fn view(&self) -> CharacterHeaderView {
        CharacterHeaderView {
            name: self.name@,
            flags: self.flags,
            attack: self.attack,
            defense: self.defense,
            regen: self.regen,
            health: self.health,
            gold: self.gold,
            curr_room: self.curr_room,
            desc_len: self.desc_len,
        }
    }
}

/// The number of bytes in a `Character` message between its type byte and
/// its description.
pub const CHARACTER_HEADER_LEN: usize = 47;

/// The fields that the 47 header bytes `b` of a `Character` message hold:
/// the name in bytes 0 to 31, the flags in byte 32, then seven 16-bit
/// little-endian values (health signed).
pub open spec fn read_character_header(b: Seq<u8>) -> CharacterHeaderView {
    CharacterHeaderView {
        name: b.subrange(0, 32),
        flags: b[32],
        attack: u16_of_le(b[33], b[34]),
        defense: u16_of_le(b[35], b[36]),
        regen: u16_of_le(b[37], b[38]),
        health: i16_of_le(b[39], b[40]),
        gold: u16_of_le(b[41], b[42]),
        curr_room: u16_of_le(b[43], b[44]),
        desc_len: u16_of_le(b[45], b[46]),
    }
}

/// Reads the header of a `Character` message, the 47 bytes after its type
/// byte.
pub fn parse_character_header(data: &[u8; 47]) -> (h: CharacterHeader)
    ensures
        h@ == read_character_header(data@),
{
    let mut name = [0u8; 32];
    let mut i: usize = 0;
    while i < 32
        invariant
            i <= 32,
            data@.len() == 47,
            forall|j: int| 0 <= j < i ==> name@[j] == data@[j],
        decreases 32 - i,
    {
        name[i] = data[i];
        i = i + 1;
    }
    assert(name@ =~= data@.subrange(0, 32));
    CharacterHeader {
        name,
        flags: data[32],
        attack: u16_from_le(data[33], data[34]),
        defense: u16_from_le(data[35], data[36]),
        regen: u16_from_le(data[37], data[38]),
        health: i16_from_le(data[39], data[40]),
        gold: u16_from_le(data[41], data[42]),
        curr_room: u16_from_le(data[43], data[44]),
        desc_len: u16_from_le(data[45], data[46]),
    }
}

/// Reading back a `Character` message that the server wrote gives back the
/// message: its type byte comes first, the 47 bytes after it read as the
/// message's name, flags and numbers, and the description follows them.
pub proof fn lemma_character_wire_roundtrip(m: MessageView)
    requires
        m is Character,
        m->Character_character_name.len() == 32,
    ensures
        wire(m) is Some,
        ({
            let b = wire(m)->0;
            &&& b.len() == 1 + CHARACTER_HEADER_LEN + m->Character_desc.len()
            &&& b[0] == m->Character_message_type
            &&& read_character_header(b.subrange(1, 1 + CHARACTER_HEADER_LEN as int))
                == CharacterHeaderView {
                name: m->Character_character_name,
                flags: m->Character_flags,
                attack: m->Character_attack,
                defense: m->Character_defense,
                regen: m->Character_regen,
                health: m->Character_health,
                gold: m->Character_gold,
                curr_room: m->Character_curr_room,
                desc_len: m->Character_desc_len,
            }
            &&& b.subrange(1 + CHARACTER_HEADER_LEN as int, b.len() as int)
                == m->Character_desc
        }),
{
    let b = wire(m)->0;
    let h = b.subrange(1, 48);
    lemma_u16_roundtrip(m->Character_attack);
    lemma_u16_roundtrip(m->Character_defense);
    lemma_u16_roundtrip(m->Character_regen);
    lemma_i16_roundtrip(m->Character_health);
    lemma_u16_roundtrip(m->Character_gold);
    lemma_u16_roundtrip(m->Character_curr_room);
    lemma_u16_roundtrip(m->Character_desc_len);
    assert(h.subrange(0, 32) =~= m->Character_character_name);
    assert(b.subrange(48, b.len() as int) =~= m->Character_desc);
}

/// Any 47 header bytes, read into fields and written out again as the
/// header of a `Character` message, come back unchanged: the header has one
/// reading for each byte string and the encoding loses nothing.
pub proof fn lemma_character_header_bytes_roundtrip(b: Seq<u8>, message_type: u8, desc: Seq<u8>)
    requires
        b.len() == CHARACTER_HEADER_LEN,
    ensures
        ({
            let h = read_character_header(b);
            let m = MessageView::Character {
                message_type,
                character_name: h.name,
                flags: h.flags,
                attack: h.attack,
                defense: h.defense,
                regen: h.regen,
                health: h.health,
                gold: h.gold,
                curr_room: h.curr_room,
                desc_len: h.desc_len,
                desc,
            };
            wire(m)->0 == seq![message_type] + b + desc
        }),
{
    lemma_le_u16_of_bytes(b[33], b[34]);
    lemma_le_u16_of_bytes(b[35], b[36]);
    lemma_le_u16_of_bytes(b[37], b[38]);
    lemma_le_i16_of_bytes(b[39], b[40]);
    lemma_le_u16_of_bytes(b[41], b[42]);
    lemma_le_u16_of_bytes(b[43], b[44]);
    lemma_le_u16_of_bytes(b[45], b[46]);
    let h = read_character_header(b);
    let m = MessageView::Character {
        message_type,
        character_name: h.name,
        flags: h.flags,
        attack: h.attack,
        defense: h.defense,
        regen: h.regen,
        health: h.health,
        gold: h.gold,
        curr_room: h.curr_room,
        desc_len: h.desc_len,
        desc,
    };
    assert(wire(m)->0 =~= seq![message_type] + b + desc);
}

/// Each field of a `Character` header is read from its own bytes as a plain
/// little-endian number: the low byte first, then the high byte worth 256
/// times as much; health, the one signed field, counts values from 32768 up
/// as negative.
pub proof fn lemma_character_header_fields(b: Seq<u8>)
    requires
        b.len() == CHARACTER_HEADER_LEN,
    ensures
        ({
            let h = read_character_header(b);
            &&& h.name == b.subrange(0, 32)
            &&& h.flags == b[32]
            &&& h.attack as int == b[33] + 256 * b[34]
            &&& h.defense as int == b[35] + 256 * b[36]
            &&& h.regen as int == b[37] + 256 * b[38]
            &&& h.health as int == (if b[40] >= 128 {
                b[39] + 256 * b[40] - 65536
            } else {
                b[39] + 256 * b[40]
            })
            &&& h.gold as int == b[41] + 256 * b[42]
            &&& h.curr_room as int == b[43] + 256 * b[44]
            &&& h.desc_len as int == b[45] + 256 * b[46]
        }),
{
}

/// The bytes of an encoded `Character` message, position by position: the
/// type, the 32 name bytes, the flags, then each 16-bit field low byte
/// first (health in two's complement), then the description.
pub proof fn lemma_character_wire_layout(m: MessageView)
    requires
        m is Character,
        m->Character_character_name.len() == 32,
    ensures
        wire(m) is Some,
        ({
            let b = wire(m)->0;
            let health = m->Character_health as int;
            let h = if health < 0 {
                health + 65536
            } else {
                health
            };
            &&& b.len() == 48 + m->Character_desc.len()
            &&& b[0] == m->Character_message_type
            &&& b.subrange(1, 33) == m->Character_character_name
            &&& b[33] == m->Character_flags
            &&& b[34] == m->Character_attack % 256 && b[35] == m->Character_attack / 256
            &&& b[36] == m->Character_defense % 256 && b[37] == m->Character_defense / 256
            &&& b[38] == m->Character_regen % 256 && b[39] == m->Character_regen / 256
            &&& b[40] == h % 256 && b[41] == h / 256
            &&& b[42] == m->Character_gold % 256 && b[43] == m->Character_gold / 256
            &&& b[44] == m->Character_curr_room % 256 && b[45] == m->Character_curr_room / 256
            &&& b[46] == m->Character_desc_len % 256 && b[47] == m->Character_desc_len / 256
            &&& b.subrange(48, b.len() as int) == m->Character_desc
        }),
{
    let b = wire(m)->0;
    assert(b.subrange(1, 33) =~= m->Character_character_name);
    assert(b.subrange(48, b.len() as int) =~= m->Character_desc);
}

/// An encoded `Accept` message is its type byte followed by the type of the
/// message it accepts.
pub proof fn lemma_accept_wire(message_type: u8, accepted_type: u8)
    ensures
        wire(MessageView::Accept { message_type, accepted_type }) == Some(
            seq![message_type, accepted_type],
        ),
{
}

/// An encoded `Error` message is its type byte, the error code, the message
/// length low byte first, then the message.
pub proof fn lemma_error_wire(message_type: u8, error_code: u8, message_len: u16, message: Seq<u8>)
    ensures
        ({
            let b = wire(MessageView::Error { message_type, error_code, message_len, message })->0;
            &&& b.len() == 4 + message.len()
            &&& b[0] == message_type
            &&& b[1] == error_code
            &&& b[2] == message_len % 256 && b[3] == message_len / 256
            &&& b.subrange(4, b.len() as int) == message
        }),
{
    let b = wire(MessageView::Error { message_type, error_code, message_len, message })->0;
    assert(b.subrange(4, b.len() as int) =~= message);
}

/// An encoded `Room` or `Connection` message is its type byte, the room
/// number low byte first, the 32 name bytes, the description length low
/// byte first, then the description.
pub proof fn lemma_room_wire(m: MessageView)
    requires
        m is Room || m is Connection,
        m is Room ==> m->Room_room_name.len() == 32,
        m is Connection ==> m->Connection_room_name.len() == 32,
    ensures
        ({
            let b = wire(m)->0;
            let (t, number, name, len, desc) = match m {
                MessageView::Room { message_type, room_number, room_name, desc_len, room_desc } => (
                    message_type,
                    room_number,
                    room_name,
                    desc_len,
                    room_desc,
                ),
                MessageView::Connection {
                    message_type,
                    room_number,
                    room_name,
                    desc_len,
                    room_desc,
                } => (message_type, room_number, room_name, desc_len, room_desc),
                _ => (0u8, 0u16, Seq::empty(), 0u16, Seq::empty()),
            };
            &&& b.len() == 37 + desc.len()
            &&& b[0] == t
            &&& b[1] == number % 256 && b[2] == number / 256
            &&& b.subrange(3, 35) == name
            &&& b[35] == len % 256 && b[36] == len / 256
            &&& b.subrange(37, b.len() as int) == desc
        }),
{
    let b = wire(m)->0;
    assert(b.subrange(3, 35) =~= (match m {
        MessageView::Room { room_name, .. } => room_name,
        MessageView::Connection { room_name, .. } => room_name,
        _ => Seq::empty(),
    }));
    assert(b.subrange(37, b.len() as int) =~= (match m {
        MessageView::Room { room_desc, .. } => room_desc,
        MessageView::Connection { room_desc, .. } => room_desc,
        _ => Seq::empty(),
    }));
}

/// An encoded `Game` message is its type byte, the initial points, the stat
/// limit and the description length, each low byte first, then the
/// description.
pub proof fn lemma_game_wire(
    message_type: u8,
    initial_points: u16,
    stat_limit: u16,
    desc_len: u16,
    game_desc: Seq<u8>,
)
    ensures
        ({
            let b = wire(
                MessageView::Game { message_type, initial_points, stat_limit, desc_len, game_desc },
            )->0;
            &&& b.len() == 7 + game_desc.len()
            &&& b[0] == message_type
            &&& b[1] == initial_points % 256 && b[2] == initial_points / 256
            &&& b[3] == stat_limit % 256 && b[4] == stat_limit / 256
            &&& b[5] == desc_len % 256 && b[6] == desc_len / 256
            &&& b.subrange(7, b.len() as int) == game_desc
        }),
{
    let b = wire(
        MessageView::Game { message_type, initial_points, stat_limit, desc_len, game_desc },
    )->0;
    assert(b.subrange(7, b.len() as int) =~= game_desc);
}

/// An encoded `Version` message is its type byte, the major and minor
/// revisions, and a zero extension length, whatever extensions it holds.
pub proof fn lemma_version_wire(
    message_type: u8,
    major_revision: u8,
    minor_revision: u8,
    ext_len: u16,
    ext_list: Seq<u8>,
)
    ensures
        wire(
            MessageView::Version { message_type, major_revision, minor_revision, ext_len, ext_list },
        ) == Some(seq![message_type, major_revision, minor_revision, 0u8, 0u8]),
{
}

} // verus!
