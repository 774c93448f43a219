//! The canned answer of the minimal LURK server, which writes the same bytes
//! to every client that connects.

use vstd::prelude::*;
use vstd::utf8::encode_utf8;
use crate::text::bytes_to_vec;

verus! {

/// The text that follows the canned error header.
pub const SAD_TEXT: &'static str = "A SAD HAS HAPPEN";

/// The bytes that the minimal server writes to each client: a version
/// message (2.3, no extensions, two more zero bytes), an error header (code
/// 4, length 1), and the text [`SAD_TEXT`].
pub fn canned_reply() -> (r: Vec<u8>)
    ensures
        r@ == seq![14u8, 2, 3, 0, 0, 0, 0] + seq![7u8, 4, 1, 0] + encode_utf8(SAD_TEXT@),
{
    let version: [u8; 7] = [14, 2, 3, 0, 0, 0, 0];
    let error: [u8; 4] = [7, 4, 1, 0];
    let mut r = bytes_to_vec(&version);
    let mut e = bytes_to_vec(&error);
    let mut t = bytes_to_vec(SAD_TEXT.as_bytes());
    r.append(&mut e);
    r.append(&mut t);
    assert(version@ =~= seq![14u8, 2, 3, 0, 0, 0, 0]);
    assert(error@ =~= seq![7u8, 4, 1, 0]);
    r
}

} // verus!
