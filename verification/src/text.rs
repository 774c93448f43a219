//! Text that arrives as raw bytes.

use vstd::prelude::*;
use vstd::utf8::{decode_utf8, valid_utf8};

verus! {

/// The text that `String::from_utf8_lossy` makes of `bytes`: the bytes read
/// as UTF-8, with each invalid sequence replaced by U+FFFD.
pub uninterp spec fn utf8_lossy(bytes: Seq<u8>) -> Seq<char>;

/// Reads `bytes` as UTF-8 text, replacing invalid sequences.
///
/// Trusted: calls `String::from_utf8_lossy` and takes the owned text. Its
/// contract names the result `utf8_lossy(bytes)`, and states what the
/// standard library documents: bytes that are valid UTF-8 come back as the
/// text they encode. How invalid sequences are replaced is not stated.
#[verifier::external_body]
pub(crate) fn string_from_utf8_lossy(bytes: &[u8]) -> (s: String)
    ensures
        s@ == utf8_lossy(bytes@),
        valid_utf8(bytes@) ==> s@ == decode_utf8(bytes@),
{
    String::from_utf8_lossy(bytes).into_owned()
}

/// A copy of `bytes` in a vector of its own.
pub(crate) fn bytes_to_vec(bytes: &[u8]) -> (v: Vec<u8>)
    ensures
        v@ == bytes@,
{
    let mut v: Vec<u8> = Vec::new();
    let n = bytes.len();
    let mut i: usize = 0;
    while i < n
        invariant
            n == bytes@.len(),
            i <= n,
            v@ == bytes@.subrange(0, i as int),
        decreases n - i,
    {
        v.push(bytes[i]);
        i = i + 1;
        assert(v@ =~= bytes@.subrange(0, i as int));
    }
    assert(bytes@.subrange(0, n as int) =~= bytes@);
    v
}

/// `bytes` followed by zeros up to 32 bytes.
pub open spec fn pad32(bytes: Seq<u8>) -> Seq<u8> {
    bytes + Seq::new((32 - bytes.len()) as nat, |i: int| 0u8)
}

/// `bytes`, which must not be longer than 32, null-padded to 32 bytes: the
/// way the server fills a 32-byte name field.
pub(crate) fn padded_name(bytes: &[u8]) -> (name: [u8; 32])
    requires
        bytes@.len() <= 32,
    ensures
        name@ == pad32(bytes@),
{
    let mut name = [0u8; 32];
    let n = bytes.len();
    let mut i: usize = 0;
    while i < n
        invariant
            n == bytes@.len(),
            n <= 32,
            i <= n,
            forall|j: int| 0 <= j < i ==> name@[j] == bytes@[j],
            forall|j: int| n <= j < 32 ==> name@[j] == 0u8,
        decreases n - i,
    {
        name[i] = bytes[i];
        i = i + 1;
    }
    assert(name@ =~= pad32(bytes@));
    name
}

/// The first 32 bytes of `bytes`, which must hold at least 32.
pub(crate) fn first32(bytes: &[u8]) -> (name: [u8; 32])
    requires
        bytes@.len() >= 32,
    ensures
        name@ == bytes@.subrange(0, 32),
{
    let mut name = [0u8; 32];
    let mut i: usize = 0;
    while i < 32
        invariant
            bytes@.len() >= 32,
            i <= 32,
            forall|j: int| 0 <= j < i ==> name@[j] == bytes@[j],
        decreases 32 - i,
    {
        name[i] = bytes[i];
        i = i + 1;
    }
    assert(name@ =~= bytes@.subrange(0, 32));
    name
}

} // verus!
