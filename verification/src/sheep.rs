//! The framing of the sheep-price service: one type byte, then, for the
//! requests that carry one, an 8-byte little-endian floating-point value.
//! The arithmetic on the values is left to the program that runs the
//! service.

use vstd::prelude::*;

verus! {

/// The type bytes of the sheep-price service.
pub struct SheepMessageType;

impl SheepMessageType {
    pub const C_SET_VALUE: u8 = 1;
    pub const C_CONV_S_TO_D: u8 = 2;
    pub const C_CONV_D_TO_S: u8 = 3;
    pub const S_SET_OK: u8 = 4;
    pub const S_CONV_RES: u8 = 5;
}

/// What a client asks of the sheep-price service.
#[derive(PartialEq, Eq, Debug, Clone, Copy)]
pub enum SheepRequest {
    /// Set the price of a sheep to the value that follows.
    SetValue,
    /// The cost of the number of sheep that follows.
    SheepToDollars,
    /// The number of sheep that the amount of money that follows buys.
    DollarsToSheep,
    /// A byte that names no request; nothing more is read.
    Unknown,
}

/// The request that the type byte `t` starts.
pub fn classify_sheep_request(t: u8) -> (r: SheepRequest)
    ensures
        r == (if t == 1 {
            SheepRequest::SetValue
        } else if t == 2 {
            SheepRequest::SheepToDollars
        } else if t == 3 {
            SheepRequest::DollarsToSheep
        } else {
            SheepRequest::Unknown
        }),
{
    if t == SheepMessageType::C_SET_VALUE {
        SheepRequest::SetValue
    } else if t == SheepMessageType::C_CONV_S_TO_D {
        SheepRequest::SheepToDollars
    } else if t == SheepMessageType::C_CONV_D_TO_S {
        SheepRequest::DollarsToSheep
    } else {
        SheepRequest::Unknown
    }
}

/// The answer to a `C_SET_VALUE` request: the single byte `S_SET_OK`.
pub fn set_ok_reply() -> (r: [u8; 1])
    ensures
        r@ == seq![SheepMessageType::S_SET_OK],
{
    let r = [SheepMessageType::S_SET_OK];
    assert(r@ =~= seq![SheepMessageType::S_SET_OK]);
    r
}

/// The answer to a conversion request: `S_CONV_RES` followed by the eight
/// bytes of the result.
pub fn conversion_reply(value: [u8; 8]) -> (r: [u8; 9])
    ensures
        r@ == seq![SheepMessageType::S_CONV_RES] + value@,
{
    let mut out = [0u8; 9];
    out[0] = SheepMessageType::S_CONV_RES;
    let mut i: usize = 0;
    while i < 8
        invariant
            i <= 8,
            out@[0] == SheepMessageType::S_CONV_RES,
            forall|j: int| 0 <= j < i ==> out@[1 + j] == value@[j],
        decreases 8 - i,
    {
        out[i + 1] = value[i];
        i = i + 1;
    }
    assert(out@ =~= seq![SheepMessageType::S_CONV_RES] + value@);
    out
}

} // verus!
