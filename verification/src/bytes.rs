//! Integers as bytes in this machine's order.
use vstd::prelude::*;

verus! {

/// `u16::from_ne_bytes`: the bytes read in this machine's order, which is either low
/// byte first or high byte first. Which of the two is not stated: it is a property of
/// the machine.
#[verifier::external_body]
fn u16_from_ne_bytes(bytes: [u8; 2]) -> (r: u16)
    ensures
        r == bytes[0] + 0x100 * bytes[1] || r == bytes[1] + 0x100 * bytes[0],
{
    u16::from_ne_bytes(bytes)
}

/// Whether this machine stores the low byte first.
pub fn native_little_endian() -> (r: bool) {
    u16_from_ne_bytes([1, 0]) == 1
}

/// The four bytes of `x`, lowest first.
pub open spec fn le_bytes(x: u32) -> Seq<u8> {
    seq![
        (x % 0x100) as u8,
        ((x / 0x100) % 0x100) as u8,
        ((x / 0x10000) % 0x100) as u8,
        ((x / 0x1000000) % 0x100) as u8,
    ]
}

/// The four bytes of `x`, highest first.
pub open spec fn be_bytes(x: u32) -> Seq<u8> {
    seq![
        ((x / 0x1000000) % 0x100) as u8,
        ((x / 0x10000) % 0x100) as u8,
        ((x / 0x100) % 0x100) as u8,
        (x % 0x100) as u8,
    ]
}

/// The four bytes of `x`, lowest first when `little`.
pub fn bytes_in_order(x: u32, little: bool) -> (r: [u8; 4])
    ensures
        r@ == if little {
            le_bytes(x)
        } else {
            be_bytes(x)
        },
{
    let b0 = (x % 0x100) as u8;
    let b1 = ((x / 0x100) % 0x100) as u8;
    let b2 = ((x / 0x10000) % 0x100) as u8;
    let b3 = ((x / 0x1000000) % 0x100) as u8;
    let r = if little {
        [b0, b1, b2, b3]
    } else {
        [b3, b2, b1, b0]
    };
    assert(r@ =~= if little {
        le_bytes(x)
    } else {
        be_bytes(x)
    });
    r
}

/// The bytes of `x` in this machine's order (`u32::to_ne_bytes`).
pub fn ne_bytes(x: u32) -> (r: Vec<u8>)
    ensures
        r@ == le_bytes(x) || r@ == be_bytes(x),
{
    let b = bytes_in_order(x, native_little_endian());
    let r = vec![b[0], b[1], b[2], b[3]];
    assert(r@ =~= b@);
    r
}

} // verus!
