//! Fixed-width integers as bytes on the wire.

use vstd::prelude::*;

verus! {

/// Order in which the bytes of an integer go on the wire.
#[derive(Debug, Clone, Copy, PartialEq, Eq, Structural)]
pub enum ByteOrder {
    LittleEndian,
    BigEndian,
}

/// The four bytes of `x`, least significant first.
pub open spec fn le_bytes(x: u32) -> Seq<u8> {
    seq![
        (x % 256) as u8,
        ((x / 256) % 256) as u8,
        ((x / 65536) % 256) as u8,
        ((x / 16777216) % 256) as u8,
    ]
}

/// The four bytes of `x` in the given order.
pub open spec fn u32_bytes(x: u32, order: ByteOrder) -> Seq<u8> {
    match order {
        ByteOrder::LittleEndian => le_bytes(x),
        ByteOrder::BigEndian => le_bytes(x).reverse(),
    }
}

/// The number whose bytes, least significant first, are `b`.
pub open spec fn le_value(b: Seq<u8>) -> int {
    b[0] + 256 * b[1] + 65536 * b[2] + 16777216 * b[3]
}

/// The number that four bytes in the given order stand for.
pub open spec fn u32_value(b: Seq<u8>, order: ByteOrder) -> u32 {
    match order {
        ByteOrder::LittleEndian => le_value(b) as u32,
        ByteOrder::BigEndian => le_value(b.reverse()) as u32,
    }
}

/// The byte that carries a signed 8-bit number in two's complement.
pub open spec fn i8_byte(x: i8) -> u8 {
    if x >= 0 {
        x as u8
    } else {
        (x + 256) as u8
    }
}

/// The signed number that a byte carries in two's complement.
pub open spec fn byte_i8(b: u8) -> i8 {
    if b < 128 {
        b as i8
    } else {
        (b - 256) as i8
    }
}

/// The unsigned number with the bit pattern of `x` in two's complement.
pub open spec fn i32_bits(x: i32) -> u32 {
    if x >= 0 {
        x as u32
    } else {
        (x + 0x1_0000_0000) as u32
    }
}

/// The signed number with the bit pattern of `u` in two's complement.
pub open spec fn bits_i32(u: u32) -> i32 {
    if u < 0x8000_0000 {
        u as i32
    } else {
        (u - 0x1_0000_0000) as i32
    }
}

/// Reading back the bytes of a number gives the number.
pub proof fn lemma_u32_round_trip(x: u32, order: ByteOrder)
    ensures
        u32_bytes(x, order).len() == 4,
        u32_value(u32_bytes(x, order), order) == x,
{
    let b = le_bytes(x);
    assert(le_value(b) == x);
}

/// The base-256 digits of a number below 2^32 are unique.
proof fn lemma_base_256(b0: int, b1: int, b2: int, b3: int)
    requires
        0 <= b0 < 256,
        0 <= b1 < 256,
        0 <= b2 < 256,
        0 <= b3 < 256,
    ensures
        ({
            let v = b0 + 256 * b1 + 65536 * b2 + 16777216 * b3;
            &&& 0 <= v < 0x1_0000_0000
            &&& v % 256 == b0
            &&& (v / 256) % 256 == b1
            &&& (v / 65536) % 256 == b2
            &&& (v / 16777216) % 256 == b3
        }),
{
}

/// Writing the number that four bytes stand for gives the bytes.
pub proof fn lemma_bytes_round_trip(b: Seq<u8>, order: ByteOrder)
    requires
        b.len() == 4,
    ensures
        u32_bytes(u32_value(b, order), order) == b,
{
    let digits = match order {
        ByteOrder::LittleEndian => b,
        ByteOrder::BigEndian => b.reverse(),
    };
    lemma_base_256(digits[0] as int, digits[1] as int, digits[2] as int, digits[3] as int);
}

/// Signed and unsigned readings of one bit pattern go back and forth.
pub proof fn lemma_signed_round_trip(x: i8, y: i32)
    ensures
        byte_i8(i8_byte(x)) == x,
        bits_i32(i32_bits(y)) == y,
{
}

/// Different numbers have different bytes.
pub proof fn lemma_u32_bytes_injective(x: u32, y: u32, order: ByteOrder)
    requires
        u32_bytes(x, order) == u32_bytes(y, order),
    ensures
        x == y,
{
    lemma_u32_round_trip(x, order);
    lemma_u32_round_trip(y, order);
}

/// Different signed numbers have different bit patterns.
pub proof fn lemma_signed_injective(a: i8, b: i8, x: i32, y: i32)
    ensures
        i8_byte(a) == i8_byte(b) ==> a == b,
        i32_bits(x) == i32_bits(y) ==> x == y,
{
}

/// Appends the four bytes of `x` in the given order.
pub fn put_u32(buf: &mut Vec<u8>, x: u32, order: ByteOrder)
    ensures
        final(buf)@ == old(buf)@ + u32_bytes(x, order),
{
    let b0: u8 = (x % 256) as u8;
    let b1: u8 = ((x / 256) % 256) as u8;
    let b2: u8 = ((x / 65536) % 256) as u8;
    let b3: u8 = ((x / 16777216) % 256) as u8;
    match order {
        ByteOrder::LittleEndian => {
            buf.push(b0);
            buf.push(b1);
            buf.push(b2);
            buf.push(b3);
        },
        ByteOrder::BigEndian => {
            buf.push(b3);
            buf.push(b2);
            buf.push(b1);
            buf.push(b0);
        },
    }
}

/// Reads the number that the four bytes from `at` on stand for.
pub fn get_u32(bytes: &[u8], at: usize, order: ByteOrder) -> (x: u32)
    requires
        at + 4 <= bytes@.len(),
    ensures
        x == u32_value(bytes@.subrange(at as int, at + 4), order),
{
    let a0: u32 = bytes[at] as u32;
    let a1: u32 = bytes[at + 1] as u32;
    let a2: u32 = bytes[at + 2] as u32;
    let a3: u32 = bytes[at + 3] as u32;
    match order {
        ByteOrder::LittleEndian => a0 + 256 * a1 + 65536 * a2 + 16777216 * a3,
        ByteOrder::BigEndian => {
            a3 + 256 * a2 + 65536 * a1 + 16777216 * a0
        },
    }
}

/// The byte that carries `x`.
pub fn i8_to_byte(x: i8) -> (b: u8)
    ensures
        b == i8_byte(x),
{
    if x >= 0 {
        x as u8
    } else {
        (x as i16 + 256) as u8
    }
}

/// The signed number that `b` carries.
pub fn byte_to_i8(b: u8) -> (x: i8)
    ensures
        x == byte_i8(b),
{
    if b < 128 {
        b as i8
    } else {
        (b as i16 - 256) as i8
    }
}

/// The bit pattern of `x` as an unsigned number.
pub fn i32_to_bits(x: i32) -> (u: u32)
    ensures
        u == i32_bits(x),
{
    if x >= 0 {
        x as u32
    } else {
        (x as i64 + 0x1_0000_0000) as u32
    }
}

/// The signed number with the bit pattern `u`.
pub fn bits_to_i32(u: u32) -> (x: i32)
    ensures
        x == bits_i32(u),
{
    if u < 0x8000_0000 {
        u as i32
    } else {
        (u as i64 - 0x1_0000_0000) as i32
    }
}

/// `u32::to_ne_bytes`: the bytes of `x` as this machine holds them in
/// memory, which is one of the two orders.
#[verifier::external_body]
fn native_bytes(x: u32) -> (b: [u8; 4])
    ensures
        b@ == u32_bytes(x, ByteOrder::LittleEndian) || b@ == u32_bytes(x, ByteOrder::BigEndian),
{
    x.to_ne_bytes()
}

/// The byte order of the machine that runs this code, found by looking at
/// how it holds the number one.
pub fn host_byte_order() -> (order: ByteOrder) {
    let probe = native_bytes(1);
    byte_order_of(&probe)
}

/// The byte order that the bytes of the number one show: least significant
/// first where the first byte is the one, most significant first otherwise.
pub open spec fn order_shown_by(probe: Seq<u8>) -> ByteOrder {
    if probe[0] == 1 {
        ByteOrder::LittleEndian
    } else {
        ByteOrder::BigEndian
    }
}

/// The byte order in which `probe` holds the number one.
pub fn byte_order_of(probe: &[u8; 4]) -> (order: ByteOrder)
    ensures
        order == order_shown_by(probe@),
{
    if probe[0] == 1 {
        ByteOrder::LittleEndian
    } else {
        ByteOrder::BigEndian
    }
}

/// The bytes of the number one tell the two orders apart: written in either
/// order, they show that order.
pub proof fn lemma_one_shows_its_order(order: ByteOrder)
    ensures
        order_shown_by(u32_bytes(1, order)) == order,
{
}

} // verus!
