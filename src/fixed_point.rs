//! Byte-level numeric encodings used by the payload records: a three-byte
//! big-endian integer, unsigned Q-format fixed-point values, and the
//! one-byte hybrid "f817" format.
use vstd::prelude::*;

verus! {

/// Value of three bytes read as a big-endian unsigned integer.
pub open spec fn be24_value(b: Seq<u8>) -> int {
    (b[0] as int) * 65536 + (b[1] as int) * 256 + (b[2] as int)
}

/// The three low bytes of `v`, most significant first.
pub open spec fn be24_bytes(v: u32) -> Seq<u8> {
    seq![((v / 65536) % 256) as u8, ((v / 256) % 256) as u8, (v % 256) as u8]
}

/// Reads a 24-bit unsigned integer stored most significant byte first.
pub fn read_u24(val: [u8; 3]) -> (r: u32)
    ensures
        r as int == be24_value(val@),
        r < 0x100_0000,
{
    let hi = val[0] as u32;
    let mid = val[1] as u32;
    let lo = val[2] as u32;
    let r: u32 = (hi << 16u32) | (mid << 8u32) | lo;
    assert(r == hi * 65536 + mid * 256 + lo) by (bit_vector)
        requires
            hi < 256,
            mid < 256,
            lo < 256,
            r == (hi << 16u32) | (mid << 8u32) | lo,
    ;
    r
}

/// Writes the low 24 bits of `val`, most significant byte first.
pub fn write_u24(val: &u32) -> (r: [u8; 3])
    ensures
        r@ == be24_bytes(*val),
{
    let v = *val;
    let r = [(v >> 16u32) as u8, (v >> 8u32) as u8, v as u8];
    assert(((v >> 16u32) as u8) == ((v / 65536) % 256) as u8) by (bit_vector);
    assert(((v >> 8u32) as u8) == ((v / 256) % 256) as u8) by (bit_vector);
    assert((v as u8) == (v % 256) as u8) by (bit_vector);
    assert(r@ =~= be24_bytes(v));
    r
}

/// Writing a value below 2^24 and reading it back gives the value.
pub proof fn lemma_u24_value_round_trip(v: u32)
    requires
        v < 0x100_0000,
    ensures
        be24_value(be24_bytes(v)) == v as int,
{
    let b = be24_bytes(v);
    assert(b[0] as int == (v / 65536) % 256);
    assert(b[1] as int == (v / 256) % 256);
    assert(b[2] as int == v % 256);
    assert((v / 65536) % 256 * 65536 + (v / 256) % 256 * 256 + v % 256 == v) by (nonlinear_arith)
        requires
            v < 0x100_0000,
    ;
}

/// Reading three bytes and writing the value back gives the bytes.
pub proof fn lemma_u24_bytes_round_trip(b: Seq<u8>)
    requires
        b.len() == 3,
    ensures
        be24_value(b) < 0x100_0000,
        be24_bytes(be24_value(b) as u32) =~= b,
{
    let (x, y, z) = (b[0] as int, b[1] as int, b[2] as int);
    let v = x * 65536 + y * 256 + z;
    assert(0 <= v < 0x100_0000 && v / 65536 == x && (v / 256) % 256 == y && v % 256 == z)
        by (nonlinear_arith)
        requires
            0 <= x < 256,
            0 <= y < 256,
            0 <= z < 256,
            v == x * 65536 + y * 256 + z,
    ;
}

/// Unsigned fixed point, 4 integer and 12 fractional bits: `bits / 2^12`.
#[derive(Clone, Copy, Debug, PartialEq, Eq, Structural)]
pub struct U4F12 {
    pub bits: u16,
}

/// Unsigned fixed point, 8 integer and 8 fractional bits: `bits / 2^8`.
#[derive(Clone, Copy, Debug, PartialEq, Eq, Structural)]
pub struct U8F8 {
    pub bits: u16,
}

/// Unsigned fixed point, 4 integer and 4 fractional bits: `bits / 2^4`.
#[derive(Clone, Copy, Debug, PartialEq, Eq, Structural)]
pub struct U4F4 {
    pub bits: u8,
}

/// Unsigned fixed point, 7 integer and 1 fractional bit: `bits / 2`.
#[derive(Clone, Copy, Debug, PartialEq, Eq, Structural)]
pub struct U7F1 {
    pub bits: u8,
}

/// Unsigned fixed point, 16 integer and 16 fractional bits: `bits / 2^16`.
/// On the wire only the low 24 bits are kept (an 8.16 value).
#[derive(Clone, Copy, Debug, PartialEq, Eq, Structural)]
pub struct U16F16 {
    pub bits: u32,
}

/// Unsigned fixed point, 8 integer and 24 fractional bits: `bits / 2^24`.
#[derive(Clone, Copy, Debug, PartialEq, Eq, Structural)]
pub struct U8F24 {
    pub bits: u32,
}

/// One in 8.24 fixed point.
pub const U8F24_ONE: u32 = 0x100_0000;

/// The largest 8.24 value that the f817 format writes in tenths: 12.7,
/// rounded to the nearest representable value.
pub const F817_TENTHS_LIMIT: u32 = 213_070_643;

/// Reads an 8.16 value stored in three big-endian bytes.
pub fn read_u8f16(val: [u8; 3]) -> (r: U16F16)
    ensures
        r.bits as int == be24_value(val@),
{
    U16F16 { bits: read_u24(val) }
}

/// Writes the low 24 bits of an 8.16 value, most significant byte first.
pub fn write_u8f16(val: &U16F16) -> (r: [u8; 3])
    ensures
        r@ == be24_bytes(val.bits),
{
    write_u24(&val.bits)
}

/// The 8.24 bits that an f817 byte stands for: bit 7 clear means tenths
/// (rounded down to the nearest 2^-24), bit 7 set means whole units.
pub open spec fn f817_decode(b: u8) -> u32 {
    if b < 0x80 {
        ((b as int * U8F24_ONE as int) / 10) as u32
    } else {
        ((b as int - 0x80) * U8F24_ONE as int) as u32
    }
}

/// The f817 byte written for an 8.24 value: up to 12.7 the value is rounded
/// to the nearest tenth, above it the whole part is kept (modulo 128) and
/// bit 7 is set.
pub open spec fn f817_encode(bits: u32) -> u8 {
    if bits <= F817_TENTHS_LIMIT {
        ((bits as int * 10 + U8F24_ONE as int / 2) / U8F24_ONE as int) as u8
    } else {
        ((bits as int / U8F24_ONE as int) % 128 + 0x80) as u8
    }
}

/// Reads an f817 byte as an 8.24 fixed-point value.
pub fn read_f817(val: u8) -> (r: U8F24)
    ensures
        r.bits == f817_decode(val),
{
    let magnitude = (val & 0x7f) as u32;
    assert(val & 0x7f == val % 128) by (bit_vector);
    assert(val & 0x80 == 0x00 <==> val < 0x80) by (bit_vector);
    let fixed = magnitude * U8F24_ONE;
    if val & 0x80 == 0x00 {
        U8F24 { bits: fixed / 10 }
    } else {
        U8F24 { bits: fixed }
    }
}

/// Writes an 8.24 fixed-point value as an f817 byte.
pub fn write_f817(val: &U8F24) -> (r: u8)
    ensures
        r == f817_encode(val.bits),
{
    let bits = val.bits;
    if bits <= F817_TENTHS_LIMIT {
        let rounded = (bits * 10 + U8F24_ONE / 2) / U8F24_ONE;
        assert(rounded < 128);
        rounded as u8
    } else {
        let whole = bits >> 24u32;
        assert(whole == bits / 0x100_0000 && whole < 256) by (bit_vector)
            requires
                whole == bits >> 24u32,
        ;
        let r = (whole as u8) | 0x80;
        assert((whole as u8) | 0x80 == ((whole % 128) + 0x80) as u8) by (bit_vector)
            requires
                whole < 256,
        ;
        r
    }
}

/// Decoding an f817 byte, encoding the value and decoding again gives the
/// same value; and every byte that is the shortest form of its value (all
/// tenths, and whole units from 13 up) comes back unchanged.
pub proof fn lemma_f817_round_trip(b: u8)
    ensures
        f817_decode(f817_encode(f817_decode(b))) == f817_decode(b),
        (b < 0x80 || b > 0x8c) ==> f817_encode(f817_decode(b)) == b,
{
    let one = U8F24_ONE as int;
    if b < 0x80 {
        let m = b as int;
        let bits = (m * one) / 10;
        assert(0 <= bits <= F817_TENTHS_LIMIT && (bits * 10 + one / 2) / one == m) by (nonlinear_arith)
            requires
                0 <= m < 128,
                one == 0x100_0000,
                bits == (m * one) / 10,
        ;
    } else {
        let m = b as int - 0x80;
        let bits = m * one;
        assert(0 <= bits < 0x1_0000_0000) by (nonlinear_arith)
            requires 0 <= m < 128, one == 0x100_0000, bits == m * one;
        if m <= 12 {
            assert(bits <= F817_TENTHS_LIMIT && (bits * 10 + one / 2) / one == m * 10) by (nonlinear_arith)
                requires
                    0 <= m <= 12,
                    one == 0x100_0000,
                    bits == m * one,
            ;
            let t = m * 10;
            assert((t * one) / 10 == bits) by (nonlinear_arith)
                requires t == m * 10, bits == m * one;
        } else {
            assert(bits > F817_TENTHS_LIMIT && bits / one == m) by (nonlinear_arith)
                requires
                    13 <= m < 128,
                    one == 0x100_0000,
                    bits == m * one,
            ;
        }
    }
}

} // verus!
