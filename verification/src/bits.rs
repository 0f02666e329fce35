use vstd::arithmetic::div_mod::{
    lemma_div_is_ordered_by_denominator,
    lemma_div_nonincreasing,
    lemma_div_of0,
    lemma_div_pos_is_pos,
};
use vstd::prelude::*;

verus! {

/// The value of a 32-bit word read as a two's-complement signed number.
pub open spec fn signed(x: u32) -> int {
    if x < 0x8000_0000 {
        x as int
    } else {
        x as int - 0x1_0000_0000
    }
}

/// The 32-bit word that holds `v` modulo 2^32.
pub open spec fn unsigned(v: int) -> u32 {
    (v % 0x1_0000_0000) as u32
}

/// Whether `v` is a 32-bit two's-complement value.
pub open spec fn fits_i32(v: int) -> bool {
    -0x8000_0000 <= v < 0x8000_0000
}

/// The 16 bits that hold a signed immediate.
pub open spec fn imm_bits(imm: i16) -> u16 {
    if imm >= 0 {
        imm as u16
    } else {
        (imm + 0x1_0000) as u16
    }
}

/// The signed immediate that 16 bits hold.
pub open spec fn imm_value(bits: int) -> i16 {
    if bits < 0x8000 {
        bits as i16
    } else {
        (bits - 0x1_0000) as i16
    }
}

/// `x` shifted right by `s` places, the sign bit filling in from the left.
pub open spec fn arith_shift_right(x: u32, s: u32) -> u32 {
    if x < 0x8000_0000 {
        x >> s
    } else {
        !((!x) >> s)
    }
}

/// The byte of `word` in little-endian lane `lane` (0 to 3).
pub open spec fn byte_lane(word: u32, lane: u32) -> u32 {
    (word >> (8 * lane)) & 0xff
}

/// The half-word of `word` that starts in little-endian lane `lane` (0 or 2).
pub open spec fn half_lane(word: u32, lane: u32) -> u32 {
    (word >> (8 * lane)) & 0xffff
}

/// `word` with the low byte of `data` put in little-endian lane `lane`.
pub open spec fn insert_byte(word: u32, lane: u32, data: u32) -> u32 {
    (word & !(0xffu32 << (8 * lane))) | ((data & 0xff) << (8 * lane))
}

/// `word` with the low half of `data` put at little-endian lane `lane`.
pub open spec fn insert_half(word: u32, lane: u32, data: u32) -> u32 {
    (word & !(0xffffu32 << (8 * lane))) | ((data & 0xffff) << (8 * lane))
}

/// A byte widened to a word by copies of its top bit.
pub open spec fn sign_extend_byte(b: u32) -> u32 {
    if b < 0x80 {
        b
    } else {
        (b + 0xffff_ff00) as u32
    }
}

/// A half-word widened to a word by copies of its top bit.
pub open spec fn sign_extend_half(h: u32) -> u32 {
    if h < 0x8000 {
        h
    } else {
        (h + 0xffff_0000) as u32
    }
}

/// The quotient of `a` by a nonzero `b`, rounded toward zero.
pub open spec fn trunc_div(a: int, b: int) -> int {
    if a >= 0 && b > 0 {
        a / b
    } else if a < 0 && b < 0 {
        (-a) / (-b)
    } else if a < 0 {
        -((-a) / b)
    } else {
        -(a / (-b))
    }
}

/// The remainder that goes with `trunc_div`: it has the sign of `a`.
pub open spec fn trunc_rem(a: int, b: int) -> int {
    if a >= 0 && b > 0 {
        a % b
    } else if a < 0 && b < 0 {
        -((-a) % (-b))
    } else if a < 0 {
        -((-a) % b)
    } else {
        a % (-b)
    }
}

pub fn to_signed(x: u32) -> (v: i32)
    ensures
        v == signed(x),
{
    assert(x >= 0x8000_0000u32 ==> (x as i32) as int == x as int - 0x1_0000_0000) by (bit_vector);
    assert(x < 0x8000_0000u32 ==> (x as i32) as int == x as int) by (bit_vector);
    x as i32
}

pub fn from_signed(v: i32) -> (x: u32)
    ensures
        x == unsigned(v as int),
        signed(x) == v,
{
    assert(v < 0 ==> (v as u32) as int == v as int + 0x1_0000_0000) by (bit_vector);
    assert(v >= 0 ==> (v as u32) as int == v as int) by (bit_vector);
    v as u32
}

/// The word that a 16-bit signed immediate stands for.
pub fn sign_extend_imm(imm: i16) -> (x: u32)
    ensures
        x == unsigned(imm as int),
        signed(x) == imm,
{
    from_signed(imm as i32)
}

/// The immediate field of a signed immediate.
pub fn imm_field(imm: i16) -> (bits: u16)
    ensures
        bits == imm_bits(imm),
{
    assert(imm < 0 ==> (imm as u16) as int == imm as int + 0x1_0000) by (bit_vector);
    assert(imm >= 0 ==> (imm as u16) as int == imm as int) by (bit_vector);
    imm as u16
}

/// The shift distance that a register value asks for: its low five bits.
pub fn shift_distance(x: u32) -> (s: u32)
    ensures
        s == x % 32,
{
    assert(x & 0x1f == x % 32) by (bit_vector);
    x & 0x1f
}

pub fn shift_right_arith(x: u32, s: u32) -> (r: u32)
    requires
        s < 32,
    ensures
        r == arith_shift_right(x, s),
{
    assert((((x as i32) >> s) as u32) == (if x < 0x8000_0000u32 {
        x >> s
    } else {
        !((!x) >> s)
    })) by (bit_vector)
        requires
            s < 32,
    ;
    ((x as i32) >> s) as u32
}

/// The little-endian lane of a byte address within its word.
pub fn lane_of(addr: u32) -> (lane: u32)
    ensures
        lane == addr % 4,
{
    assert(addr & 3 == addr % 4) by (bit_vector);
    addr & 3
}

/// The address of the word that holds a byte address.
pub fn word_base(addr: u32) -> (base: u32)
    ensures
        base == addr - addr % 4,
        base % 4 == 0,
        base / 4 == addr / 4,
{
    assert(addr & !3u32 == addr - addr % 4) by (bit_vector);
    addr & !3u32
}

pub fn get_byte(word: u32, lane: u32) -> (b: u32)
    requires
        lane < 4,
    ensures
        b == byte_lane(word, lane),
        b < 0x100,
{
    assert((word >> (8 * lane)) & 0xff < 0x100) by (bit_vector);
    (word >> (8 * lane)) & 0xff
}

pub fn get_half(word: u32, lane: u32) -> (h: u32)
    requires
        lane < 4,
    ensures
        h == half_lane(word, lane),
        h < 0x1_0000,
{
    assert((word >> (8 * lane)) & 0xffff < 0x1_0000) by (bit_vector);
    (word >> (8 * lane)) & 0xffff
}

pub fn put_byte(word: u32, lane: u32, data: u32) -> (r: u32)
    requires
        lane < 4,
    ensures
        r == insert_byte(word, lane, data),
{
    (word & !(0xffu32 << (8 * lane))) | ((data & 0xff) << (8 * lane))
}

pub fn put_half(word: u32, lane: u32, data: u32) -> (r: u32)
    requires
        lane < 4,
    ensures
        r == insert_half(word, lane, data),
{
    (word & !(0xffffu32 << (8 * lane))) | ((data & 0xffff) << (8 * lane))
}

pub fn extend_byte(b: u32) -> (r: u32)
    requires
        b < 0x100,
    ensures
        r == sign_extend_byte(b),
{
    if b < 0x80 {
        b
    } else {
        b + 0xffff_ff00
    }
}

pub fn extend_half(h: u32) -> (r: u32)
    requires
        h < 0x1_0000,
    ensures
        r == sign_extend_half(h),
{
    if h < 0x8000 {
        h
    } else {
        h + 0xffff_0000
    }
}

/// The two halves of a 64-bit product, high half first.
pub fn split_product(p: u64) -> (halves: (u32, u32))
    ensures
        halves.0 == p / 0x1_0000_0000,
        halves.1 == p % 0x1_0000_0000,
{
    assert((p >> 32) == p / 0x1_0000_0000) by (bit_vector);
    assert((p & 0xffff_ffff) == p % 0x1_0000_0000) by (bit_vector);
    assert((p >> 32) <= 0xffff_ffff) by (bit_vector);
    ((p >> 32) as u32, (p & 0xffff_ffff) as u32)
}

/// The 64-bit two's-complement pattern of a signed product.
pub fn product_bits(p: i64) -> (bits: u64)
    ensures
        bits == (p as int) % 0x1_0000_0000_0000_0000,
{
    assert(p < 0 ==> (p as u64) as int == p as int + 0x1_0000_0000_0000_0000) by (bit_vector);
    assert(p >= 0 ==> (p as u64) as int == p as int) by (bit_vector);
    p as u64
}

/// The quotient of two signed words, rounded toward zero.
pub fn signed_quotient(a: i32, b: i32) -> (q: i32)
    requires
        b != 0,
        !(a == i32::MIN && b == -1),
    ensures
        q == trunc_div(a as int, b as int),
{
    proof {
        let x = a as int;
        let d = b as int;
        if x == 0 {
            lemma_div_of0(d);
            lemma_div_of0(-d);
        } else if x > 0 && d > 0 {
            lemma_div_pos_is_pos(x, d);
            lemma_div_nonincreasing(x, d);
        } else if x < 0 && d < 0 {
            lemma_div_pos_is_pos(-x, -d);
            lemma_div_nonincreasing(-x, -d);
            if d < -1 {
                lemma_div_is_ordered_by_denominator(-x, 2, -d);
            }
        } else if x < 0 {
            lemma_div_pos_is_pos(-x, d);
            lemma_div_nonincreasing(-x, d);
        } else {
            lemma_div_pos_is_pos(x, -d);
            lemma_div_nonincreasing(x, -d);
        }
    }
    let q = a.checked_div(b);
    q.unwrap()
}

/// The remainder of two signed words; it has the sign of `a`.
pub fn signed_remainder(a: i32, b: i32) -> (r: i32)
    requires
        b != 0,
        !(a == i32::MIN && b == -1),
    ensures
        r == trunc_rem(a as int, b as int),
{
    let r = a.checked_rem(b);
    r.unwrap()
}

/// A byte stored in a lane is the byte loaded from it, and the other lanes
/// keep what they held.
pub proof fn lemma_insert_then_read_byte(word: u32, lane: u32, other: u32, data: u32)
    requires
        lane < 4,
        other < 4,
    ensures
        byte_lane(insert_byte(word, lane, data), lane) == data & 0xff,
        other != lane ==> byte_lane(insert_byte(word, lane, data), other) == byte_lane(
            word,
            other,
        ),
{
    assert(((((word & !(0xffu32 << (8 * lane))) | ((data & 0xff) << (8 * lane))) >> (8 * lane))
        & 0xff) == data & 0xff) by (bit_vector)
        requires
            lane < 4,
    ;
    assert(other != lane ==> ((((word & !(0xffu32 << (8 * lane))) | ((data & 0xff) << (8
        * lane))) >> (8 * other)) & 0xff) == ((word >> (8 * other)) & 0xff)) by (bit_vector)
        requires
            lane < 4,
            other < 4,
    ;
}

} // verus!
