//! Reading a 128-bit magnitude as a value of a fixed-width numeric type.
//!
//! The magnitude is a bit pattern. A numeric type of `n` bits keeps its low
//! `n` bits and drops the rest without complaint, as a register of that width
//! would. This is on purpose, and unlike parsing, which refuses a numeral
//! that does not fit in 128 bits: a numeral that is too long is a mistake of
//! the writer, while a narrower type is a choice of the reader.
//!
//! A signed type reads the kept bits in two's complement, a floating-point
//! type as an IEEE-754 pattern. Neither changes the bytes. The bytes of the
//! kept bits are laid out least significant first (little-endian) or most
//! significant first (big-endian).

use vstd::prelude::*;
use vstd::arithmetic::div_mod::{
    lemma_div_denominator,
    lemma_fundamental_div_mod_converse_div,
    lemma_mod_breakdown,
    lemma_mod_decreases,
    lemma_mod_mod,
    lemma_small_mod,
};
use vstd::arithmetic::power2::{lemma2_to64, lemma_pow2_adds, lemma_pow2_pos, pow2};
use crate::selection::DataType;

verus! {

/// The low `bits` bits of `value`, widened back to 128 bits with zeros.
pub open spec fn truncated(value: u128, bits: nat) -> u128 {
    (value as nat % pow2(bits)) as u128
}

/// Byte number `index` of `value`, counting from the least significant.
pub open spec fn byte_at(value: u128, index: nat) -> u8 {
    ((value as nat / pow2(8 * index)) % 256) as u8
}

/// The low `len` bytes of `value`, least significant byte first.
pub open spec fn le_bytes(value: u128, len: nat) -> Seq<u8> {
    Seq::new(len, |i: int| byte_at(value, i as nat))
}

/// The low `len` bytes of `value`, most significant byte first.
pub open spec fn be_bytes(value: u128, len: nat) -> Seq<u8> {
    Seq::new(len, |i: int| byte_at(value, (len - 1 - i) as nat))
}

/// The number that `bytes` denote when the first byte is the least
/// significant.
pub open spec fn le_value(bytes: Seq<u8>) -> nat
    decreases bytes.len(),
{
    if bytes.len() == 0 {
        0
    } else {
        bytes[0] as nat + 256 * le_value(bytes.drop_first())
    }
}

/// The bytes of `value` read as `data_type`, in little-endian order.
pub open spec fn little_endian(value: u128, data_type: DataType) -> Seq<u8> {
    le_bytes(truncated(value, data_type.bits()), data_type.bytes())
}

/// The bytes of `value` read as `data_type`, in big-endian order.
pub open spec fn big_endian(value: u128, data_type: DataType) -> Seq<u8> {
    be_bytes(truncated(value, data_type.bits()), data_type.bytes())
}

/// The number that the low `bits` bits of `value` denote in two's
/// complement: the kept bits as they are if the top one is clear, and
/// 2^`bits` less if it is set.
pub open spec fn signed_value(value: u128, bits: nat) -> int
    recommends
        bits > 0,
{
    let low = truncated(value, bits) as int;
    if low >= pow2((bits - 1) as nat) {
        low - pow2(bits)
    } else {
        low
    }
}

/// The bit pattern that a floating-point type decodes.
#[derive(Debug, Clone, Copy, PartialEq, Eq, Structural)]
pub enum FloatPattern {
    /// An IEEE-754 single-precision pattern.
    Single(u32),
    /// An IEEE-754 double-precision pattern.
    Double(u64),
}

/// The pattern that `data_type` decodes from `value`: its low 32 or 64 bits
/// for a floating-point type, nothing for any other.
pub open spec fn float_pattern_of(value: u128, data_type: DataType) -> Option<FloatPattern> {
    match data_type {
        DataType::F32 => Some(FloatPattern::Single(truncated(value, 32) as u32)),
        DataType::F64 => Some(FloatPattern::Double(truncated(value, 64) as u64)),
        _ => None,
    }
}

/// The powers of two at the five widths.
pub proof fn lemma_width_powers()
    ensures
        pow2(7) == 0x80,
        pow2(8) == 0x100,
        pow2(15) == 0x8000,
        pow2(16) == 0x1_0000,
        pow2(31) == 0x8000_0000,
        pow2(32) == 0x1_0000_0000,
        pow2(63) == 0x8000_0000_0000_0000,
        pow2(64) == 0x1_0000_0000_0000_0000,
        pow2(127) == 0x8000_0000_0000_0000_0000_0000_0000_0000,
        pow2(128) == 0x1_0000_0000_0000_0000_0000_0000_0000_0000,
{
    lemma2_to64();
    lemma_pow2_adds(32, 31);
    lemma_pow2_adds(64, 63);
    lemma_pow2_adds(64, 64);
}

/// Truncation is the remainder modulo 2^`bits`: it is below 2^`bits` and
/// never above the value it was taken from.
pub proof fn lemma_truncated_is_remainder(value: u128, bits: nat)
    ensures
        truncated(value, bits) == value as int % pow2(bits) as int,
        truncated(value, bits) < pow2(bits),
        truncated(value, bits) <= value,
{
    lemma_pow2_pos(bits);
    lemma_mod_decreases(value as nat, pow2(bits));
}

/// Truncating twice at the same width gives what truncating once gives.
pub proof fn lemma_truncated_idempotent(value: u128, bits: nat)
    ensures
        truncated(truncated(value, bits), bits) == truncated(value, bits),
{
    lemma_truncated_is_remainder(value, bits);
    lemma_small_mod(truncated(value, bits) as nat, pow2(bits));
}

/// A value that already fits in `bits` bits is left as it is.
pub proof fn lemma_truncated_keeps_small(value: u128, bits: nat)
    requires
        value < pow2(bits),
    ensures
        truncated(value, bits) == value,
{
    lemma_small_mod(value as nat, pow2(bits));
}

/// Byte `index` of the low `bits` bits is byte `index` of the whole value,
/// as long as the byte lies within the kept bits.
pub proof fn lemma_byte_at_truncated(value: u128, bits: nat, index: nat)
    requires
        8 * (index + 1) <= bits,
    ensures
        byte_at(truncated(value, bits), index) == byte_at(value, index),
{
    // 2^bits = a * 256 * b, where a stands for the bytes below the one asked
    // for and b for the kept bits above it.
    let below: nat = 8 * index;
    let above: nat = (bits - below - 8) as nat;
    let a: int = pow2(below) as int;
    let b: int = pow2(above) as int;
    let c: int = 256 * b;
    let v: int = value as int;
    let low: int = truncated(value, bits) as int;
    lemma2_to64();
    lemma_pow2_pos(below);
    lemma_pow2_pos(above);
    lemma_pow2_adds(8, above);
    lemma_pow2_adds(below, 8 + above);
    assert(pow2(bits) == a * c);
    lemma_truncated_is_remainder(value, bits);
    lemma_mod_breakdown(v, a, c);
    assert(low == a * ((v / a) % c) + v % a);
    lemma_fundamental_div_mod_converse_div(low, a, (v / a) % c, v % a);
    assert(low / a == (v / a) % c);
    lemma_mod_mod(v / a, 256, b);
}

/// Dropping the bits above the width changes none of the bytes that are
/// kept: the low `len` bytes of the truncated value are the low `len` bytes
/// of the value itself.
pub proof fn lemma_truncation_keeps_low_bytes(value: u128, len: nat)
    ensures
        le_bytes(truncated(value, 8 * len), len) == le_bytes(value, len),
        be_bytes(truncated(value, 8 * len), len) == be_bytes(value, len),
{
    let low = truncated(value, 8 * len);
    assert forall|i: nat| i < len implies byte_at(low, i) == byte_at(value, i) by {
        lemma_byte_at_truncated(value, 8 * len, i);
    }
    assert(le_bytes(low, len) =~= le_bytes(value, len));
    assert(be_bytes(low, len) =~= be_bytes(value, len));
}

/// The little-endian bytes denote exactly the bits that were kept: read
/// back as a number they give the value modulo 2^(8 * `len`).
pub proof fn lemma_le_bytes_denote_low_bits(value: u128, len: nat)
    ensures
        le_value(le_bytes(value, len)) == value as nat % pow2(8 * len),
    decreases len,
{
    lemma2_to64();
    if len > 0 {
        // The bytes after the first are the bytes of the value shifted
        // right by one byte.
        let rest: u128 = value / 256;
        let shorter: nat = (len - 1) as nat;
        assert forall|i: nat| byte_at(value, i + 1) == #[trigger] byte_at(rest, i) by {
            lemma_pow2_pos(8 * i);
            lemma_pow2_adds(8, 8 * i);
            lemma_div_denominator(value as int, 256, pow2(8 * i) as int);
        }
        assert(le_bytes(value, len).drop_first() =~= le_bytes(rest, shorter));
        assert(le_bytes(value, len)[0] == value % 256) by {
            assert(8 * 0nat == 0);
        }
        lemma_le_bytes_denote_low_bits(rest, shorter);
        lemma_pow2_pos(8 * shorter);
        lemma_pow2_adds(8, 8 * shorter);
        lemma_mod_breakdown(value as int, 256, pow2(8 * shorter) as int);
    }
}

/// Reversing the little-endian bytes gives exactly the big-endian bytes, at
/// every length.
pub proof fn lemma_be_bytes_reverse_le_bytes(value: u128, len: nat)
    ensures
        le_bytes(value, len).reverse() == be_bytes(value, len),
        be_bytes(value, len).reverse() == le_bytes(value, len),
{
}

/// Reversing the little-endian bytes of a value read as `data_type` gives
/// exactly its big-endian bytes, for every numeric type.
pub proof fn lemma_big_endian_reverses_little_endian(value: u128, data_type: DataType)
    ensures
        little_endian(value, data_type).reverse() == big_endian(value, data_type),
        little_endian(value, data_type).len() == data_type.bytes(),
        big_endian(value, data_type).len() == data_type.bytes(),
{
    lemma_be_bytes_reverse_le_bytes(truncated(value, data_type.bits()), data_type.bytes());
}

/// The little-endian bytes of a value read as `data_type` are the low bytes
/// of the value itself, and read back as a number they give the kept bits.
pub proof fn lemma_little_endian_denotes_kept_bits(value: u128, data_type: DataType)
    ensures
        little_endian(value, data_type) == le_bytes(value, data_type.bytes()),
        big_endian(value, data_type) == be_bytes(value, data_type.bytes()),
        le_value(little_endian(value, data_type)) == truncated(value, data_type.bits()),
{
    lemma_truncation_keeps_low_bytes(value, data_type.bytes());
    lemma_le_bytes_denote_low_bits(value, data_type.bytes());
    lemma_truncated_is_remainder(value, data_type.bits());
}

/// The two's-complement reading lies in the range of a signed type of
/// `bits` bits, is negative exactly when the top kept bit is set, and
/// differs from the kept bits by 0 or by 2^`bits`.
pub proof fn lemma_signed_value_range(value: u128, bits: nat)
    requires
        bits > 0,
    ensures
        -pow2((bits - 1) as nat) <= signed_value(value, bits) < pow2((bits - 1) as nat),
        signed_value(value, bits) < 0 <==> truncated(value, bits) >= pow2((bits - 1) as nat),
        signed_value(value, bits) >= 0 ==> signed_value(value, bits) == truncated(value, bits),
        signed_value(value, bits) < 0 ==> signed_value(value, bits) + pow2(bits) == truncated(
            value,
            bits,
        ),
{
    lemma_truncated_is_remainder(value, bits);
    lemma_pow2_adds((bits - 1) as nat, 1);
    lemma2_to64();
    lemma_pow2_pos((bits - 1) as nat);
}

/// Keeps the low bits of `value` that `data_type` holds.
pub fn truncate(value: u128, data_type: DataType) -> (low: u128)
    ensures
        low == truncated(value, data_type.bits()),
{
    proof {
        lemma_width_powers();
        lemma_truncated_is_remainder(value, data_type.bits());
        if data_type.bits() == 128 {
            lemma_small_mod(value as nat, pow2(128));
        }
    }
    match data_type.bit_width() {
        8 => value % 0x100,
        16 => value % 0x1_0000,
        32 => value % 0x1_0000_0000,
        64 => value % 0x1_0000_0000_0000_0000,
        _ => value,
    }
}

/// The bytes of `value` read as `data_type`, least significant byte first.
pub fn to_le_bytes(value: u128, data_type: DataType) -> (bytes: Vec<u8>)
    ensures
        bytes@ == little_endian(value, data_type),
{
    let len: usize = data_type.byte_len();
    let low: u128 = truncate(value, data_type);
    let mut rest: u128 = low;
    let mut bytes: Vec<u8> = Vec::new();
    let mut i: usize = 0;
    proof {
        lemma2_to64();
        assert(8 * (i as nat) == 0);
    }
    while i < len
        invariant
            i <= len <= 16,
            rest == low as nat / pow2(8 * (i as nat)),
            bytes@ == le_bytes(low, i as nat),
        decreases len - i,
    {
        proof {
            // Dividing by 256 once more divides by the next power of 256.
            lemma2_to64();
            lemma_pow2_pos(8 * (i as nat));
            lemma_pow2_adds(8 * (i as nat), 8);
            lemma_div_denominator(low as int, pow2(8 * (i as nat)) as int, 256);
        }
        bytes.push((rest % 256) as u8);
        rest = rest / 256;
        i = i + 1;
    }
    bytes
}

/// The bytes of `value` read as `data_type`, most significant byte first.
pub fn to_be_bytes(value: u128, data_type: DataType) -> (bytes: Vec<u8>)
    ensures
        bytes@ == big_endian(value, data_type),
{
    let le: Vec<u8> = to_le_bytes(value, data_type);
    let len: usize = le.len();
    let mut bytes: Vec<u8> = Vec::new();
    let mut i: usize = 0;
    while i < len
        invariant
            i <= len,
            len == le@.len(),
            bytes@ == le@.reverse().take(i as int),
        decreases len - i,
    {
        bytes.push(le[len - 1 - i]);
        i = i + 1;
    }
    proof {
        lemma_big_endian_reverses_little_endian(value, data_type);
    }
    bytes
}

/// The number that a signed type reads from `value`, in two's complement;
/// `None` for the types that are not signed integers.
pub fn signed_reading(value: u128, data_type: DataType) -> (reading: Option<i128>)
    ensures
        match reading {
            Some(number) => data_type.signed() && number == signed_value(value, data_type.bits()),
            None => !data_type.signed(),
        },
{
    if !data_type.is_signed() {
        return None;
    }
    let low: u128 = truncate(value, data_type);
    let half: u128 = match data_type.bit_width() {
        8 => 0x80,
        16 => 0x8000,
        32 => 0x8000_0000,
        64 => 0x8000_0000_0000_0000,
        _ => 0x8000_0000_0000_0000_0000_0000_0000_0000,
    };
    proof {
        lemma_width_powers();
        lemma_truncated_is_remainder(value, data_type.bits());
    }
    if low >= half {
        let above: u128 = low - half;
        Some(above as i128 - (half - 1) as i128 - 1)
    } else {
        Some(low as i128)
    }
}

/// The bit pattern that a floating-point type decodes from `value`; `None`
/// for the types that are not floating-point.
pub fn float_pattern(value: u128, data_type: DataType) -> (pattern: Option<FloatPattern>)
    ensures
        pattern == float_pattern_of(value, data_type),
{
    proof {
        lemma_width_powers();
        lemma_truncated_is_remainder(value, data_type.bits());
    }
    match data_type {
        DataType::F32 => Some(FloatPattern::Single(truncate(value, data_type) as u32)),
        DataType::F64 => Some(FloatPattern::Double(truncate(value, data_type) as u64)),
        _ => None,
    }
}

} // verus!
