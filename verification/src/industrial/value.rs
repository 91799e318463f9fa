//! Register values, their decoding from raw words, and fixed-point
//! readings.
//!
//! An engineering value is a fixed-point number that counts millionths.  A
//! raw register value becomes a reading of at most 64 bits; scaling it
//! gives a reading of at most 128 bits, so that no step can overflow.
//! Floating-point registers are read from their IEEE 754 bit patterns:
//! the value is truncated to millionths and saturates at the 64-bit range,
//! and a NaN pattern is not a number.

use vstd::prelude::*;
use vstd::arithmetic::div_mod::{
    lemma_div_denominator,
    lemma_div_is_ordered_by_denominator,
    lemma_div_multiples_vanish,
};
use vstd::arithmetic::mul::{lemma_mul_inequality, lemma_mul_is_associative};
use crate::industrial::config::WordOrder;
use crate::industrial::protocol::words_be;
use crate::industrial::text::magnitude;
use crate::industrial::types::DataType;

verus! {

/// A fixed-point reading in millionths, or the mark that a register holds
/// no number.
#[derive(Debug, Clone, Copy, PartialEq, Eq, Structural)]
pub enum Reading {
    /// A number, in millionths
    Number(i128),
    /// Not a number: a text register, or a NaN bit pattern
    NotANumber,
}

/// A register value of one of the supported data types.
#[derive(Debug, Clone)]
pub enum RegisterValue {
    /// Unsigned 16-bit
    U16(u16),
    /// Signed 16-bit
    I16(i16),
    /// Unsigned 32-bit
    U32(u32),
    /// Signed 32-bit
    I32(i32),
    /// 32-bit float, as its IEEE 754 bit pattern
    F32(u32),
    /// 64-bit float, as its IEEE 754 bit pattern
    F64(u64),
    /// Boolean
    Bool(bool),
    /// Text, as the bytes of its registers
    String(Vec<u8>),
}

/// A register value with its text as a byte sequence.
pub enum RegisterValueView {
    U16(u16),
    I16(i16),
    U32(u32),
    I32(i32),
    F32(u32),
    F64(u64),
    Bool(bool),
    String(Seq<u8>),
}

impl View for RegisterValue {
    type V = RegisterValueView;

    open spec fn view(&self) -> RegisterValueView {
        match self {
            RegisterValue::U16(v) => RegisterValueView::U16(*v),
            RegisterValue::I16(v) => RegisterValueView::I16(*v),
            RegisterValue::U32(v) => RegisterValueView::U32(*v),
            RegisterValue::I32(v) => RegisterValueView::I32(*v),
            RegisterValue::F32(v) => RegisterValueView::F32(*v),
            RegisterValue::F64(v) => RegisterValueView::F64(*v),
            RegisterValue::Bool(v) => RegisterValueView::Bool(*v),
            RegisterValue::String(v) => RegisterValueView::String(v@),
        }
    }
}

/// Two to the power `n`.
pub open spec fn two_pow(n: nat) -> nat
    decreases n,
{
    if n == 0 {
        1
    } else {
        2 * two_pow((n - 1) as nat)
    }
}

/// Powers of two are positive and grow with the exponent.
pub proof fn lemma_two_pow_grows(a: nat, b: nat)
    requires
        a <= b,
    ensures
        0 < two_pow(a) <= two_pow(b),
    decreases b,
{
    if b == 0 {
    } else if a == b {
        lemma_two_pow_grows(0, (b - 1) as nat);
    } else {
        lemma_two_pow_grows(a, (b - 1) as nat);
    }
}

/// `mant * 2^exp2` in millionths, truncated toward zero.
pub open spec fn scaled_magnitude(mant: nat, exp2: int) -> nat {
    if exp2 >= 0 {
        mant * 1_000_000 * two_pow(exp2 as nat)
    } else {
        ((mant as int * 1_000_000) / (two_pow((-exp2) as nat) as int)) as nat
    }
}

/// A magnitude with its sign, saturating at the largest 64-bit value.
pub open spec fn saturate_signed(negative: bool, mag: nat) -> int {
    let m: int = if mag > i64::MAX {
        i64::MAX as int
    } else {
        mag as int
    };
    if negative {
        -m
    } else {
        m
    }
}

/// The reading of an IEEE 754 single-precision bit pattern.
pub open spec fn f32_micro(bits: u32) -> Reading {
    let negative: bool = bits >= 0x8000_0000;
    let exp: int = (bits as int / 0x80_0000) % 256;
    let frac: nat = (bits % 0x80_0000) as nat;
    if exp == 255 {
        if frac == 0 {
            Reading::Number(saturate_signed(negative, (i64::MAX as nat) + 1) as i128)
        } else {
            Reading::NotANumber
        }
    } else if exp == 0 {
        Reading::Number(saturate_signed(negative, scaled_magnitude(frac, -149)) as i128)
    } else {
        Reading::Number(
            saturate_signed(negative, scaled_magnitude(frac + 0x80_0000, exp - 150)) as i128,
        )
    }
}

/// The reading of an IEEE 754 double-precision bit pattern.
pub open spec fn f64_micro(bits: u64) -> Reading {
    let negative: bool = bits >= 0x8000_0000_0000_0000;
    let exp: int = (bits as int / 0x10_0000_0000_0000) % 2048;
    let frac: nat = (bits % 0x10_0000_0000_0000) as nat;
    if exp == 2047 {
        if frac == 0 {
            Reading::Number(saturate_signed(negative, (i64::MAX as nat) + 1) as i128)
        } else {
            Reading::NotANumber
        }
    } else if exp == 0 {
        Reading::Number(saturate_signed(negative, scaled_magnitude(frac, -1074)) as i128)
    } else {
        Reading::Number(
            saturate_signed(
                negative,
                scaled_magnitude(frac + 0x10_0000_0000_0000, exp - 1075),
            ) as i128,
        )
    }
}

/// Computes `mant * 2^exp2` in millionths, truncated, capped at the largest
/// 64-bit value.
pub fn scale_pow2(mant: u64, exp2: i32) -> (m: u64)
    requires
        mant < 0x20_0000_0000_0000,
        -2000 < exp2 < 2000,
    ensures
        m <= i64::MAX,
        m as int == saturate_signed(false, scaled_magnitude(mant as nat, exp2 as int)),
{
    let base: u128 = (mant as u128) * 1_000_000;
    let cap: u128 = i64::MAX as u128;
    if exp2 >= 0 {
        let mut value: u128 = base;
        let mut k: i32 = 0;
        assert(base * two_pow(0) == base) by {
            assert(two_pow(0) == 1);
        }
        while k < exp2 && value <= cap
            invariant
                0 <= k <= exp2,
                exp2 < 2000,
                cap == i64::MAX as u128,
                base == mant * 1_000_000,
                value == base * two_pow(k as nat),
                value < 0x1_0000_0000_0000_0000_0000,
            decreases exp2 - k,
        {
            assert(base * two_pow((k + 1) as nat) == 2 * (base * two_pow(k as nat))) by {
                lemma_mul_is_associative(base as int, 2, two_pow(k as nat) as int);
                assert(two_pow((k + 1) as nat) == 2 * two_pow(k as nat));
                assert(base * (2 * two_pow(k as nat)) == (base * 2) * two_pow(k as nat)) by {
                    lemma_mul_is_associative(base as int, 2, two_pow(k as nat) as int);
                }
                assert((base * 2) * two_pow(k as nat) == 2 * (base * two_pow(k as nat))) by {
                    lemma_mul_is_associative(2, base as int, two_pow(k as nat) as int);
                }
            }
            value = value * 2;
            k = k + 1;
        }
        if value > cap {
            proof {
                lemma_two_pow_grows(k as nat, exp2 as nat);
                lemma_mul_inequality(
                    two_pow(k as nat) as int,
                    two_pow(exp2 as nat) as int,
                    base as int,
                );
                assert(base * two_pow(k as nat) == two_pow(k as nat) * base) by (nonlinear_arith);
                assert(base * two_pow(exp2 as nat) == two_pow(exp2 as nat) * base)
                    by (nonlinear_arith);
            }
            i64::MAX as u64
        } else {
            value as u64
        }
    } else {
        let shift: i32 = -exp2;
        let mut value: u128 = base;
        let mut j: i32 = 0;
        proof {
            assert(base as int / 1 == base as int);
        }
        while j < shift && value > 0
            invariant
                0 <= j <= shift,
                shift == -exp2,
                shift < 2000,
                value as int == base as int / two_pow(j as nat) as int,
            decreases shift - j,
        {
            proof {
                lemma_two_pow_grows(0, j as nat);
                lemma_div_denominator(base as int, two_pow(j as nat) as int, 2);
                assert(two_pow((j + 1) as nat) == two_pow(j as nat) * 2);
            }
            value = value / 2;
            j = j + 1;
        }
        proof {
            lemma_two_pow_grows(j as nat, shift as nat);
            if j < shift {
                lemma_div_is_ordered_by_denominator(
                    base as int,
                    two_pow(j as nat) as int,
                    two_pow(shift as nat) as int,
                );
                assert(base as int / two_pow(shift as nat) as int >= 0) by {
                    vstd::arithmetic::div_mod::lemma_div_pos_is_pos(
                        base as int,
                        two_pow(shift as nat) as int,
                    );
                }
            }
        }
        if value > cap {
            i64::MAX as u64
        } else {
            value as u64
        }
    }
}

/// A magnitude of at most `i64::MAX` with a sign.
fn signed_reading(negative: bool, mag: u64) -> (r: Reading)
    requires
        mag <= i64::MAX,
    ensures
        r == Reading::Number(saturate_signed(negative, mag as nat) as i128),
{
    if negative {
        Reading::Number(-(mag as i128))
    } else {
        Reading::Number(mag as i128)
    }
}

/// Reads an IEEE 754 single-precision bit pattern as a reading.
pub fn f32_bits_to_micro(bits: u32) -> (r: Reading)
    ensures
        r == f32_micro(bits),
{
    let negative: bool = bits >= 0x8000_0000;
    let exp: u32 = (bits / 0x80_0000) % 256;
    let frac: u32 = bits % 0x80_0000;
    if exp == 255 {
        if frac == 0 {
            signed_reading(negative, i64::MAX as u64)
        } else {
            Reading::NotANumber
        }
    } else if exp == 0 {
        signed_reading(negative, scale_pow2(frac as u64, -149))
    } else {
        signed_reading(negative, scale_pow2((frac + 0x80_0000) as u64, exp as i32 - 150))
    }
}

/// Reads an IEEE 754 double-precision bit pattern as a reading.
pub fn f64_bits_to_micro(bits: u64) -> (r: Reading)
    ensures
        r == f64_micro(bits),
{
    let negative: bool = bits >= 0x8000_0000_0000_0000;
    let exp: u64 = (bits / 0x10_0000_0000_0000) % 2048;
    let frac: u64 = bits % 0x10_0000_0000_0000;
    if exp == 2047 {
        if frac == 0 {
            signed_reading(negative, i64::MAX as u64)
        } else {
            Reading::NotANumber
        }
    } else if exp == 0 {
        signed_reading(negative, scale_pow2(frac, -1074))
    } else {
        signed_reading(negative, scale_pow2(frac + 0x10_0000_0000_0000, exp as i32 - 1075))
    }
}

/// Quotient truncated toward zero, for a positive divisor.
pub open spec fn truncating_div(a: int, d: int) -> int {
    if a >= 0 {
        a / d
    } else {
        -((-a) / d)
    }
}

/// The scaled value `raw * scale + offset`, all in millionths, truncated
/// toward zero.
pub open spec fn spec_scaled(raw_micro: int, scale_micro: int, offset_micro: int) -> int {
    truncating_div(raw_micro * scale_micro, 1_000_000) + offset_micro
}

/// For a whole raw value the scaling is exact: `raw * scale + offset`.
pub proof fn lemma_scaled_whole(raw: int, scale_micro: int, offset_micro: int)
    ensures
        spec_scaled(raw * 1_000_000, scale_micro, offset_micro) == raw * scale_micro
            + offset_micro,
{
    let p: int = raw * scale_micro;
    assert(raw * 1_000_000 * scale_micro == 1_000_000 * p) by (nonlinear_arith)
        requires
            p == raw * scale_micro,
    ;
    if 1_000_000 * p >= 0 {
        lemma_div_multiples_vanish(p, 1_000_000);
    } else {
        assert(-(1_000_000 * p) == 1_000_000 * (-p)) by (nonlinear_arith);
        lemma_div_multiples_vanish(-p, 1_000_000);
    }
}

/// The reading of a register value before scaling: whole numbers exactly,
/// a boolean as one or zero, floating-point patterns truncated to
/// millionths, text as no number.
pub open spec fn spec_as_micro(value: RegisterValueView) -> Reading {
    match value {
        RegisterValueView::U16(v) => Reading::Number((v * 1_000_000) as i128),
        RegisterValueView::I16(v) => Reading::Number((v * 1_000_000) as i128),
        RegisterValueView::U32(v) => Reading::Number((v * 1_000_000) as i128),
        RegisterValueView::I32(v) => Reading::Number((v * 1_000_000) as i128),
        RegisterValueView::F32(bits) => f32_micro(bits),
        RegisterValueView::F64(bits) => f64_micro(bits),
        RegisterValueView::Bool(b) => Reading::Number(
            if b {
                1_000_000i128
            } else {
                0i128
            },
        ),
        RegisterValueView::String(_) => Reading::NotANumber,
    }
}

/// The scaled reading of a register value.
pub open spec fn spec_scaled_reading(
    value: RegisterValueView,
    scale_micro: i64,
    offset_micro: i64,
) -> Reading {
    match spec_as_micro(value) {
        Reading::Number(raw) => Reading::Number(
            spec_scaled(raw as int, scale_micro as int, offset_micro as int) as i128,
        ),
        Reading::NotANumber => Reading::NotANumber,
    }
}

impl RegisterValue {
    /// Converts to a reading for scaling and comparison.
    pub fn as_f64(&self) -> (r: Reading)
        ensures
            r == spec_as_micro(self@),
            r matches Reading::Number(v) ==> i64::MIN < v <= i64::MAX,
    {
        match self {
            RegisterValue::U16(v) => Reading::Number((*v as i128) * 1_000_000),
            RegisterValue::I16(v) => Reading::Number((*v as i128) * 1_000_000),
            RegisterValue::U32(v) => Reading::Number((*v as i128) * 1_000_000),
            RegisterValue::I32(v) => Reading::Number((*v as i128) * 1_000_000),
            RegisterValue::F32(bits) => f32_bits_to_micro(*bits),
            RegisterValue::F64(bits) => f64_bits_to_micro(*bits),
            RegisterValue::Bool(b) => Reading::Number(
                if *b {
                    1_000_000
                } else {
                    0
                },
            ),
            RegisterValue::String(_) => Reading::NotANumber,
        }
    }

    /// Applies scale and offset: `value * scale + offset`.
    pub fn scaled(&self, scale_micro: i64, offset_micro: i64) -> (r: Reading)
        ensures
            r == spec_scaled_reading(self@, scale_micro, offset_micro),
    {
        match self.as_f64() {
            Reading::NotANumber => Reading::NotANumber,
            Reading::Number(raw) => {
                let raw_mag: u128 = magnitude(raw);
                let scale_mag: u128 = magnitude(scale_micro as i128);
                assert(raw_mag * scale_mag <= 0x8000_0000_0000_0000 * 0x8000_0000_0000_0000)
                    by (nonlinear_arith)
                    requires
                        raw_mag <= 0x8000_0000_0000_0000,
                        scale_mag <= 0x8000_0000_0000_0000,
                ;
                let product_mag: u128 = raw_mag * scale_mag;
                let negative: bool = (raw < 0) != (scale_micro < 0);
                let quotient_mag: u128 = product_mag / 1_000_000;
                let quotient: i128 = if negative {
                    -(quotient_mag as i128)
                } else {
                    quotient_mag as i128
                };
                proof {
                    let p: int = raw as int * scale_micro as int;
                    assert(p == (if negative {
                        -(product_mag as int)
                    } else {
                        product_mag as int
                    })) by (nonlinear_arith)
                        requires
                            p == raw as int * scale_micro as int,
                            product_mag as int == raw_mag as int * scale_mag as int,
                            raw_mag as int == (if raw < 0 {
                                -(raw as int)
                            } else {
                                raw as int
                            }),
                            scale_mag as int == (if scale_micro < 0 {
                                -(scale_micro as int)
                            } else {
                                scale_micro as int
                            }),
                            negative == ((raw < 0) != (scale_micro < 0)),
                    ;
                    if product_mag == 0 {
                        assert(0int / 1_000_000 == 0);
                    }
                    assert(quotient as int == truncating_div(p, 1_000_000));
                }
                Reading::Number(quotient + (offset_micro as i128))
            },
        }
    }
}

/// The word of the given significance rank: rank 0 is the most significant
/// word, which stands first in big-endian order and last in little-endian
/// order.
pub open spec fn word_at(words: Seq<u16>, order: WordOrder, rank: int) -> u16 {
    match order {
        WordOrder::BigEndian => words[rank],
        WordOrder::LittleEndian => words[words.len() - 1 - rank],
    }
}

/// The number that the `n` most significant words spell.
pub open spec fn join_words(words: Seq<u16>, order: WordOrder, n: nat) -> nat
    decreases n,
{
    if n == 0 {
        0
    } else {
        join_words(words, order, (n - 1) as nat) * 65536 + word_at(words, order, n - 1) as nat
    }
}

/// The signed number that a pattern of `bits` bits means in two's
/// complement.
pub open spec fn twos_complement(pattern: nat, bits: nat) -> int {
    if pattern >= two_pow((bits - 1) as nat) {
        pattern - two_pow(bits)
    } else {
        pattern as int
    }
}

/// The typed value that raw words mean, if there are as many words as the
/// data type takes: single words directly, multi-word numbers assembled in
/// the register's word order, text as the bytes of its words.
pub open spec fn spec_decode(data_type: DataType, order: WordOrder, words: Seq<u16>) -> Option<
    RegisterValueView,
> {
    if words.len() != data_type.spec_word_count() {
        None
    } else {
        Some(
            match data_type {
                DataType::UInt16 => RegisterValueView::U16(words[0]),
                DataType::Int16 => RegisterValueView::I16(
                    twos_complement(words[0] as nat, 16) as i16,
                ),
                DataType::Boolean => RegisterValueView::Bool(words[0] != 0),
                DataType::UInt32 => RegisterValueView::U32(join_words(words, order, 2) as u32),
                DataType::Int32 => RegisterValueView::I32(
                    twos_complement(join_words(words, order, 2), 32) as i32,
                ),
                DataType::Float32 => RegisterValueView::F32(join_words(words, order, 2) as u32),
                DataType::Float64 => RegisterValueView::F64(join_words(words, order, 4) as u64),
                DataType::String => RegisterValueView::String(words_be(words)),
            },
        )
    }
}

/// Picks the word of a significance rank.
fn pick_word(words: &[u16], order: WordOrder, rank: usize) -> (w: u16)
    requires
        rank < words@.len(),
    ensures
        w == word_at(words@, order, rank as int),
{
    match order {
        WordOrder::BigEndian => words[rank],
        WordOrder::LittleEndian => words[words.len() - 1 - rank],
    }
}

/// Decodes raw words into a typed value.  Returns `None` unless `words`
/// holds exactly as many words as the data type takes.
pub fn decode_words(data_type: DataType, order: WordOrder, words: &[u16]) -> (r: Option<
    RegisterValue,
>)
    ensures
        match spec_decode(data_type, order, words@) {
            Some(v) => r matches Some(value) && value@ == v,
            None => r is None,
        },
{
    if words.len() != data_type.word_count() as usize {
        return None;
    }
    proof {
        reveal_with_fuel(two_pow, 33);
        reveal_with_fuel(join_words, 5);
    }
    match data_type {
        DataType::UInt16 => Some(RegisterValue::U16(words[0])),
        DataType::Int16 => {
            let w: u16 = words[0];
            let v: i16 = if w >= 0x8000 {
                ((w as i32) - 0x10000) as i16
            } else {
                w as i16
            };
            Some(RegisterValue::I16(v))
        },
        DataType::Boolean => Some(RegisterValue::Bool(words[0] != 0)),
        DataType::UInt32 => {
            let v: u32 = (pick_word(words, order, 0) as u32) * 65536 + (pick_word(
                words,
                order,
                1,
            ) as u32);
            Some(RegisterValue::U32(v))
        },
        DataType::Int32 => {
            let p: u32 = (pick_word(words, order, 0) as u32) * 65536 + (pick_word(
                words,
                order,
                1,
            ) as u32);
            let v: i32 = if p >= 0x8000_0000 {
                ((p as i64) - 0x1_0000_0000) as i32
            } else {
                p as i32
            };
            Some(RegisterValue::I32(v))
        },
        DataType::Float32 => {
            let v: u32 = (pick_word(words, order, 0) as u32) * 65536 + (pick_word(
                words,
                order,
                1,
            ) as u32);
            Some(RegisterValue::F32(v))
        },
        DataType::Float64 => {
            let a: u64 = pick_word(words, order, 0) as u64;
            let b: u64 = pick_word(words, order, 1) as u64;
            let c: u64 = pick_word(words, order, 2) as u64;
            let d: u64 = pick_word(words, order, 3) as u64;
            let v: u64 = ((a * 65536 + b) * 65536 + c) * 65536 + d;
            Some(RegisterValue::F64(v))
        },
        DataType::String => {
            let mut bytes: Vec<u8> = Vec::new();
            let mut i: usize = 0;
            while i < words.len()
                invariant
                    0 <= i <= words@.len(),
                    bytes@ == words_be(words@.subrange(0, i as int)),
                decreases words@.len() - i,
            {
                let w: u16 = words[i];
                bytes.push((w / 256) as u8);
                bytes.push((w % 256) as u8);
                assert(bytes@ =~= words_be(words@.subrange(0, i + 1)));
                i = i + 1;
            }
            assert(words@.subrange(0, i as int) =~= words@);
            Some(RegisterValue::String(bytes))
        },
    }
}

} // verus!
