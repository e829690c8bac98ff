//! Fixed-width word arithmetic: sign extension and 16-bit wrapping.

use vstd::prelude::*;
use vstd::arithmetic::power2::{lemma2_to64, pow2};

verus! {

/// The value `v` reduced to a 16-bit word.
pub open spec fn wrap16(v: int) -> u16 {
    (v % 0x1_0000) as u16
}

/// The low byte of a word.
pub open spec fn low_byte(word: u16) -> u8 {
    (word % 0x100) as u8
}

/// The high byte of a word.
pub open spec fn high_byte(word: u16) -> u8 {
    (word / 0x100) as u8
}

/// The bytes and the complement of a word are what the shifts, masks and
/// negation that extract them compute.
pub proof fn lemma_word_bits(word: u16)
    by (bit_vector)
    ensures
        word & 0xFF == word % 0x100,
        word >> 8 == word / 0x100,
        !word == 0xFFFF - word,
{
}

/// The number of values that a field of `bits` bits can hold, `2^bits`, for
/// the widths that fit in a word.
pub open spec fn field_span(bits: nat) -> int {
    if bits == 0 {
        0x1
    } else if bits == 1 {
        0x2
    } else if bits == 2 {
        0x4
    } else if bits == 3 {
        0x8
    } else if bits == 4 {
        0x10
    } else if bits == 5 {
        0x20
    } else if bits == 6 {
        0x40
    } else if bits == 7 {
        0x80
    } else if bits == 8 {
        0x100
    } else if bits == 9 {
        0x200
    } else if bits == 10 {
        0x400
    } else if bits == 11 {
        0x800
    } else if bits == 12 {
        0x1000
    } else if bits == 13 {
        0x2000
    } else if bits == 14 {
        0x4000
    } else if bits == 15 {
        0x8000
    } else {
        0x1_0000
    }
}

/// The two's-complement value of a field that is `bits` wide and holds `x`.
pub open spec fn signed_field(x: int, bits: nat) -> int {
    if x >= field_span((bits - 1) as nat) {
        x - field_span(bits)
    } else {
        x
    }
}

/// Whether bit `bits - 1`, the sign bit of a field that is `bits` wide, is set in `x`.
pub open spec fn sign_bit_set(x: u16, bits: nat) -> bool {
    (x as int / field_span((bits - 1) as nat)) % 2 == 1
}

/// What [`sign_extend`] returns: `x` itself where the sign bit of the field
/// is clear, and `x` with every bit from `bits` upwards set where it is set.
pub open spec fn sign_extend_spec(x: u16, bits: nat) -> int {
    if sign_bit_set(x, bits) {
        x as int % field_span(bits) + (0x1_0000 - field_span(bits))
    } else {
        x as int
    }
}

/// The table of [`field_span`] holds the powers of two.
pub proof fn lemma_field_span_is_pow2(bits: nat)
    requires
        bits <= 16,
    ensures
        field_span(bits) == pow2(bits),
{
    lemma2_to64();
}

proof fn lemma_shift_is_span(b: u16)
    requires
        b <= 15,
    ensures
        (1u16 << b) == field_span(b as nat),
{
    assert({
        &&& (1u16 << 0u16) == 0x1
        &&& (1u16 << 1u16) == 0x2
        &&& (1u16 << 2u16) == 0x4
        &&& (1u16 << 3u16) == 0x8
        &&& (1u16 << 4u16) == 0x10
        &&& (1u16 << 5u16) == 0x20
        &&& (1u16 << 6u16) == 0x40
        &&& (1u16 << 7u16) == 0x80
        &&& (1u16 << 8u16) == 0x100
        &&& (1u16 << 9u16) == 0x200
        &&& (1u16 << 10u16) == 0x400
        &&& (1u16 << 11u16) == 0x800
        &&& (1u16 << 12u16) == 0x1000
        &&& (1u16 << 13u16) == 0x2000
        &&& (1u16 << 14u16) == 0x4000
        &&& (1u16 << 15u16) == 0x8000
    }) by (bit_vector);
}

proof fn lemma_sign_extend_bits(x: u16, s: u16, b: u16)
    by (bit_vector)
    requires
        s <= 14,
        b == s + 1,
    ensures
        ((x >> s) & 1 != 0) <==> (x / (1u16 << s)) % 2 == 1,
        (x | (0xFFFFu16 << b)) == x % (1u16 << b) + (0x1_0000 - (1u16 << b)),
{
}

/// Extends the `bit_count`-bit field in `x` to 16 bits by replicating its
/// sign bit. The result is a 16-bit word in 32 bits, ready to be added to an
/// address without overflow.
pub fn sign_extend(x: u16, bit_count: u8) -> (r: u32)
    requires
        1 <= bit_count <= 15,
    ensures
        r == sign_extend_spec(x, bit_count as nat),
        r <= 0xFFFF,
{
    let mut x: u16 = x;
    proof {
        let b = bit_count as u16;
        lemma_sign_extend_bits(x, (b - 1) as u16, b);
        lemma_shift_is_span(b);
        lemma_shift_is_span((b - 1) as u16);
    }
    if (x >> (bit_count - 1)) & 1 != 0 {
        x |= 0xFFFF << bit_count;
    }
    x as u32
}

/// The address `offset` words from `base`, where `offset` is a sign-extended
/// word: their sum modulo 65,536.
pub fn add_offset(base: u16, offset: u32) -> (sum: u16)
    requires
        offset <= 0xFFFF,
    ensures
        sum == wrap16(base + offset),
{
    base.wrapping_add(offset as u16)
}

/// The address that lies the signed value of `field`, a field of `bits`
/// bits, from `base`: their sum modulo 65,536.
pub fn offset_address(base: u16, field: u16, bits: u8) -> (address: u16)
    requires
        1 <= bits <= 15,
        field < field_span(bits as nat),
    ensures
        address == wrap16(base + signed_field(field as int, bits as nat)),
{
    let offset: u32 = sign_extend(field, bits);
    proof {
        lemma_sign_extend_is_signed_value(field, bits as nat);
        let signed = signed_field(field as int, bits as nat);
        assert(-0x8000 <= signed < 0x8000);
        if signed < 0 {
            assert(offset == signed + 0x1_0000);
            assert((base + signed + 0x1_0000) % 0x1_0000 == (base + signed) % 0x1_0000);
        }
    }
    add_offset(base, offset)
}

/// Sign extension of a field of any width, so of 5, 6, 9 and 11 bits, gives
/// its two's-complement value as a 16-bit word: a field whose sign bit is
/// clear is unchanged, and one whose sign bit is set becomes the word that
/// stands for the negative value `x - 2^bits`, which is `x - 2^bits + 65,536`.
pub proof fn lemma_sign_extend_is_signed_value(x: u16, bits: nat)
    requires
        1 <= bits <= 15,
        x < field_span(bits),
    ensures
        sign_extend_spec(x, bits) == wrap16(signed_field(x as int, bits)),
        -field_span((bits - 1) as nat) <= signed_field(x as int, bits) < field_span(
            (bits - 1) as nat,
        ),
        sign_bit_set(x, bits) <==> signed_field(x as int, bits) < 0,
        sign_bit_set(x, bits) ==> sign_extend_spec(x, bits) == 0x1_0000 + signed_field(
            x as int,
            bits,
        ),
        !sign_bit_set(x, bits) ==> sign_extend_spec(x, bits) == x,
{
}

} // verus!
