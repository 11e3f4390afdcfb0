//! The immediate encodings of the I, S, U, B and J formats: each one
//! reassembled without a sign (zero-extended) and, where the format has a
//! sign bit, sign-extended to 32 bits.
use vstd::prelude::*;
use crate::fields::bits;

verus! {

/// `v` with its bit `top` copied into every bit above it.
pub open spec fn sign_extend(v: u32, top: u32) -> u32
    recommends
        top < 32,
{
    if bits(v, top, top) == 1 {
        v | (0xffff_ffffu32 << top)
    } else {
        v
    }
}

/// I-type: bits `[31:20]` of the word as a 12-bit value.
pub open spec fn i_immd_zex(w: u32) -> u32 {
    bits(w, 31, 20)
}

/// S-type: bits `[31:25]` at `[11:5]`, bits `[11:7]` at `[4:0]`.
pub open spec fn s_immd_zex(w: u32) -> u32 {
    (bits(w, 31, 25) << 5u32) | bits(w, 11, 7)
}

/// U-type: bits `[31:12]` of the word in place, the low 12 bits clear.
pub open spec fn u_immd(w: u32) -> u32 {
    bits(w, 31, 12) << 12u32
}

/// B-type: bit 31 at 12, bit 7 at 11, bits `[30:25]` at `[10:5]`,
/// bits `[11:8]` at `[4:1]`, bit 0 clear.
pub open spec fn b_immd_zex(w: u32) -> u32 {
    (bits(w, 31, 31) << 12u32) | (bits(w, 7, 7) << 11u32) | (bits(w, 30, 25) << 5u32) | (bits(
        w,
        11,
        8,
    ) << 1u32)
}

/// J-type: bit 31 at 20, bits `[19:12]` in place, bit 20 at 11,
/// bits `[30:21]` at `[10:1]`, bit 0 clear.
pub open spec fn j_immd_zex(w: u32) -> u32 {
    (bits(w, 31, 31) << 20u32) | (bits(w, 19, 12) << 12u32) | (bits(w, 20, 20) << 11u32) | (bits(
        w,
        30,
        21,
    ) << 1u32)
}

/// Zero-extended I-type immediate of the word `w`.
pub fn to_i_immd_zex(w: u32) -> (r: u32)
    ensures
        r == i_immd_zex(w),
{
    assert((w >> 20) & 0xfff == bits(w, 31, 20)) by (bit_vector);
    (w >> 20) & 0xfff
}

/// Sign extension of a 12-bit immediate (I-type and S-type): when bit 11 of
/// `e` is set, every bit from 12 up is set too.
pub fn to_i_immd_sex(e: u32) -> (r: u32)
    ensures
        r == sign_extend(e, 11),
{
    assert(((e & 0x800) > 0) == (bits(e, 11, 11) == 1)) by (bit_vector);
    assert((e & 0x800) > 0 ==> 0xffff_f000 | e == e | (0xffff_ffffu32 << 11u32)) by (bit_vector);
    if (e & 0x800) > 0 {
        0xffff_f000 | e
    } else {
        e
    }
}

/// Zero-extended S-type immediate of the word `w`.
pub fn to_s_immd_zex(w: u32) -> (r: u32)
    ensures
        r == s_immd_zex(w),
{
    assert((((w >> 25) & 0x7f) << 5u32) | ((w >> 7) & 0x1f) == s_immd_zex(w)) by (bit_vector);
    (((w >> 25) & 0x7f) << 5) | ((w >> 7) & 0x1f)
}

/// U-type immediate of the word `w`; the format needs no sign extension.
pub fn to_u_immd(w: u32) -> (r: u32)
    ensures
        r == u_immd(w),
{
    assert(((w >> 12) & 0xfffff) << 12u32 == u_immd(w)) by (bit_vector);
    ((w >> 12) & 0xfffff) << 12
}

/// Zero-extended B-type immediate of the word `w`.
pub fn to_b_immd_zex(w: u32) -> (r: u32)
    ensures
        r == b_immd_zex(w),
{
    assert((((w >> 31) & 1) << 12u32) | (((w >> 7) & 1) << 11u32) | (((w >> 25) & 0x3f) << 5u32)
        | (((w >> 8) & 0xf) << 1u32) == b_immd_zex(w)) by (bit_vector);
    (((w >> 31) & 1) << 12) | (((w >> 7) & 1) << 11) | (((w >> 25) & 0x3f) << 5) | (((w >> 8)
        & 0xf) << 1)
}

/// Sign extension of a 13-bit branch offset: when bit 12 of `e` is set,
/// every bit from 13 up is set too.
pub fn to_b_immd_sex(e: u32) -> (r: u32)
    ensures
        r == sign_extend(e, 12),
{
    assert(((e & 0x1000) > 0) == (bits(e, 12, 12) == 1)) by (bit_vector);
    assert((e & 0x1000) > 0 ==> 0xffff_e000 | e == e | (0xffff_ffffu32 << 12u32)) by (bit_vector);
    if (e & 0x1000) > 0 {
        0xffff_e000 | e
    } else {
        e
    }
}

/// Zero-extended J-type immediate of the word `w`.
pub fn to_j_immd_zex(w: u32) -> (r: u32)
    ensures
        r == j_immd_zex(w),
{
    assert((((w >> 31) & 1) << 20u32) | (((w >> 12) & 0xff) << 12u32) | (((w >> 20) & 1) << 11u32)
        | (((w >> 21) & 0x3ff) << 1u32) == j_immd_zex(w)) by (bit_vector);
    (((w >> 31) & 1) << 20) | (((w >> 12) & 0xff) << 12) | (((w >> 20) & 1) << 11) | (((w >> 21)
        & 0x3ff) << 1)
}

/// Sign extension of a 21-bit jump offset: when bit 20 of `e` is set,
/// every bit from 21 up is set too.
pub fn to_j_immd_sex(e: u32) -> (r: u32)
    ensures
        r == sign_extend(e, 20),
{
    assert(((e & 0x10_0000) > 0) == (bits(e, 20, 20) == 1)) by (bit_vector);
    assert((e & 0x10_0000) > 0 ==> 0xffe0_0000 | e == e | (0xffff_ffffu32 << 20u32))
        by (bit_vector);
    if (e & 0x10_0000) > 0 {
        0xffe0_0000 | e
    } else {
        e
    }
}

/// Sign extension of a 12-bit value leaves it as it is when bit 11 is clear
/// and sets bits 12 to 31 when bit 11 is set, so that the word read as a
/// signed integer is the two's-complement value of the 12 bits.
pub proof fn lemma_sign_extend_12(v: u32)
    by (bit_vector)
    requires
        v < 0x1000,
    ensures
        v & 0x800 == 0 ==> sign_extend(v, 11) == v,
        v & 0x800 != 0 ==> sign_extend(v, 11) == v | 0xffff_f000,
        v < 0x800 ==> sign_extend(v, 11) as i32 == v as i32,
        v >= 0x800 ==> sign_extend(v, 11) as i32 == (v as int - 0x1000) as i32,
{
}

/// Branch and jump offsets are even: bit 0 of the B-type and J-type
/// immediates is clear, zero-extended and sign-extended alike.
pub proof fn lemma_branch_jump_offsets_even(w: u32)
    by (bit_vector)
    ensures
        b_immd_zex(w) & 1 == 0,
        j_immd_zex(w) & 1 == 0,
        sign_extend(b_immd_zex(w), 12) & 1 == 0,
        sign_extend(j_immd_zex(w), 20) & 1 == 0,
{
}

/// The low 12 bits of a U-type immediate are clear.
pub proof fn lemma_upper_immediate_low_bits_clear(w: u32)
    by (bit_vector)
    ensures
        u_immd(w) & 0xfff == 0,
{
}

} // verus!
