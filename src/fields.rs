//! The fixed-position bit fields that every instruction format shares.
use vstd::prelude::*;

verus! {

/// The value of bits `[hi:lo]` of `w`, shifted down to bit 0.
pub open spec fn bits(w: u32, hi: u32, lo: u32) -> u32
    recommends
        lo <= hi < 32,
{
    (w >> lo) & (0xffff_ffffu32 >> ((31 + lo - hi) as u32))
}

/// Bits `[6:0]`: selects the encoding family.
pub open spec fn opcode_of(w: u32) -> u32 {
    bits(w, 6, 0)
}

/// Bits `[11:7]`: the destination register.
pub open spec fn rd_of(w: u32) -> u32 {
    bits(w, 11, 7)
}

/// Bits `[14:12]`.
pub open spec fn funct3_of(w: u32) -> u32 {
    bits(w, 14, 12)
}

/// Bits `[19:15]`: the first source register.
pub open spec fn rs1_of(w: u32) -> u32 {
    bits(w, 19, 15)
}

/// Bits `[24:20]`: the second source register.
pub open spec fn rs2_of(w: u32) -> u32 {
    bits(w, 24, 20)
}

/// Bits `[30:25]`: the upper function code, without the top bit of the word.
pub open spec fn funct7_of(w: u32) -> u32 {
    bits(w, 30, 25)
}

} // verus!
