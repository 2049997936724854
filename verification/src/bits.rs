//! Shared bit-level facts: power-of-two masking, wrapping addition, and the
//! sign-extension of the immediates and displacements the V810 uses.

use vstd::prelude::*;

verus! {

/// `n` is a power of two.
pub open spec fn is_pow2_u32(n: u32) -> bool {
    n != 0 && n & ((n - 1) as u32) == 0
}

/// 32-bit addition that wraps around on overflow.
pub open spec fn wrap_add32(a: u32, b: u32) -> u32 {
    if a + b > 0xffffffff {
        (a + b - 0x100000000) as u32
    } else {
        (a + b) as u32
    }
}

/// 32-bit subtraction that wraps around on underflow.
pub open spec fn wrap_sub32(a: u32, b: u32) -> u32 {
    if a - b < 0 {
        (a - b + 0x100000000) as u32
    } else {
        (a - b) as u32
    }
}

/// A 5-bit immediate sign-extended to 32 bits.
pub open spec fn sext5(imm5: u16) -> u32 {
    if imm5 & 0x10 != 0 {
        ((imm5 & 0x1f) as u32) | 0xffffffe0
    } else {
        (imm5 & 0x1f) as u32
    }
}

/// A 16-bit immediate sign-extended to 32 bits.
pub open spec fn sext16(imm16: u16) -> u32 {
    if imm16 & 0x8000 != 0 {
        (imm16 as u32) | 0xffff0000
    } else {
        imm16 as u32
    }
}

/// The 9-bit branch displacement sign-extended to 32 bits, low bit cleared.
pub open spec fn branch_disp9(h: u16) -> u32 {
    if h & 0x100 != 0 {
        ((h & 0x1fe) as u32) | 0xfffffe00
    } else {
        (h & 0xfe) as u32
    }
}

/// The two 5-bit register fields of a halfword index one of the 32
/// general-purpose registers.
pub proof fn lemma_reg_fields(h: u16)
    by (bit_vector)
    ensures
        h & 0x1f < 32,
        (h >> 5) & 0x1f < 32,
{
}

/// Masking by `size - 1` keeps an offset below a power-of-two `size`.
pub proof fn lemma_pow2_mask_bound(a: u32, size: u32)
    by (bit_vector)
    requires
        size != 0,
        size & ((size - 1) as u32) == 0,
    ensures
        a & ((size - 1) as u32) < size,
{
}

/// An offset with bit 0 cleared stays one short of a power-of-two `size`
/// after masking, so the following byte is in bounds too.
pub proof fn lemma_pow2_mask_even(a: u32, size: u32)
    by (bit_vector)
    requires
        size >= 2,
        size & ((size - 1) as u32) == 0,
    ensures
        ((a & 0xfffffffe) & ((size - 1) as u32)) + 1 < size,
{
}

/// Adding a power-of-two `size` to an offset does not change the offset's
/// wrap-masked value.
pub proof fn lemma_pow2_mask_wraps(a: u32, size: u32)
    by (bit_vector)
    requires
        size != 0,
        size & ((size - 1) as u32) == 0,
    ensures
        wrap_add32(a, size) & ((size - 1) as u32) == a & ((size - 1) as u32),
{
}

} // verus!
