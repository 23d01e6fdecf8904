use vstd::prelude::*;
use vstd::arithmetic::power2::{lemma2_to64, pow2};
use vstd::bits::{
    lemma_u32_low_bits_mask_is_mod, lemma_u32_pow2_no_overflow, lemma_u32_shl_is_mul,
    low_bits_mask,
};

verus! {

/// The bits of `value` below position `k`: `value` modulo two to the power
/// `k`. From position 16 on that is all of `value`.
pub open spec fn low_bits(value: u16, k: nat) -> u16 {
    if k == 0 {
        0
    } else if k == 1 {
        value % 0x2
    } else if k == 2 {
        value % 0x4
    } else if k == 3 {
        value % 0x8
    } else if k == 4 {
        value % 0x10
    } else if k == 5 {
        value % 0x20
    } else if k == 6 {
        value % 0x40
    } else if k == 7 {
        value % 0x80
    } else if k == 8 {
        value % 0x100
    } else if k == 9 {
        value % 0x200
    } else if k == 10 {
        value % 0x400
    } else if k == 11 {
        value % 0x800
    } else if k == 12 {
        value % 0x1000
    } else if k == 13 {
        value % 0x2000
    } else if k == 14 {
        value % 0x4000
    } else if k == 15 {
        value % 0x8000
    } else {
        value
    }
}

/// The bits of `value` from position `lo` up to, not including, position `hi`,
/// left where they stand, every other bit cleared.
pub open spec fn bit_window(value: u16, lo: nat, hi: nat) -> int {
    low_bits(value, hi) - low_bits(value, lo)
}

/// Where a field of `n` nibbles that starts at bit `offset` ends in a 16-bit word.
pub open spec fn window_end(n: nat, offset: nat) -> nat {
    if offset + 4 * n > 16 {
        16
    } else {
        offset + 4 * n
    }
}

/// The mask of `n` nibbles, moved up by `offset` bits, keeps what is below
/// position `hi` and not below position `offset`.
proof fn lemma_mask_is_window(value: u16, n: u16, offset: u16, hi: u16)
    by (bit_vector)
    requires
        1 <= n <= 4,
        offset < 16,
        hi == if offset + 4 * n > 16 {
            16u16
        } else {
            (offset + 4 * n) as u16
        },
    ensures
        (value & ((0xFFFFu16 >> ((16 - n * 4) as u16)) << offset)) as u32 == ((value as u32)
            & (((1u32 << (hi as u32)) - 1) as u32)) - ((value as u32) & (((1u32 << (
        offset as u32)) - 1) as u32)),
{
}

/// Masking with the `k` lowest bits is taking the remainder modulo two to the
/// power `k`.
proof fn lemma_low_mask_is_low_bits(value: u16, k: u32)
    requires
        k <= 16,
    ensures
        (value as u32) & (((1u32 << k) - 1) as u32) == low_bits(value, k as nat),
{
    let wide = value as u32;
    let modulus = pow2(k as nat) as u32;
    lemma_u32_pow2_no_overflow(k as nat);
    lemma_u32_shl_is_mul(1u32, k);
    assert(((1u32 << k) - 1) as u32 == low_bits_mask(k as nat) as u32);
    lemma_u32_low_bits_mask_is_mod(wide, k as nat);
    assert(wide & (((1u32 << k) - 1) as u32) == wide % modulus);
    lemma2_to64();
    if k == 0 {
        assert(modulus == 0x1 && wide % 0x1 == 0);
    } else if k == 1 {
        assert(modulus == 0x2);
    } else if k == 2 {
        assert(modulus == 0x4);
    } else if k == 3 {
        assert(modulus == 0x8);
    } else if k == 4 {
        assert(modulus == 0x10);
    } else if k == 5 {
        assert(modulus == 0x20);
    } else if k == 6 {
        assert(modulus == 0x40);
    } else if k == 7 {
        assert(modulus == 0x80);
    } else if k == 8 {
        assert(modulus == 0x100);
    } else if k == 9 {
        assert(modulus == 0x200);
    } else if k == 10 {
        assert(modulus == 0x400);
    } else if k == 11 {
        assert(modulus == 0x800);
    } else if k == 12 {
        assert(modulus == 0x1000);
    } else if k == 13 {
        assert(modulus == 0x2000);
    } else if k == 14 {
        assert(modulus == 0x4000);
    } else if k == 15 {
        assert(modulus == 0x8000);
    } else {
        assert(modulus == 0x10000 && wide % 0x10000 == wide);
    }
}

/// Keeps a field of `n` nibbles of `value`, the lowest of its bits at position
/// `offset`, and clears the rest; the field is not moved down.
pub fn n_nibbles(value: u16, n: usize, offset: usize) -> (field: u16)
    requires
        1 <= n <= 4,
        offset < 16,
    ensures
        field == bit_window(value, offset as nat, window_end(n as nat, offset as nat)),
{
    proof {
        let hi = window_end(n as nat, offset as nat);
        lemma_mask_is_window(value, n as u16, offset as u16, hi as u16);
        lemma_low_mask_is_low_bits(value, hi as u32);
        lemma_low_mask_is_low_bits(value, offset as u32);
    }
    value & ((0xFFFFu16 >> (16 - n * 4)) << offset)
}

} // verus!
