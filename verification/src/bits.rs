//! Bit rotation and counting on words, as the processor's barrel shifter and
//! register lists use them.

use vstd::prelude::*;

verus! {

/// `x` rotated right by `n` places (modulo 32).
pub open spec fn spec_ror(x: u32, n: u32) -> u32 {
    let k = n % 32;
    if k == 0 { x } else { (x >> k) | (x << ((32 - k) as u32)) }
}

/// Rotates a word right.
pub fn ror(x: u32, n: u32) -> (r: u32)
    ensures r == spec_ror(x, n),
{
    let k = n % 32;
    if k == 0 { x } else { (x >> k) | (x << (32 - k)) }
}

/// The number of set bits among the low `n` bits of `x`.
pub open spec fn spec_count_ones(x: u32, n: nat) -> nat
    decreases n,
{
    if n == 0 {
        0
    } else {
        spec_count_ones(x, (n - 1) as nat) + (if (x >> (n - 1) as u32) & 1 == 1 { 1nat } else { 0nat })
    }
}

pub proof fn lemma_count_ones_bound(x: u32, n: nat)
    ensures spec_count_ones(x, n) <= n,
    decreases n,
{
    if n > 0 {
        lemma_count_ones_bound(x, (n - 1) as nat);
    }
}

/// The number of set bits of a word.
pub fn count_ones(x: u32) -> (r: u32)
    ensures r == spec_count_ones(x, 32),
{
    let mut count: u32 = 0;
    let mut i: u32 = 0;
    while i < 32
        invariant
            i <= 32,
            count == spec_count_ones(x, i as nat),
        decreases 32 - i,
    {
        proof { lemma_count_ones_bound(x, i as nat); }
        if (x >> i) & 1 == 1 {
            count += 1;
        }
        i += 1;
    }
    count
}

/// A bitwise and is at most either of its operands.
pub proof fn lemma_and_bound_u32(x: u32, m: u32)
    by (bit_vector)
    ensures
        x & m <= m,
        x & m <= x,
{
}

/// A bitwise and is at most either of its operands.
pub proof fn lemma_and_bound_u16(x: u16, m: u16)
    by (bit_vector)
    ensures
        x & m <= m,
        x & m <= x,
{
}

/// A bitwise and is at most either of its operands.
pub proof fn lemma_and_bound_u8(x: u8, m: u8)
    by (bit_vector)
    ensures
        x & m <= m,
        x & m <= x,
{
}

/// Shifting a small halfword left by one or two places doubles or quadruples it.
pub proof fn lemma_shl_small_u16(x: u16)
    by (bit_vector)
    requires
        x <= 0x7FF,
    ensures
        x << 1u16 == x * 2,
        x << 2u16 == x * 4,
{
}

/// Shifting a small word left by one or two places doubles or quadruples it.
pub proof fn lemma_shl_small_u32(x: u32)
    by (bit_vector)
    requires
        x <= 0xFFFF,
    ensures
        x << 1u32 == x * 2,
        x << 2u32 == x * 4,
{
}

/// The top four bits of a word, as the condition field of an ARM opcode.
pub proof fn lemma_top_nibble(x: u32)
    by (bit_vector)
    ensures
        x >> 28u32 < 16,
{
}

} // verus!
