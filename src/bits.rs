//! Bitmaps over `usize`: bit tests, population count and the mask that keeps
//! the lowest set bits.
use vstd::prelude::*;

verus! {

/// Bit `i` of `x` (bits at or above 64 are clear).
pub open spec fn bit_of(x: u64, i: int) -> bool {
    0 <= i < 64 && (x >> (i as u64)) & 1 == 1
}

/// Number of set bits of `x`.
pub open spec fn popcount(x: nat) -> nat
    decreases x,
{
    if x == 0 {
        0
    } else {
        (x % 2) + popcount(x / 2)
    }
}

/// `x` with all but its `n` lowest set bits cleared.
pub open spec fn lowest_bits(x: nat, n: nat) -> nat
    decreases x,
{
    if x == 0 || n == 0 {
        0
    } else if x % 2 == 1 {
        1 + 2 * lowest_bits(x / 2, (n - 1) as nat)
    } else {
        2 * lowest_bits(x / 2, n)
    }
}

pub open spec fn min_nat(a: nat, b: nat) -> nat {
    if a <= b {
        a
    } else {
        b
    }
}

/// Keeping the lowest bits never grows the value.
pub proof fn lemma_lowest_bits_le(x: nat, n: nat)
    ensures
        lowest_bits(x, n) <= x,
    decreases x,
{
    if x != 0 && n != 0 {
        if x % 2 == 1 {
            lemma_lowest_bits_le(x / 2, (n - 1) as nat);
        } else {
            lemma_lowest_bits_le(x / 2, n);
        }
    }
}

/// Keeping the `n` lowest set bits leaves `min(n, popcount(x))` bits set.
pub proof fn lemma_popcount_lowest_bits(x: nat, n: nat)
    ensures
        popcount(lowest_bits(x, n)) == min_nat(n, popcount(x)),
    decreases x,
{
    if x == 0 {
    } else if n == 0 {
    } else if x % 2 == 1 {
        let l = lowest_bits(x / 2, (n - 1) as nat);
        lemma_popcount_lowest_bits(x / 2, (n - 1) as nat);
        assert((1 + 2 * l) / 2 == l && (1 + 2 * l) % 2 == 1);
    } else {
        let l = lowest_bits(x / 2, n);
        lemma_popcount_lowest_bits(x / 2, n);
        assert((2 * l) / 2 == l && (2 * l) % 2 == 0);
        if l == 0 {
            assert(2 * l == 0);
        }
    }
}

/// The population count never exceeds the value itself.
pub proof fn lemma_popcount_le(x: nat)
    ensures
        popcount(x) <= x,
    decreases x,
{
    if x != 0 {
        lemma_popcount_le(x / 2);
    }
}

/// The population count of a bitmap (`count_ones`).
pub fn count_ones(x: usize) -> (r: usize)
    ensures
        r == popcount(x as nat),
{
    let mut y: usize = x;
    let mut c: usize = 0;
    proof {
        lemma_popcount_le(x as nat);
    }
    while y != 0
        invariant
            popcount(x as nat) == c + popcount(y as nat),
            popcount(x as nat) <= x,
        decreases y,
    {
        c = c + y % 2;
        y = y / 2;
    }
    c
}

/// `x` with all but its `n` lowest set bits cleared.
pub fn keep_lowest_bits(x: usize, n: usize) -> (r: usize)
    ensures
        r == lowest_bits(x as nat, n as nat),
    decreases x,
{
    proof {
        lemma_lowest_bits_le(x as nat, n as nat);
    }
    if x == 0 || n == 0 {
        0
    } else if x % 2 == 1 {
        let l = keep_lowest_bits(x / 2, n - 1);
        1 + 2 * l
    } else {
        let l = keep_lowest_bits(x / 2, n);
        2 * l
    }
}

/// Whether bit `i` of `x` is set.
pub fn test_bit(x: usize, i: usize) -> (r: bool)
    ensures
        r == bit_of(x as u64, i as int),
{
    i < 64 && ((x as u64) >> (i as u64)) & 1 == 1
}

/// Setting bit `p` of `acc` sets bit `p` and leaves every other bit alone.
pub proof fn lemma_set_bit(acc: u64, p: u64, q: u64)
    requires
        p < 64,
        q < 64,
    ensures
        ((acc | (1u64 << p)) >> q) & 1 == 1 <==> (((acc >> q) & 1 == 1) || q == p),
{
    assert(((acc | (1u64 << p)) >> q) & 1 == 1 <==> (((acc >> q) & 1 == 1) || q == p))
        by (bit_vector)
        requires
            p < 64,
            q < 64,
    ;
}

/// No bit of 0 is set.
pub proof fn lemma_zero_bits(q: u64)
    requires
        q < 64,
    ensures
        (0u64 >> q) & 1 != 1,
{
    assert((0u64 >> q) & 1 != 1) by (bit_vector);
}

} // verus!
