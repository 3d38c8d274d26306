//! Integer helpers: rounding up to a multiple, base-2 logarithms.
use vstd::arithmetic::power2::{lemma2_to64, lemma_pow2_unfold, pow2};
use vstd::prelude::*;

verus! {

/// The least multiple of `m` that is not below `x`.
pub open spec fn round_up(x: int, m: int) -> int {
    if x % m == 0 {
        x
    } else {
        x + (m - x % m)
    }
}

/// What rounding up gives: a multiple of `m`, not below `x`, less than `m` above it.
pub proof fn lemma_round_up(x: int, m: int)
    requires
        x >= 0,
        m > 0,
    ensures
        round_up(x, m) % m == 0,
        x <= round_up(x, m) < x + m,
{
    vstd::arithmetic::div_mod::lemma_fundamental_div_mod(x, m);
    let r = x % m;
    let q = x / m;
    if r != 0 {
        assert(x + (m - r) == (q + 1) * m) by (nonlinear_arith)
            requires x == m * q + r;
        vstd::arithmetic::div_mod::lemma_mod_multiples_basic(q + 1, m);
    }
}

/// `x` rounded up to a multiple of `m`, or `None` where `m` is zero or the
/// result does not fit in a `u64`.
pub fn checked_next_multiple_of(x: u64, m: u64) -> (r: Option<u64>)
    ensures
        r == (if m > 0 && round_up(x as int, m as int) <= u64::MAX {
            Some(round_up(x as int, m as int) as u64)
        } else {
            None
        }),
{
    if m == 0 {
        return None;
    }
    let rem = x % m;
    if rem == 0 {
        Some(x)
    } else {
        x.checked_add(m - rem)
    }
}

/// The integer base-2 logarithm of `x`, for `x >= 1`.
pub open spec fn log2(x: nat) -> nat
    decreases x,
{
    if x <= 1 {
        0
    } else {
        1 + log2(x / 2)
    }
}

proof fn lemma_log2_below(x: nat, k: nat)
    requires
        1 <= x < pow2(k),
    ensures
        log2(x) < k,
    decreases k,
{
    if k == 0 {
        lemma2_to64();
    } else if x > 1 {
        lemma_pow2_unfold(k);
        lemma_log2_below(x / 2, (k - 1) as nat);
    }
}

/// The integer base-2 logarithm of a positive `u16`.
pub fn ilog2(x: u16) -> (r: u8)
    requires
        x > 0,
    ensures
        r == log2(x as nat),
        r < 16,
{
    proof {
        lemma2_to64();
        lemma_log2_below(x as nat, 16);
    }
    let mut v: u16 = x;
    let mut n: u8 = 0;
    while v > 1
        invariant
            v >= 1,
            n + log2(v as nat) == log2(x as nat),
            log2(x as nat) < 16,
        decreases v,
    {
        v = v / 2;
        n = n + 1;
    }
    n
}

} // verus!
