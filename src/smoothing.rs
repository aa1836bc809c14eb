//! The diminishing-returns level that turns a raw reputation into a
//! multiplier for action weights.
use vstd::arithmetic::power2::{lemma2_to64, lemma_pow2_strictly_increases, lemma_pow2_unfold, pow2};
use vstd::prelude::*;

verus! {

/// The floor of the base-two logarithm (zero for zero and one).
pub open spec fn log2(x: nat) -> nat
    decreases x,
{
    if x <= 1 {
        0
    } else {
        1 + log2(x / 2)
    }
}

/// The level of a reputation: one more than its base-two logarithm, and one
/// for a reputation of zero.
pub open spec fn smooth(reputation: u32) -> u8 {
    if reputation == 0 {
        1
    } else {
        (log2(reputation as nat) + 1) as u8
    }
}

/// `log2` brackets its argument between two consecutive powers of two.
pub proof fn lemma_log2_bounds(x: nat)
    requires
        x >= 1,
    ensures
        pow2(log2(x)) <= x < pow2(log2(x) + 1),
    decreases x,
{
    if x <= 1 {
        lemma2_to64();
    } else {
        lemma_log2_bounds(x / 2);
        lemma_pow2_unfold(log2(x / 2) + 1);
        lemma_pow2_unfold(log2(x / 2) + 2);
    }
}

/// A 32-bit value has a logarithm of at most 31.
pub proof fn lemma_log2_u32(x: u32)
    requires
        x >= 1,
    ensures
        log2(x as nat) <= 31,
{
    lemma_log2_bounds(x as nat);
    lemma2_to64();
    if log2(x as nat) > 31 {
        if log2(x as nat) > 32 {
            lemma_pow2_strictly_increases(32, log2(x as nat));
        }
    }
}

/// A level lies between one and 32.
pub proof fn lemma_smooth_bounds(reputation: u32)
    ensures
        1 <= smooth(reputation) <= 32,
{
    if reputation > 0 {
        lemma_log2_u32(reputation);
    }
}

/// The floor of the base-two logarithm, or `None` for zero.
pub fn log_2(x: u32) -> (r: Option<u32>)
    ensures
        x == 0 ==> r is None,
        x > 0 ==> r == Some(log2(x as nat) as u32),
{
    if x == 0 {
        return None;
    }
    let mut y: u32 = x;
    let mut n: u32 = 0;
    proof {
        lemma_log2_u32(x);
    }
    while y > 1
        invariant
            y >= 1,
            log2(x as nat) == n + log2(y as nat),
            log2(x as nat) <= 31,
        decreases y,
    {
        y = y / 2;
        n = n + 1;
    }
    Some(n)
}

/// Scales a reputation to its level (see `smooth`): one level per doubling,
/// with the position inside the doubling truncated away.
pub fn smooth_reputation(reputation: u32) -> (r: u8)
    ensures
        r == smooth(reputation),
        1 <= r <= 32,
{
    match log_2(reputation) {
        None => 1,
        Some(k) => {
            proof {
                lemma_log2_bounds(reputation as nat);
                lemma_log2_u32(reputation);
                lemma2_to64();
            }
            let mut p: u64 = 1;
            let mut i: u32 = 0;
            while i < k
                invariant
                    i <= k,
                    k <= 31,
                    p == pow2(i as nat),
                    k == log2(reputation as nat),
                decreases k - i,
            {
                proof {
                    lemma_pow2_unfold((i + 1) as nat);
                    lemma_pow2_strictly_increases((i + 1) as nat, 32);
                    lemma2_to64();
                }
                p = p * 2;
                i = i + 1;
            }
            proof {
                lemma_pow2_unfold((k + 1) as nat);
            }
            let x: u64 = reputation as u64;
            assert(p <= x && x < 2 * p);
            let d: u64 = (x - p) * 100 / p;
            assert(d < 100) by (nonlinear_arith)
                requires
                    d as int == ((x - p) as int * 100) / (p as int),
                    0 <= x - p < p,
            ;
            let level: u32 = ((k + 1) * 100 + d as u32) / 100;
            assert(level == k + 1) by (nonlinear_arith)
                requires
                    level as int == ((k + 1) as int * 100 + d as int) / 100,
                    d < 100,
            ;
            level as u8
        },
    }
}

} // verus!
