//! Powers of two and the heights of the trees that they span.

use vstd::prelude::*;

verus! {

/// Two to the power of `k`.
pub open spec fn power2(k: nat) -> nat
    decreases k,
{
    if k == 0 {
        1
    } else {
        2 * power2((k - 1) as nat)
    }
}

/// The exponent of `n`, where it is a power of two.
pub open spec fn exact_log2(n: nat) -> Option<nat>
    decreases n,
{
    if n == 1 {
        Some(0)
    } else if n > 0 && n % 2 == 0 {
        match exact_log2(n / 2) {
            Some(k) => Some(k + 1),
            None => None,
        }
    } else {
        None
    }
}

/// The height of the smallest perfect binary tree with at least `n` leaves.
pub open spec fn tree_height(n: nat) -> nat
    decreases n,
{
    if n <= 1 {
        0
    } else {
        1 + tree_height((n + 1) / 2)
    }
}

pub proof fn lemma_power2_positive(k: nat)
    ensures
        power2(k) >= 1,
    decreases k,
{
    if k > 0 {
        lemma_power2_positive((k - 1) as nat);
    }
}

pub proof fn lemma_power2_monotone(a: nat, b: nat)
    requires
        a <= b,
    ensures
        power2(a) <= power2(b),
    decreases b,
{
    if a < b {
        lemma_power2_monotone(a, (b - 1) as nat);
        lemma_power2_positive((b - 1) as nat);
    }
}

pub proof fn lemma_power2_sum(a: nat, b: nat)
    ensures
        power2(a + b) == power2(a) * power2(b),
    decreases a,
{
    if a == 0 {
        assert(power2(a) == 1);
        assert(power2(a) * power2(b) == power2(b)) by (nonlinear_arith)
            requires
                power2(a) == 1,
        ;
    } else {
        lemma_power2_sum((a - 1) as nat, b);
        assert(power2(a) * power2(b) == 2 * (power2((a - 1) as nat) * power2(b)))
            by (nonlinear_arith)
            requires
                power2(a) == 2 * power2((a - 1) as nat),
        ;
        assert((a + b - 1) as nat == (a - 1) as nat + b);
    }
}

/// The exponent that `exact_log2` finds is the exponent.
pub proof fn lemma_exact_log2(n: nat)
    ensures
        exact_log2(n) matches Some(k) ==> power2(k) == n,
    decreases n,
{
    if n > 1 && n % 2 == 0 {
        lemma_exact_log2(n / 2);
    }
}

/// Every power of two has its exponent.
pub proof fn lemma_log2_of_power(k: nat)
    ensures
        exact_log2(power2(k)) == Some(k),
    decreases k,
{
    if k > 0 {
        lemma_log2_of_power((k - 1) as nat);
        lemma_power2_positive((k - 1) as nat);
        let p = power2((k - 1) as nat);
        assert(power2(k) == 2 * p);
        assert((2 * p) % 2 == 0 && (2 * p) / 2 == p);
    }
}

/// The height is the least one that suffices.
pub proof fn law_tree_height_is_least(n: nat)
    ensures
        power2(tree_height(n)) >= n,
        tree_height(n) > 0 ==> power2((tree_height(n) - 1) as nat) < n,
    decreases n,
{
    if n > 1 {
        law_tree_height_is_least((n + 1) / 2);
        let h = tree_height((n + 1) / 2);
        assert(tree_height(n) == h + 1);
        assert(power2(h + 1) == 2 * power2(h));
        if h > 0 {
            assert(power2(h) == 2 * power2((h - 1) as nat));
        }
    }
}

/// No lower tree has enough leaves.
pub proof fn lemma_tree_height_at_most(n: nat, k: nat)
    requires
        power2(k) >= n,
    ensures
        tree_height(n) <= k,
{
    law_tree_height_is_least(n);
    if tree_height(n) > k {
        lemma_power2_monotone(k, (tree_height(n) - 1) as nat);
    }
}

/// The exponent of a number, where it is a power of two.
pub fn log2(n: u64) -> (r: Option<u32>)
    ensures
        match exact_log2(n as nat) {
            Some(k) => r == Some(k as u32) && k <= 63,
            None => r is None,
        },
{
    if n == 0 {
        return None;
    }
    proof {
        lemma_power2_64();
        lemma_halvings(n as nat, 63);
    }
    let mut rest: u64 = n;
    let mut k: u32 = 0;
    while rest % 2 == 0
        invariant
            rest > 0,
            k + exact_log2_bound(rest as nat) <= 63,
            match exact_log2(rest as nat) {
                Some(j) => exact_log2(n as nat) == Some((j + k) as nat),
                None => exact_log2(n as nat) is None,
            },
        decreases rest,
    {
        rest = rest / 2;
        k = k + 1;
    }
    if rest == 1 {
        Some(k)
    } else {
        None
    }
}

/// How often a number can be halved at most.
spec fn exact_log2_bound(n: nat) -> nat
    decreases n,
{
    if n <= 1 {
        0
    } else {
        1 + exact_log2_bound(n / 2)
    }
}

proof fn lemma_halvings(n: nat, k: nat)
    requires
        n < power2(k + 1),
    ensures
        exact_log2_bound(n) <= k,
    decreases k,
{
    if n > 1 {
        if k == 0 {
            assert(power2(1) == 2 * power2(0));
        } else {
            assert(power2(k + 1) == 2 * power2(k));
            lemma_halvings(n / 2, (k - 1) as nat);
        }
    }
}

/// The height of the smallest perfect binary tree with at least `n` leaves.
pub fn height_for(n: u64) -> (r: u32)
    ensures
        r == tree_height(n as nat),
        r <= 64,
{
    proof {
        lemma_power2_64();
        lemma_tree_height_at_most(n as nat, 64);
    }
    let mut rest: u64 = n;
    let mut h: u32 = 0;
    while rest > 1
        invariant
            h + tree_height(rest as nat) == tree_height(n as nat),
            tree_height(n as nat) <= 64,
        decreases rest,
    {
        rest = rest / 2 + rest % 2;
        h = h + 1;
    }
    h
}

/// Two to the power of `k`.
pub fn power_of_two(k: u32) -> (r: u64)
    requires
        k <= 63,
    ensures
        r == power2(k as nat),
{
    let mut i: u32 = 0;
    let mut p: u64 = 1;
    proof {
        lemma_power2_64();
        assert(power2(64) == 2 * power2(63));
        assert(power2(63) == 0x8000_0000_0000_0000);
        assert(power2(0) == 1);
    }
    while i < k
        invariant
            i <= k <= 63,
            p == power2(i as nat),
            power2(63) == 0x8000_0000_0000_0000,
        decreases k - i,
    {
        proof {
            lemma_power2_monotone((i + 1) as nat, 63);
        }
        p = p * 2;
        i = i + 1;
    }
    p
}

/// The first power of two that does not fit in 64 bits.
pub proof fn lemma_power2_64()
    ensures
        power2(64) == 0x1_0000_0000_0000_0000,
{
    reveal_with_fuel(power2, 33);
    assert(power2(32) == 0x1_0000_0000);
    assert(power2(64) == power2(32) * 0x1_0000_0000);
}

} // verus!
