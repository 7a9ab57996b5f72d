//! Powers of two and small modular-arithmetic lemmas shared by the
//! protocol stages.

use crate::curve25519::group_order;
use vstd::prelude::*;

verus! {

/// `2^k`.
pub open spec fn pow2(k: nat) -> nat
    decreases k,
{
    if k == 0 {
        1
    } else {
        2 * pow2((k - 1) as nat)
    }
}

/// Whether `n` is a power of two.
pub open spec fn is_pow2(n: nat) -> bool
    decreases n,
{
    if n == 0 {
        false
    } else if n == 1 {
        true
    } else {
        n % 2 == 0 && is_pow2(n / 2)
    }
}

/// The floor of the base-two logarithm.
pub open spec fn lg(n: nat) -> nat
    decreases n,
{
    if n <= 1 {
        0
    } else {
        (1 + lg(n / 2)) as nat
    }
}

pub proof fn lemma_pow2_pos(k: nat)
    ensures
        pow2(k) >= 1,
    decreases k,
{
    if k > 0 {
        lemma_pow2_pos((k - 1) as nat);
    }
}

/// A positive power of two is even.
pub proof fn lemma_pow2_even(k: nat)
    ensures
        k > 0 ==> pow2(k) % 2 == 0,
    decreases k,
{
    if k > 0 {
        lemma_pow2_pos((k - 1) as nat);
    }
}

/// Decides whether `m` is exactly `2^k`.
pub fn eq_pow2(m: usize, k: usize) -> (r: bool)
    ensures
        r == (m as nat == pow2(k as nat)),
{
    let mut mm = m;
    let mut kk = k;
    while kk > 0 && mm % 2 == 0
        invariant
            (m as nat == pow2(k as nat)) == (mm as nat == pow2(kk as nat)),
            mm <= m,
            kk <= k,
        decreases kk,
    {
        mm = mm / 2;
        kk = kk - 1;
        proof {
            lemma_pow2_pos(kk as nat);
        }
    }
    proof {
        if kk > 0 {
            lemma_pow2_even(kk as nat);
            lemma_pow2_pos(kk as nat);
        }
    }
    mm == 1 && kk == 0
}

pub proof fn lemma_order_pos()
    ensures
        group_order() >= 2,
{
    vstd::arithmetic::power2::lemma_pow2_pos(252);
}

/// Dropping an already-reduced right summand's reduction.
pub proof fn lemma_mod_add_right(x: nat, y: nat)
    ensures
        (x + y % group_order()) % group_order() == (x + y) % group_order(),
{
    lemma_order_pos();
    vstd::arithmetic::div_mod::lemma_add_mod_noop_right(
        x as int,
        y as int,
        group_order() as int,
    );
}

/// A reduced value is below the order.
pub proof fn lemma_mod_below_order(x: nat)
    ensures
        x % group_order() < group_order(),
{
    lemma_order_pos();
    vstd::arithmetic::div_mod::lemma_mod_bound(x as int, group_order() as int);
}

} // verus!
