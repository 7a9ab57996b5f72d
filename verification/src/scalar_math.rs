//! Verified vector and matrix arithmetic over the scalar field: inner
//! products, Vandermonde challenge vectors, transposition and
//! matrix-vector products. These carry the constraint-batching stage and
//! the scalar half of the folding argument.

use crate::curve25519::group_order;
use crate::curve25519::sc_add;
use crate::curve25519::sc_mul;
use crate::curve25519::sc_one;
use crate::curve25519::sc_zero;
use crate::curve25519::scalar_val;
use crate::curve25519::vals;
use crate::math::lemma_mod_add_right;
use curve25519_dalek::scalar::Scalar;
use vstd::prelude::*;

verus! {

/// The inner product of two equal-length vectors of field values, reduced
/// modulo the group order.
pub open spec fn dot(a: Seq<nat>, b: Seq<nat>) -> nat
    decreases a.len(),
{
    if a.len() == 0 || b.len() == 0 {
        0
    } else {
        (dot(a.drop_last(), b.drop_last()) + a.last() * b.last()) % group_order()
    }
}

/// `b^e` modulo the group order.
pub open spec fn pow_mod(b: nat, e: nat) -> nat
    decreases e,
{
    if e == 0 {
        1
    } else {
        (b * pow_mod(b, (e - 1) as nat)) % group_order()
    }
}

/// Evaluates the linear form `a` at `b`: their inner product over the
/// scalar field.
pub fn compute_linearform(a: &Vec<Scalar>, b: &Vec<Scalar>) -> (r: Scalar)
    requires
        a@.len() == b@.len(),
    ensures
        scalar_val(r) == dot(vals(a@), vals(b@)),
{
    let mut acc = sc_zero();
    let mut i: usize = 0;
    while i < a.len()
        invariant
            a@.len() == b@.len(),
            i <= a@.len(),
            scalar_val(acc) == dot(vals(a@).take(i as int), vals(b@).take(i as int)),
        decreases a@.len() - i,
    {
        let t = sc_mul(&a[i], &b[i]);
        acc = sc_add(&acc, &t);
        proof {
            let va = vals(a@);
            let vb = vals(b@);
            assert(va.take(i + 1).drop_last() =~= va.take(i as int));
            assert(vb.take(i + 1).drop_last() =~= vb.take(i as int));
            lemma_mod_add_right(
                dot(va.take(i as int), vb.take(i as int)),
                va[i as int] * vb[i as int],
            );
        }
        i += 1;
    }
    proof {
        assert(vals(a@).take(a@.len() as int) =~= vals(a@));
        assert(vals(b@).take(b@.len() as int) =~= vals(b@));
    }
    acc
}

/// The Vandermonde vector `(1, rho, rho^2, ..., rho^(s-1))` of the
/// challenge `rho`, which batches `s` constraint rows into one.
pub fn vandemonde_challenge_one(rho: Scalar, s: usize) -> (r: Vec<Scalar>)
    ensures
        r@.len() == s,
        forall|i: int| 0 <= i < s ==> scalar_val(r@[i]) == pow_mod(scalar_val(rho), i as nat),
{
    let mut r: Vec<Scalar> = Vec::new();
    let mut cur = sc_one();
    let mut i: usize = 0;
    while i < s
        invariant
            i <= s,
            r@.len() == i,
            scalar_val(cur) == pow_mod(scalar_val(rho), i as nat),
            forall|j: int| 0 <= j < i ==> scalar_val(r@[j]) == pow_mod(scalar_val(rho), j as nat),
        decreases s - i,
    {
        r.push(cur);
        cur = sc_mul(&rho, &cur);
        i += 1;
    }
    r
}

/// Whether every row of `m` has length `cols`.
pub open spec fn rectangular(m: Seq<Vec<Scalar>>, cols: nat) -> bool {
    forall|i: int| 0 <= i < m.len() ==> #[trigger] m[i]@.len() == cols
}

/// Transposes a non-empty rectangular matrix.
pub fn matrix_transpose(m: &Vec<Vec<Scalar>>) -> (r: Vec<Vec<Scalar>>)
    requires
        m@.len() > 0,
        rectangular(m@, m@[0]@.len() as nat),
    ensures
        r@.len() == m@[0]@.len(),
        forall|j: int| 0 <= j < r@.len() ==> #[trigger] r@[j]@.len() == m@.len(),
        forall|j: int, i: int|
            0 <= j < r@.len() && 0 <= i < m@.len() ==> #[trigger] r@[j]@[i] == m@[i]@[j],
{
    let cols = m[0].len();
    let mut r: Vec<Vec<Scalar>> = Vec::new();
    let mut j: usize = 0;
    while j < cols
        invariant
            m@.len() > 0,
            rectangular(m@, cols as nat),
            cols == m@[0]@.len(),
            j <= cols,
            r@.len() == j,
            forall|jj: int| 0 <= jj < j ==> #[trigger] r@[jj]@.len() == m@.len(),
            forall|jj: int, i: int|
                0 <= jj < j && 0 <= i < m@.len() ==> #[trigger] r@[jj]@[i] == m@[i]@[jj],
        decreases cols - j,
    {
        let mut row: Vec<Scalar> = Vec::new();
        let mut i: usize = 0;
        while i < m.len()
            invariant
                rectangular(m@, cols as nat),
                j < cols,
                i <= m@.len(),
                row@.len() == i,
                forall|ii: int| 0 <= ii < i ==> #[trigger] row@[ii] == m@[ii]@[j as int],
            decreases m@.len() - i,
        {
            row.push(m[i][j]);
            i += 1;
        }
        r.push(row);
        j += 1;
    }
    r
}

/// Multiplies each row of `m` with `v`: the entry-wise evaluation
/// `r[i] = <m[i], v>`.
pub fn matrix_vector_mul(m: &Vec<Vec<Scalar>>, v: &Vec<Scalar>) -> (r: Vec<Scalar>)
    requires
        rectangular(m@, v@.len() as nat),
    ensures
        r@.len() == m@.len(),
        forall|i: int| 0 <= i < m@.len() ==> scalar_val(#[trigger] r@[i]) == dot(
            vals(m@[i]@),
            vals(v@),
        ),
{
    let mut r: Vec<Scalar> = Vec::new();
    let mut i: usize = 0;
    while i < m.len()
        invariant
            rectangular(m@, v@.len() as nat),
            i <= m@.len(),
            r@.len() == i,
            forall|ii: int| 0 <= ii < i ==> scalar_val(#[trigger] r@[ii]) == dot(
                vals(m@[ii]@),
                vals(v@),
            ),
        decreases m@.len() - i,
    {
        r.push(compute_linearform(&m[i], v));
        i += 1;
    }
    r
}

} // verus!
