//! Session-level public configuration: the deterministic generator basis,
//! and the public statement/witness record with its well-formedness check.
//!
//! Prover and verifier each derive the generator basis themselves from a
//! shared label; the derivation is a SHAKE-256 stream, so equal labels and
//! sizes give bit-identical bases on both sides.

use crate::curve25519::basepoint_enc;
use crate::curve25519::point_enc;
use crate::curve25519::pt_basepoint;
use crate::curve25519::pt_compress;
use crate::curve25519::pt_from_uniform;
use crate::curve25519::pt_uniform_enc;
use curve25519_dalek::ristretto::RistrettoPoint;
use curve25519_dalek::scalar::Scalar;
use vstd::prelude::*;

verus! {

/// The SHAKE-256 output stream of the given length for the given input:
/// a function of the two alone.
pub uninterp spec fn shake256_of(input: Seq<u8>, out_len: nat) -> Seq<u8>;

/// Relies on `sha3::Shake256` through `digest::ExtendableOutput::digest_xof`:
/// the extendable output depends on the input bytes alone, and a longer
/// read extends a shorter one.
#[verifier::external_body]
fn shake256(input: &Vec<u8>, out_len: usize) -> (r: Vec<u8>)
    ensures
        r@ == shake256_of(input@, out_len as nat),
        r@.len() == out_len,
{
    let mut out = vec![0u8; out_len];
    <sha3::Shake256 as sha3::digest::ExtendableOutput>::digest_xof(
        input.as_slice(),
        out.as_mut_slice(),
    );
    out
}

/// The seed of the generator stream: the session label followed by the
/// compressed basepoint.
pub open spec fn gens_seed(label: Seq<u8>) -> Seq<u8> {
    label + basepoint_enc()
}

/// The canonical encoding of the `i`-th generator derived under `label`
/// when `total` generators are drawn.
pub open spec fn gen_enc(label: Seq<u8>, total: nat, i: nat) -> Seq<u8> {
    pt_uniform_enc(
        shake256_of(gens_seed(label), 64 * total).subrange(64 * i as int, 64 * i as int + 64),
    )
}

/// Derives `n` independent generators from `label`: a SHAKE-256 stream
/// seeded with the label and the basepoint, read 64 bytes per point.
pub fn new_gens(n: usize, label: &'static [u8]) -> (r: Vec<RistrettoPoint>)
    requires
        64 * (n as int) <= usize::MAX as int,
    ensures
        r@.len() == n,
        forall|i: int| 0 <= i < n ==> point_enc(#[trigger] r@[i]) == gen_enc(
            label@,
            n as nat,
            i as nat,
        ),
{
    let mut seed: Vec<u8> = Vec::new();
    let mut k: usize = 0;
    while k < label.len()
        invariant
            k <= label@.len(),
            seed@ == label@.take(k as int),
        decreases label@.len() - k,
    {
        seed.push(label[k]);
        k += 1;
    }
    let bp = pt_compress(&pt_basepoint());
    let mut k2: usize = 0;
    while k2 < 32
        invariant
            k2 <= 32,
            bp@ == basepoint_enc(),
            seed@ == label@ + basepoint_enc().take(k2 as int),
        decreases 32 - k2,
    {
        proof {
            assert(label@ + basepoint_enc().take(k2 + 1) =~= (label@ + basepoint_enc().take(
                k2 as int,
            )).push(basepoint_enc()[k2 as int]));
        }
        seed.push(bp.bytes[k2]);
        k2 += 1;
    }
    proof {
        assert(basepoint_enc().take(32) =~= basepoint_enc());
        assert(seed@ == gens_seed(label@));
    }
    let stream = shake256(&seed, 64 * n);
    let mut r: Vec<RistrettoPoint> = Vec::new();
    let mut i: usize = 0;
    while i < n
        invariant
            i <= n,
            stream@ == shake256_of(gens_seed(label@), 64 * n as nat),
            stream@.len() == 64 * n,
            64 * (n as int) <= usize::MAX as int,
            r@.len() == i,
            forall|j: int| 0 <= j < i ==> point_enc(#[trigger] r@[j]) == gen_enc(
                label@,
                n as nat,
                j as nat,
            ),
        decreases n - i,
    {
        let mut chunk: Vec<u8> = Vec::new();
        let mut c: usize = 0;
        while c < 64
            invariant
                c <= 64,
                i < n,
                stream@.len() == 64 * n,
                64 * (n as int) <= usize::MAX as int,
                chunk@ == stream@.subrange(64 * i as int, 64 * i + c),
            decreases 64 - c,
        {
            proof {
                assert(stream@.subrange(64 * i as int, 64 * i + c + 1) =~= stream@.subrange(
                    64 * i as int,
                    64 * i + c,
                ).push(stream@[64 * i + c]));
            }
            chunk.push(stream[64 * i + c]);
            c += 1;
        }
        r.push(pt_from_uniform(&chunk));
        i += 1;
    }
    r
}

/// The public input record: dimensions, the constraint matrix `M`, its
/// right-hand side `b`, and the witness vector `x`.
pub struct Input_ {
    pub n: usize,
    pub s: usize,
    pub M_matric: Vec<Vec<Scalar>>,
    pub b_vec: Vec<Scalar>,
    pub x_vec: Vec<Scalar>,
}

/// Whether the record's dimensions agree: `M` is a non-empty `s` by `n`
/// matrix, `b` has length `s` and `x` length `n`.
pub open spec fn input_wf(input: &Input_) -> bool {
    &&& input.M_matric@.len() == input.s
    &&& input.s > 0
    &&& input.b_vec@.len() == input.s
    &&& input.x_vec@.len() == input.n
    &&& input.M_matric@[0]@.len() == input.n
    &&& forall|i: int|
        0 <= i < input.M_matric@.len() ==> #[trigger] input.M_matric@[i]@.len() == input.n
}

/// Checks that the record's dimensions agree.
pub fn input_check(prover_input: &Input_) -> (r: bool)
    ensures
        r == input_wf(prover_input),
{
    let s_ = prover_input.M_matric.len();
    if s_ == 0 {
        return false;
    }
    let n_ = prover_input.M_matric[0].len();
    let mut i: usize = 0;
    while i < s_
        invariant
            s_ == prover_input.M_matric@.len(),
            n_ == prover_input.M_matric@[0]@.len(),
            i <= s_,
            forall|j: int| 0 <= j < i ==> #[trigger] prover_input.M_matric@[j]@.len() == n_,
        decreases s_ - i,
    {
        if prover_input.M_matric[i].len() != n_ {
            return false;
        }
        i += 1;
    }
    prover_input.n == n_ && prover_input.s == s_ && prover_input.b_vec.len() == s_
        && prover_input.x_vec.len() == n_
}

/// Unpacks the record into its parts.
pub fn input_init(input: &Input_) -> (r: (usize, usize, Vec<Vec<Scalar>>, Vec<Scalar>, Vec<
    Scalar,
>))
    ensures
        r.0 == input.n,
        r.1 == input.s,
        r.2@.len() == input.M_matric@.len(),
        forall|i: int|
            0 <= i < input.M_matric@.len() ==> #[trigger] r.2@[i]@ == input.M_matric@[i]@,
        r.3@ == input.b_vec@,
        r.4@ == input.x_vec@,
{
    let mut m: Vec<Vec<Scalar>> = Vec::new();
    let mut i: usize = 0;
    while i < input.M_matric.len()
        invariant
            i <= input.M_matric@.len(),
            m@.len() == i,
            forall|ii: int| 0 <= ii < i ==> #[trigger] m@[ii]@ == input.M_matric@[ii]@,
        decreases input.M_matric@.len() - i,
    {
        let mut row: Vec<Scalar> = Vec::new();
        let mut j: usize = 0;
        while j < input.M_matric[i].len()
            invariant
                i < input.M_matric@.len(),
                j <= input.M_matric@[i as int]@.len(),
                row@ =~= input.M_matric@[i as int]@.take(j as int),
            decreases input.M_matric@[i as int]@.len() - j,
        {
            row.push(input.M_matric[i][j]);
            j += 1;
        }
        proof {
            assert(row@ =~= input.M_matric@[i as int]@);
        }
        m.push(row);
        i += 1;
    }
    let mut b: Vec<Scalar> = Vec::new();
    let mut k: usize = 0;
    while k < input.b_vec.len()
        invariant
            k <= input.b_vec@.len(),
            b@ =~= input.b_vec@.take(k as int),
        decreases input.b_vec@.len() - k,
    {
        b.push(input.b_vec[k]);
        k += 1;
    }
    proof {
        assert(b@ =~= input.b_vec@);
    }
    let mut x: Vec<Scalar> = Vec::new();
    let mut k2: usize = 0;
    while k2 < input.x_vec.len()
        invariant
            k2 <= input.x_vec@.len(),
            x@ =~= input.x_vec@.take(k2 as int),
        decreases input.x_vec@.len() - k2,
    {
        x.push(input.x_vec[k2]);
        k2 += 1;
    }
    proof {
        assert(x@ =~= input.x_vec@);
    }
    (input.n, input.s, m, b, x)
}

} // verus!
