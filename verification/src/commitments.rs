//! The Pedersen-style commitment capability: generator sets shared by
//! prover and verifier, and the additively homomorphic vector commitment
//! `commit(x, blind) = MSM(x, G) + blind * h`.

use crate::curve25519::commit_enc;
use crate::curve25519::encs;
use crate::curve25519::point_enc;
use crate::curve25519::pt_add;
use crate::curve25519::pt_msm;
use crate::curve25519::pt_smul;
use crate::curve25519::scalar_val;
use crate::curve25519::vals;
use crate::public_parameters::gen_enc;
use crate::public_parameters::new_gens;
use curve25519_dalek::ristretto::RistrettoPoint;
use curve25519_dalek::scalar::Scalar;
use vstd::prelude::*;

verus! {

/// A generator set for vectors of length `n`: the basis `G` and the
/// blinding generator `h`.
pub struct MultiCommitGens {
    pub n: usize,
    pub G: Vec<RistrettoPoint>,
    pub h: RistrettoPoint,
}

impl MultiCommitGens {
    /// The basis really has the stated size.
    pub open spec fn wf(&self) -> bool {
        self.G@.len() == self.n
    }

    /// Derives `n + 1` generators under `label`: the first `n` form the
    /// basis, the last is the blinding generator. Equal labels and sizes
    /// give bit-identical generator sets.
    pub fn new(n: usize, label: &'static [u8]) -> (r: MultiCommitGens)
        requires
            64 * (n as int + 1) <= usize::MAX as int,
        ensures
            r.wf(),
            r.n == n,
            forall|i: int| 0 <= i < n ==> point_enc(#[trigger] r.G@[i]) == gen_enc(
                label@,
                n as nat + 1,
                i as nat,
            ),
            point_enc(r.h) == gen_enc(label@, n as nat + 1, n as nat),
    {
        let mut pts = new_gens(n + 1, label);
        let h = pts.pop().unwrap();
        MultiCommitGens { n, G: pts, h }
    }
}

/// The generator configuration of a whole session: a basis for length-`n`
/// vectors and a single extra generator for the folded cross terms.
pub struct DotProductProofGens {
    pub n: usize,
    pub gens_n: MultiCommitGens,
    pub gens_1: MultiCommitGens,
}

impl DotProductProofGens {
    pub open spec fn wf(&self) -> bool {
        &&& self.gens_n.wf()
        &&& self.gens_1.wf()
        &&& self.gens_n.n == self.n
        &&& self.gens_1.n == 1
    }

    /// Derives the session generators for vectors of length `n` under
    /// `label`.
    pub fn new(n: usize, label: &'static [u8]) -> (r: DotProductProofGens)
        requires
            64 * (n as int + 2) <= usize::MAX as int,
        ensures
            r.wf(),
            r.n == n,
            forall|i: int| 0 <= i < n ==> point_enc(#[trigger] r.gens_n.G@[i]) == gen_enc(
                label@,
                n as nat + 2,
                i as nat,
            ),
            point_enc(r.gens_1.G@[0]) == gen_enc(label@, n as nat + 2, n as nat),
            point_enc(r.gens_n.h) == point_enc(r.gens_1.h),
            point_enc(r.gens_n.h) == gen_enc(label@, n as nat + 2, n as nat + 1),
    {
        let mut pts = new_gens(n + 2, label);
        let h = pts.pop().unwrap();
        let g1 = pts.pop().unwrap();
        let mut one_vec: Vec<RistrettoPoint> = Vec::new();
        one_vec.push(g1);
        let gens_n = MultiCommitGens { n, G: pts, h };
        let gens_1 = MultiCommitGens { n: 1, G: one_vec, h };
        DotProductProofGens { n, gens_n, gens_1 }
    }
}

/// Commits to the vector `x` under blinding `blind`:
/// `MSM(x, G) + blind * h`, hiding when the blinding is random, binding by
/// the independence of the generators.
pub fn commit(x: &Vec<Scalar>, blind: &Scalar, gens: &MultiCommitGens) -> (r: RistrettoPoint)
    requires
        gens.wf(),
        x@.len() == gens.n,
    ensures
        point_enc(r) == commit_enc(vals(x@), encs(gens.G@), scalar_val(*blind), point_enc(gens.h)),
{
    let m = pt_msm(x, &gens.G);
    let bh = pt_smul(blind, &gens.h);
    pt_add(&m, &bh)
}

} // verus!
