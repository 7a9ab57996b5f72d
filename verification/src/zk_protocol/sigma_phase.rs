//! The three moves of the Sigma protocol: commit to a random vector,
//! derive the challenge from the transcript, and answer with the blinded
//! response `z = c * x + r`.

use crate::commitments::commit;
use crate::commitments::MultiCommitGens;
use crate::curve25519::commit_enc;
use crate::curve25519::encs;
use crate::curve25519::group_order;
use crate::curve25519::le_bytes;
use crate::curve25519::point_enc;
use crate::curve25519::pt_compress;
use crate::curve25519::pt_valid;
use crate::curve25519::sc_add;
use crate::curve25519::sc_mul;
use crate::curve25519::scalar_val;
use crate::curve25519::vals;
use crate::curve25519::CompressedGroup;
use crate::math::lemma_mod_add_right;
use crate::random::RandomTape;
use crate::scalar_math::compute_linearform;
use crate::scalar_math::dot;
use crate::transcript::challenge_val;
use crate::transcript::t_op;
use crate::transcript::ProofTranscript;
use crate::transcript::A_LABEL;
use crate::transcript::C_LABEL;
use crate::transcript::R_VEC_LABEL;
use crate::transcript::RHO_LABEL;
use crate::transcript::T_LABEL;
use curve25519_dalek::scalar::Scalar;
use vstd::prelude::*;

verus! {

/// The two transcript appends of the commit move: the commitment `A`
/// under its label, then the masked evaluation `t` under its label.
pub open spec fn commit_phase_ops(a_enc: Seq<u8>, t: nat) -> Seq<Seq<u8>> {
    t_op(0, A_LABEL@, a_enc) + t_op(0, T_LABEL@, le_bytes(t, 32))
}

/// Commits to a fresh random vector `r` with fresh blinding `rho`:
/// `A = Commit(r, rho)` and `t = <l, r>`, both appended to the transcript.
pub fn commit_phase(
    transcript: &mut ProofTranscript,
    prover_random_tape: &mut RandomTape,
    gens_n: &MultiCommitGens,
    l_form_vec: &Vec<Scalar>,
) -> (r: (CompressedGroup, Scalar, Vec<Scalar>, Scalar))
    requires
        gens_n.wf(),
        gens_n.n == l_form_vec@.len(),
    ensures
        r.2@.len() == l_form_vec@.len(),
        r.0@ == commit_enc(vals(r.2@), encs(gens_n.G@), scalar_val(r.3), point_enc(gens_n.h)),
        pt_valid(r.0@),
        scalar_val(r.1) == dot(vals(l_form_vec@), vals(r.2@)),
        final(transcript)@ == old(transcript)@ + commit_phase_ops(r.0@, scalar_val(r.1)),
{
    let n = l_form_vec.len();
    let r_vec = prover_random_tape.random_vector(&R_VEC_LABEL, n);
    let rho = prover_random_tape.random_scalar(&RHO_LABEL);
    let A = pt_compress(&commit(&r_vec, &rho, gens_n));
    let t = compute_linearform(l_form_vec, &r_vec);

    transcript.append_point(&A_LABEL, &A);
    transcript.append_scalar(&T_LABEL, &t);

    (A, t, r_vec, rho)
}

/// Draws the Sigma challenge `c` from the transcript: a pure function of
/// the transcript state, never read from the proof.
pub fn challenge_phase(transcript: &mut ProofTranscript) -> (c: Scalar)
    ensures
        scalar_val(c) == challenge_val(old(transcript)@, C_LABEL@),
        final(transcript)@ == old(transcript)@ + t_op(1, C_LABEL@, Seq::<u8>::empty()),
{
    let c = transcript.challenge_scalar(&C_LABEL);
    c
}

/// The blinded response entry `c * x + r` over the scalar field.
pub open spec fn response_val(c: nat, x: nat, r: nat) -> nat {
    (c * x + r) % group_order()
}

/// Answers the challenge: `z_i = c * x_i + r_i` and `phi = c * gamma + rho`.
pub fn response_phase(
    c: &Scalar,
    x_vec: &Vec<Scalar>,
    r_vec: &Vec<Scalar>,
    gamma: &Scalar,
    rho: &Scalar,
) -> (r: (Vec<Scalar>, Scalar))
    requires
        x_vec@.len() == r_vec@.len(),
    ensures
        r.0@.len() == x_vec@.len(),
        forall|i: int| 0 <= i < x_vec@.len() ==> scalar_val(#[trigger] r.0@[i]) == response_val(
            scalar_val(*c),
            scalar_val(x_vec@[i]),
            scalar_val(r_vec@[i]),
        ),
        scalar_val(r.1) == response_val(scalar_val(*c), scalar_val(*gamma), scalar_val(*rho)),
{
    let n = x_vec.len();
    let mut z: Vec<Scalar> = Vec::new();
    let mut i: usize = 0;
    while i < n
        invariant
            n == x_vec@.len(),
            x_vec@.len() == r_vec@.len(),
            i <= n,
            z@.len() == i,
            forall|j: int| 0 <= j < i ==> scalar_val(#[trigger] z@[j]) == response_val(
                scalar_val(*c),
                scalar_val(x_vec@[j]),
                scalar_val(r_vec@[j]),
            ),
        decreases n - i,
    {
        let cx = sc_mul(c, &x_vec[i]);
        z.push(sc_add(&cx, &r_vec[i]));
        proof {
            lemma_mod_add_right(
                scalar_val(r_vec@[i as int]),
                scalar_val(*c) * scalar_val(x_vec@[i as int]),
            );
        }
        i += 1;
    }
    let cg = sc_mul(c, gamma);
    let phi = sc_add(&cg, rho);
    proof {
        lemma_mod_add_right(scalar_val(*rho), scalar_val(*c) * scalar_val(*gamma));
    }
    (z, phi)
}

} // verus!
