//! The commitment-opening stage: a three-move hiding proof that a
//! committed vector evaluates a public linear form to a claimed value.
//!
//! The proof fragment is `(A, t)`; the response `(z, phi)` is handed to
//! the next stage, never serialized. On the verify side only the appends
//! are replayed and the challenge is recomputed and returned: no stored
//! challenge is ever trusted.

use crate::commitments::commit;
use crate::commitments::MultiCommitGens;
use crate::curve25519::commit_enc;
use crate::curve25519::encs;
use crate::curve25519::le_bytes;
use crate::curve25519::point_enc;
use crate::curve25519::pt_compress;
use crate::curve25519::pt_valid;
use crate::curve25519::scalar_val;
use crate::curve25519::vals;
use crate::curve25519::CompressedGroup;
use crate::random::RandomTape;
use crate::scalar_math::dot;
use crate::transcript::challenge_val;
use crate::transcript::t_op;
use crate::transcript::ProofTranscript;
use crate::transcript::A_LABEL;
use crate::transcript::C_LABEL;
use crate::transcript::PI_0_NAME;
use crate::transcript::T_LABEL;
use crate::transcript::PROTOCOL_NAME_LABEL;
use crate::transcript::P_LABEL;
use crate::transcript::Y_LABEL;
use crate::zk_protocol::sigma_phase;
use curve25519_dalek::scalar::Scalar;
use vstd::prelude::*;

verus! {

/// The Sigma-stage proof fragment: the random commitment `A` and the
/// masked evaluation `t`.
pub struct Pi_0_Proof {
    pub A: CompressedGroup,
    pub t: Scalar,
}

/// The transcript operations of this stage up to (excluding) its
/// challenge: the protocol name, the public `P` and `y`, then `A` and `t`.
pub open spec fn pi0_ops_before_challenge(p_enc: Seq<u8>, y: nat, a_enc: Seq<u8>, t: nat) -> Seq<
    Seq<u8>,
> {
    t_op(0, PROTOCOL_NAME_LABEL@, PI_0_NAME@) + t_op(0, P_LABEL@, p_enc) + t_op(
        0,
        Y_LABEL@,
        le_bytes(y, 32),
    ) + sigma_phase::commit_phase_ops(a_enc, t)
}

/// The Sigma challenge of this stage, a function of the transcript prefix
/// and the appended public values alone.
pub open spec fn pi0_challenge(
    log0: Seq<Seq<u8>>,
    p_enc: Seq<u8>,
    y: nat,
    a_enc: Seq<u8>,
    t: nat,
) -> nat {
    challenge_val(log0 + pi0_ops_before_challenge(p_enc, y, a_enc, t), C_LABEL@)
}

/// The whole stage's transcript operations, challenge included.
pub open spec fn pi0_ops(p_enc: Seq<u8>, y: nat, a_enc: Seq<u8>, t: nat) -> Seq<Seq<u8>> {
    pi0_ops_before_challenge(p_enc, y, a_enc, t) + t_op(1, C_LABEL@, Seq::<u8>::empty())
}

/// The Sigma relation: behind the commit move `(A, t)` and the response
/// `(z, phi)` stands a masking vector `rv` with blinding `rb` such that
/// `A = Commit(rv, rb)`, `t = <l, rv>`, `z = c * x + rv` and
/// `phi = c * gamma + rb`.
pub open spec fn sigma_links(
    rv: Seq<nat>,
    rb: nat,
    g_encs: Seq<Seq<u8>>,
    h_enc: Seq<u8>,
    l: Seq<nat>,
    x: Seq<nat>,
    gamma: nat,
    c: nat,
    a_enc: Seq<u8>,
    t: nat,
    z: Seq<nat>,
    phi: nat,
) -> bool {
    &&& rv.len() == x.len()
    &&& a_enc == commit_enc(rv, g_encs, rb, h_enc)
    &&& t == dot(l, rv)
    &&& z.len() == x.len()
    &&& forall|i: int| 0 <= i < x.len() ==> z[i] == sigma_phase::response_val(c, x[i], rv[i])
    &&& phi == sigma_phase::response_val(c, gamma, rb)
}

/// Whether some masking vector and blinding stand behind the fragment:
/// the Sigma relation with its witnesses hidden.
pub open spec fn sigma_linked(
    g_encs: Seq<Seq<u8>>,
    h_enc: Seq<u8>,
    l: Seq<nat>,
    x: Seq<nat>,
    gamma: nat,
    c: nat,
    a_enc: Seq<u8>,
    t: nat,
    z: Seq<nat>,
    phi: nat,
) -> bool {
    exists|rv: Seq<nat>, rb: nat|
        #[trigger] sigma_links(rv, rb, g_encs, h_enc, l, x, gamma, c, a_enc, t, z, phi)
}

impl Pi_0_Proof {
    pub fn protocol_name() -> (r: &'static [u8])
        ensures
            r@ == PI_0_NAME@,
    {
        &PI_0_NAME
    }

    /// Proves knowledge of the committed `x_vec` (blinding `gamma`) with
    /// `P = Commit(x, gamma)` and `y = <l, x>`. Returns the proof
    /// fragment, `P`, and the response `(z, phi)` for the next stage.
    pub fn mod_prove(
        transcript: &mut ProofTranscript,
        prover_random_tape: &mut RandomTape,
        gens_n: &MultiCommitGens,
        gamma: &Scalar,
        l_form_vec: &Vec<Scalar>,
        y: &Scalar,
        x_vec: &Vec<Scalar>,
    ) -> (r: (Pi_0_Proof, CompressedGroup, Vec<Scalar>, Scalar))
        requires
            gens_n.wf(),
            gens_n.n == l_form_vec@.len(),
            x_vec@.len() == l_form_vec@.len(),
        ensures
            r.1@ == commit_enc(
                vals(x_vec@),
                encs(gens_n.G@),
                scalar_val(*gamma),
                point_enc(gens_n.h),
            ),
            pt_valid(r.1@),
            pt_valid(r.0.A@),
            r.2@.len() == x_vec@.len(),
            final(transcript)@ == old(transcript)@ + pi0_ops(
                r.1@,
                scalar_val(*y),
                r.0.A@,
                scalar_val(r.0.t),
            ),
            sigma_linked(
                encs(gens_n.G@),
                point_enc(gens_n.h),
                vals(l_form_vec@),
                vals(x_vec@),
                scalar_val(*gamma),
                pi0_challenge(old(transcript)@, r.1@, scalar_val(*y), r.0.A@, scalar_val(r.0.t)),
                r.0.A@,
                scalar_val(r.0.t),
                vals(r.2@),
                scalar_val(r.3),
            ),
    {
        let P = pt_compress(&commit(x_vec, gamma, gens_n));

        transcript.append_protocol_name(Pi_0_Proof::protocol_name());
        transcript.append_point(&P_LABEL, &P);
        transcript.append_scalar(&Y_LABEL, y);

        let (A, t, r_vec, rho) = sigma_phase::commit_phase(
            transcript,
            prover_random_tape,
            gens_n,
            l_form_vec,
        );
        proof {
            assert(transcript@ =~~= old(transcript)@ + pi0_ops_before_challenge(
                P@,
                scalar_val(*y),
                A@,
                scalar_val(t),
            ));
        }
        let c_0 = sigma_phase::challenge_phase(transcript);
        proof {
            assert(transcript@ =~~= old(transcript)@ + pi0_ops(
                P@,
                scalar_val(*y),
                A@,
                scalar_val(t),
            ));
        }

        let (z, phi) = sigma_phase::response_phase(&c_0, x_vec, &r_vec, gamma, &rho);

        proof {
            assert(sigma_links(
                vals(r_vec@),
                scalar_val(rho),
                encs(gens_n.G@),
                point_enc(gens_n.h),
                vals(l_form_vec@),
                vals(x_vec@),
                scalar_val(*gamma),
                pi0_challenge(old(transcript)@, P@, scalar_val(*y), A@, scalar_val(t)),
                A@,
                scalar_val(t),
                vals(z@),
                scalar_val(phi),
            ));
            assert(sigma_linked(
                encs(gens_n.G@),
                point_enc(gens_n.h),
                vals(l_form_vec@),
                vals(x_vec@),
                scalar_val(*gamma),
                pi0_challenge(old(transcript)@, P@, scalar_val(*y), A@, scalar_val(t)),
                A@,
                scalar_val(t),
                vals(z@),
                scalar_val(phi),
            ));
        }

        (Pi_0_Proof { A, t }, P, z, phi)
    }

    /// Replays the stage's appends from the received proof and public
    /// values, and returns the recomputed challenge for the later stages.
    pub fn mod_verify(
        &self,
        gens_n: &MultiCommitGens,
        transcript: &mut ProofTranscript,
        a: &Vec<Scalar>,
        P: &CompressedGroup,
        y: &Scalar,
    ) -> (c: Scalar)
        requires
            gens_n.n == a@.len(),
        ensures
            scalar_val(c) == pi0_challenge(
                old(transcript)@,
                P@,
                scalar_val(*y),
                self.A@,
                scalar_val(self.t),
            ),
            final(transcript)@ == old(transcript)@ + pi0_ops(
                P@,
                scalar_val(*y),
                self.A@,
                scalar_val(self.t),
            ),
    {
        transcript.append_protocol_name(Pi_0_Proof::protocol_name());
        transcript.append_point(&P_LABEL, P);
        transcript.append_scalar(&Y_LABEL, y);
        transcript.append_point(&A_LABEL, &self.A);
        transcript.append_scalar(&T_LABEL, &self.t);

        proof {
            assert(transcript@ =~~= old(transcript)@ + pi0_ops_before_challenge(
                P@,
                scalar_val(*y),
                self.A@,
                scalar_val(self.t),
            ));
        }
        let c = transcript.challenge_scalar(&C_LABEL);
        proof {
            assert(transcript@ =~~= old(transcript)@ + pi0_ops(
                P@,
                scalar_val(*y),
                self.A@,
                scalar_val(self.t),
            ));
        }
        c
    }
}

} // verus!
