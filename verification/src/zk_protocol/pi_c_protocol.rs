//! The compressed proof assembler: sequences the Sigma opening, the
//! domain extension and the folding argument over one shared transcript.
//!
//! Verification is a pure, deterministic predicate over the statement and
//! the proof given the transcript prefix: [`pi_c_verify_spec`] is that
//! predicate, and `verify`'s contract says the outcome equals it exactly.

use crate::commitments::DotProductProofGens;
use crate::commitments::MultiCommitGens;
use crate::curve25519::cg_encs;
use crate::curve25519::commit_enc;
use crate::curve25519::copy_point_vec;
use crate::curve25519::copy_scalar_vec;
use crate::curve25519::encs;
use crate::curve25519::group_order;
use crate::curve25519::point_enc;
use crate::curve25519::pt_add;
use crate::curve25519::pt_add_enc;
use crate::curve25519::pt_basepoint;
use crate::curve25519::pt_decompress;
use crate::curve25519::pt_mul_enc;
use crate::curve25519::pt_smul;
use crate::curve25519::pt_valid;
use crate::curve25519::sc_add;
use crate::curve25519::sc_mul;
use crate::curve25519::sc_zero;
use crate::curve25519::scalar_val;
use crate::curve25519::vals;
use crate::curve25519::CompressedGroup;
use crate::errors::ProofVerifyError;
use crate::math::is_pow2;
use crate::math::lemma_mod_add_right;
use crate::nozk_protocol::bullet_proof::all_points_valid;
use crate::nozk_protocol::bullet_proof::bullet_final_check;
use crate::nozk_protocol::bullet_proof::replay_challenges;
use crate::nozk_protocol::bullet_proof::shape_ok;
use crate::nozk_protocol::bullet_proof::BulletReductionProof;
use crate::nozk_protocol::pi_1_protocol::pi1_challenge;
use crate::nozk_protocol::pi_1_protocol::pi1_ops;
use crate::nozk_protocol::pi_1_protocol::Pi_1_Proof;
use crate::nozk_protocol::pi_2_protocol::pi2_ops;
use crate::nozk_protocol::pi_2_protocol::Pi_2_Proof;
use crate::random::RandomTape;
use crate::scalar_math::dot;
use crate::transcript::t_op;
use crate::transcript::ProofTranscript;
use crate::transcript::PI_C_NAME;
use crate::transcript::PROTOCOL_NAME_LABEL;
use crate::zk_protocol::pi_0_protocol::pi0_challenge;
use crate::zk_protocol::pi_0_protocol::pi0_ops;
use crate::zk_protocol::pi_0_protocol::Pi_0_Proof;
use curve25519_dalek::scalar::Scalar;
use vstd::prelude::*;

verus! {

/// The composed compressed proof: the Sigma fragment, the (empty)
/// extension marker, and the folding fragment.
pub struct Pi_c_Proof {
    pub proof_0: Pi_0_Proof,
    pub proof_1: Pi_1_Proof,
    pub proof_2: Pi_2_Proof,
}

/// This stage's protocol-name transcript operation.
pub open spec fn pi_c_name_op() -> Seq<Seq<u8>> {
    t_op(0, PROTOCOL_NAME_LABEL@, PI_C_NAME@)
}

/// What `verify` returns, as a function of the transcript prefix, the
/// statement, the generators and the received proof — nothing else. Two
/// verifiers starting from equal prefixes with equal inputs return equal
/// results.
pub open spec fn pi_c_verify_spec(
    log0: Seq<Seq<u8>>,
    n: nat,
    gens_count: nat,
    g_encs: Seq<Seq<u8>>,
    h_enc: Seq<u8>,
    k_enc: Seq<u8>,
    l: Seq<nat>,
    a_enc: Seq<u8>,
    t: nat,
    bp: BulletReductionProof,
    p_enc: Seq<u8>,
    y: nat,
    p_hat_enc: Seq<u8>,
) -> Result<(), ProofVerifyError> {
    if n != gens_count || l.len() != n {
        Err(ProofVerifyError::MalformedInput)
    } else {
        let log1 = log0 + pi_c_name_op();
        let c0 = pi0_challenge(log1, p_enc, y, a_enc, t);
        let log2 = log1 + pi0_ops(p_enc, y, a_enc, t);
        let y_hat = (c0 * y + t) % group_order();
        let c1 = pi1_challenge(log2, p_hat_enc, y_hat);
        let log3 = log2 + pi1_ops(p_hat_enc, y_hat);
        if !pt_valid(a_enc) || !pt_valid(p_enc) {
            Err(ProofVerifyError::DecodingError)
        } else {
            let l_tilde = Seq::new(n + 1, |i: int| (c1 * l.push(0)[i]) % group_order());
            let q = pt_add_enc(
                pt_add_enc(a_enc, pt_mul_enc(c0, p_enc)),
                pt_mul_enc((c1 * y_hat) % group_order(), k_enc),
            );
            let log4 = log3 + pi2_ops(q);
            let As = cg_encs(bp.A_vec@);
            let Bs = cg_encs(bp.B_vec@);
            if !shape_ok(As.len(), Bs.len(), bp.z@.len() as nat, n + 1) {
                Err(ProofVerifyError::InternalError)
            } else if !all_points_valid(As, Bs) {
                Err(ProofVerifyError::DecodingError)
            } else if bullet_final_check(
                As,
                Bs,
                replay_challenges(log4, As, Bs, As.len()),
                vals(bp.z@),
                l_tilde,
                q,
                k_enc,
                g_encs.push(h_enc),
            ) {
                Ok(())
            } else {
                Err(ProofVerifyError::VerificationFailure)
            }
        }
    }
}

/// What the prover establishes for the Sigma response `(z, phi)` it drew:
/// the Sigma relation behind `(A, t)`; the extended commitment
/// `P_hat = MSM(z ++ [phi], G ++ [h])` with no extra blinding; and the
/// folding fragment as the deterministic fold [`bullet_prove_post`] of the
/// extended statement `(z_hat, L_tilde, G_hat)` under the recomputable
/// challenges — which fixes its shape, `log2(n+1) - 1` round pairs and a
/// final vector of two.
pub open spec fn pi_c_links(
    z: Seq<nat>,
    phi: nat,
    log0: Seq<Seq<u8>>,
    g_encs: Seq<Seq<u8>>,
    h_enc: Seq<u8>,
    k_enc: Seq<u8>,
    l: Seq<nat>,
    x: Seq<nat>,
    gamma: nat,
    y: nat,
    pr: Pi_c_Proof,
    p_enc: Seq<u8>,
    p_hat_enc: Seq<u8>,
    logf: Seq<Seq<u8>>,
) -> bool {
    let a_enc = pr.proof_0.A@;
    let t = scalar_val(pr.proof_0.t);
    let log1 = log0 + pi_c_name_op();
    let c0 = pi0_challenge(log1, p_enc, y, a_enc, t);
    let log2 = log1 + pi0_ops(p_enc, y, a_enc, t);
    let z_hat = z.push(phi);
    let y_hat = dot(l.push(0), z_hat);
    let c1 = pi1_challenge(log2, p_hat_enc, y_hat);
    let log3 = log2 + pi1_ops(p_hat_enc, y_hat);
    let l_tilde = Seq::new(l.len() + 1, |i: int| (c1 * l.push(0)[i]) % group_order());
    let g_hat = g_encs.push(h_enc);
    let q = crate::nozk_protocol::pi_2_protocol::q_enc_of(z_hat, g_hat, l_tilde, k_enc);
    &&& z.len() == x.len()
    &&& crate::zk_protocol::pi_0_protocol::sigma_linked(
        g_encs,
        h_enc,
        l,
        x,
        gamma,
        c0,
        a_enc,
        t,
        z,
        phi,
    )
    &&& p_hat_enc == crate::curve25519::pt_msm_enc(z_hat, g_hat)
    &&& crate::nozk_protocol::bullet_proof::bullet_prove_post(
        pr.proof_2.bullet_reduction_proof,
        log3 + pi2_ops(q),
        z_hat,
        l_tilde,
        g_hat,
        k_enc,
        logf,
    )
}

/// Whether some Sigma response stands behind the assembled proof, tying
/// every fragment and the final transcript to the session: the
/// hidden-witness form of [`pi_c_links`].
pub open spec fn pi_c_prove_linked(
    log0: Seq<Seq<u8>>,
    g_encs: Seq<Seq<u8>>,
    h_enc: Seq<u8>,
    k_enc: Seq<u8>,
    l: Seq<nat>,
    x: Seq<nat>,
    gamma: nat,
    y: nat,
    pr: Pi_c_Proof,
    p_enc: Seq<u8>,
    p_hat_enc: Seq<u8>,
    logf: Seq<Seq<u8>>,
) -> bool {
    exists|z: Seq<nat>, phi: nat|
        #[trigger] pi_c_links(
            z,
            phi,
            log0,
            g_encs,
            h_enc,
            k_enc,
            l,
            x,
            gamma,
            y,
            pr,
            p_enc,
            p_hat_enc,
            logf,
        )
}

/// The transcript log `verify` leaves behind, for the given prefix and
/// received values: nothing on a malformed statement; the replayed stages
/// up to the point the outcome was decided otherwise.
pub open spec fn pi_c_verify_final_log(
    log0: Seq<Seq<u8>>,
    n: nat,
    gens_count: nat,
    g_encs: Seq<Seq<u8>>,
    h_enc: Seq<u8>,
    k_enc: Seq<u8>,
    l: Seq<nat>,
    a_enc: Seq<u8>,
    t: nat,
    bp: BulletReductionProof,
    p_enc: Seq<u8>,
    y: nat,
    p_hat_enc: Seq<u8>,
) -> Seq<Seq<u8>> {
    if n != gens_count || l.len() != n {
        log0
    } else {
        let log1 = log0 + pi_c_name_op();
        let c0 = pi0_challenge(log1, p_enc, y, a_enc, t);
        let log2 = log1 + pi0_ops(p_enc, y, a_enc, t);
        let y_hat = (c0 * y + t) % group_order();
        let log3 = log2 + pi1_ops(p_hat_enc, y_hat);
        if !pt_valid(a_enc) || !pt_valid(p_enc) {
            log3
        } else {
            let c1 = pi1_challenge(log2, p_hat_enc, y_hat);
            let q = pt_add_enc(
                pt_add_enc(a_enc, pt_mul_enc(c0, p_enc)),
                pt_mul_enc((c1 * y_hat) % group_order(), k_enc),
            );
            let log4 = log3 + pi2_ops(q);
            let As = cg_encs(bp.A_vec@);
            let Bs = cg_encs(bp.B_vec@);
            if !shape_ok(As.len(), Bs.len(), bp.z@.len() as nat, n + 1) {
                log4
            } else {
                crate::nozk_protocol::bullet_proof::replay_log(log4, As, Bs, As.len())
            }
        }
    }
}

impl Pi_c_Proof {
    pub fn protocol_name() -> (r: &'static [u8])
        ensures
            r@ == PI_C_NAME@,
    {
        &PI_C_NAME
    }

    /// Proves that the committed `x_vec` evaluates the linear form to `y`:
    /// Sigma opening, domain extension, then the folding argument, all
    /// over the one transcript. Returns the proof with the public
    /// commitments `P` and `P_hat`.
    pub fn prove(
        gens: &DotProductProofGens,
        transcript: &mut ProofTranscript,
        prover_random_tape: &mut RandomTape,
        x_vec: &Vec<Scalar>,
        gamma: &Scalar,
        l_vec: &Vec<Scalar>,
        y: &Scalar,
    ) -> (r: (Pi_c_Proof, CompressedGroup, CompressedGroup))
        requires
            gens.wf(),
            gens.gens_n.n == x_vec@.len(),
            l_vec@.len() == x_vec@.len(),
            is_pow2((x_vec@.len() + 1) as nat),
            1 <= x_vec@.len() < usize::MAX,
        ensures
            r.1@ == commit_enc(
                vals(x_vec@),
                encs(gens.gens_n.G@),
                scalar_val(*gamma),
                point_enc(gens.gens_n.h),
            ),
            pt_valid(r.1@),
            pt_valid(r.2@),
            pi_c_prove_linked(
                old(transcript)@,
                encs(gens.gens_n.G@),
                point_enc(gens.gens_n.h),
                point_enc(gens.gens_1.G@[0]),
                vals(l_vec@),
                vals(x_vec@),
                scalar_val(*gamma),
                scalar_val(*y),
                r.0,
                r.1@,
                r.2@,
                final(transcript)@,
            ),
    {
        transcript.append_protocol_name(Pi_c_Proof::protocol_name());
        let ghost log1 = old(transcript)@ + pi_c_name_op();
        proof {
            assert(transcript@ =~~= log1);
        }

        let n = x_vec.len();

        let (proof_0, P, z_vec, phi) = Pi_0_Proof::mod_prove(
            transcript,
            prover_random_tape,
            &gens.gens_n,
            gamma,
            l_vec,
            y,
            x_vec,
        );
        let ghost log2 = log1 + pi0_ops(
            P@,
            scalar_val(*y),
            proof_0.A@,
            scalar_val(proof_0.t),
        );
        proof {
            assert(transcript@ =~~= log2);
        }

        let (proof_1, P_hat, y_hat, L_tilde, z_hat, G_hat_vec) = Pi_1_Proof::mod_prove(
            transcript,
            &gens.gens_n,
            &z_vec,
            &phi,
            l_vec,
        );
        let ghost log3 = log2 + pi1_ops(P_hat@, scalar_val(y_hat));
        proof {
            assert(transcript@ =~~= log3);
            assert(vals(z_hat@) =~= vals(z_vec@).push(scalar_val(phi)));
            assert(encs(G_hat_vec@) =~= encs(gens.gens_n.G@).push(point_enc(gens.gens_n.h)));
        }

        let gens_hat = MultiCommitGens { n: n + 1, G: G_hat_vec, h: pt_basepoint() };

        let (proof_2, _Q) = Pi_2_Proof::mod_prove(
            &gens_hat,
            &gens.gens_1,
            transcript,
            &L_tilde,
            &z_hat,
        );

        proof {
            let zv = vals(z_vec@);
            let phv = scalar_val(phi);
            let lv = vals(l_vec@);
            let c1 = pi1_challenge(log2, P_hat@, scalar_val(y_hat));
            assert(vals(L_tilde@) =~= Seq::new(
                lv.len() + 1,
                |i: int| (c1 * lv.push(0)[i]) % group_order(),
            ));
            assert(pi_c_links(
                zv,
                phv,
                old(transcript)@,
                encs(gens.gens_n.G@),
                point_enc(gens.gens_n.h),
                point_enc(gens.gens_1.G@[0]),
                lv,
                vals(x_vec@),
                scalar_val(*gamma),
                scalar_val(*y),
                Pi_c_Proof { proof_0, proof_1, proof_2 },
                P@,
                P_hat@,
                transcript@,
            ));
            assert(pi_c_prove_linked(
                old(transcript)@,
                encs(gens.gens_n.G@),
                point_enc(gens.gens_n.h),
                point_enc(gens.gens_1.G@[0]),
                lv,
                vals(x_vec@),
                scalar_val(*gamma),
                scalar_val(*y),
                Pi_c_Proof { proof_0, proof_1, proof_2 },
                P@,
                P_hat@,
                transcript@,
            ));
        }

        (Pi_c_Proof { proof_0, proof_1, proof_2 }, P, P_hat)
    }

    /// Verifies the composed proof. The outcome is exactly
    /// [`pi_c_verify_spec`] of the received values: recompute `c_0`,
    /// derive `y_hat = c_0 * y + t`, recompute `c_1` and `L_tilde`,
    /// reconstruct `Q = A + c_0 * P + c_1 * y_hat * k`, and delegate the
    /// extended statement to the folding argument.
    pub fn verify(
        &self,
        n: usize,
        gens: &DotProductProofGens,
        transcript: &mut ProofTranscript,
        l_vec: &Vec<Scalar>,
        P: &CompressedGroup,
        y: &Scalar,
        P_hat: &CompressedGroup,
    ) -> (r: Result<(), ProofVerifyError>)
        requires
            gens.wf(),
            n < usize::MAX,
        ensures
            r == pi_c_verify_spec(
                old(transcript)@,
                n as nat,
                gens.gens_n.n as nat,
                encs(gens.gens_n.G@),
                point_enc(gens.gens_n.h),
                point_enc(gens.gens_1.G@[0]),
                vals(l_vec@),
                self.proof_0.A@,
                scalar_val(self.proof_0.t),
                self.proof_2.bullet_reduction_proof,
                P@,
                scalar_val(*y),
                P_hat@,
            ),
            final(transcript)@ == pi_c_verify_final_log(
                old(transcript)@,
                n as nat,
                gens.gens_n.n as nat,
                encs(gens.gens_n.G@),
                point_enc(gens.gens_n.h),
                point_enc(gens.gens_1.G@[0]),
                vals(l_vec@),
                self.proof_0.A@,
                scalar_val(self.proof_0.t),
                self.proof_2.bullet_reduction_proof,
                P@,
                scalar_val(*y),
                P_hat@,
            ),
    {
        if n != gens.gens_n.n || l_vec.len() != n {
            return Err(ProofVerifyError::MalformedInput);
        }

        transcript.append_protocol_name(Pi_c_Proof::protocol_name());
        let ghost log1 = old(transcript)@ + pi_c_name_op();
        proof {
            assert(transcript@ =~~= log1);
        }

        let c_0 = self.proof_0.mod_verify(&gens.gens_n, transcript, l_vec, P, y);
        let ghost log2 = log1 + pi0_ops(
            P@,
            scalar_val(*y),
            self.proof_0.A@,
            scalar_val(self.proof_0.t),
        );
        proof {
            assert(transcript@ =~~= log2);
        }

        let c0y = sc_mul(&c_0, y);
        let y_hat = sc_add(&c0y, &self.proof_0.t);
        proof {
            lemma_mod_add_right(
                scalar_val(self.proof_0.t),
                scalar_val(c_0) * scalar_val(*y),
            );
        }

        let c_1 = self.proof_1.mod_verify(transcript, P_hat, &y_hat);
        let ghost log3 = log2 + pi1_ops(P_hat@, scalar_val(y_hat));
        proof {
            assert(transcript@ =~~= log3);
        }

        let mut L_hat = copy_scalar_vec(l_vec);
        L_hat.push(sc_zero());

        let mut L_tilde: Vec<Scalar> = Vec::new();
        let mut i: usize = 0;
        while i < L_hat.len()
            invariant
                transcript@ == log3,
                i <= L_hat@.len(),
                L_hat@.len() == l_vec@.len() + 1,
                vals(L_hat@) == vals(l_vec@).push(0nat),
                L_tilde@.len() == i,
                forall|j: int| 0 <= j < i ==> scalar_val(#[trigger] L_tilde@[j]) == (scalar_val(c_1)
                    * vals(L_hat@)[j]) % group_order(),
            decreases L_hat@.len() - i,
        {
            L_tilde.push(sc_mul(&c_1, &L_hat[i]));
            i += 1;
        }
        proof {
            assert(vals(L_hat@) =~= vals(l_vec@).push(0nat));
        }

        let A_point = match pt_decompress(&self.proof_0.A) {
            Some(p) => p,
            None => {
                return Err(ProofVerifyError::DecodingError);
            },
        };
        let P_point = match pt_decompress(P) {
            Some(p) => p,
            None => {
                return Err(ProofVerifyError::DecodingError);
            },
        };

        let c0P = pt_smul(&c_0, &P_point);
        let AcP = pt_add(&A_point, &c0P);
        let c1y = sc_mul(&c_1, &y_hat);
        let cyk = pt_smul(&c1y, &gens.gens_1.G[0]);
        let Q_point = pt_add(&AcP, &cyk);
        let Q = crate::curve25519::pt_compress(&Q_point);

        let mut G_hat_vec = copy_point_vec(&gens.gens_n.G);
        G_hat_vec.push(gens.gens_n.h);
        let gens_hat = MultiCommitGens { n: n + 1, G: G_hat_vec, h: pt_basepoint() };

        let r2 = self.proof_2.mod_verify(
            n + 1,
            &gens_hat,
            &gens.gens_1,
            transcript,
            &L_tilde,
            &Q,
        );
        proof {
            let nn = n as nat;
            let c1v = pi1_challenge(log2, P_hat@, scalar_val(y_hat));
            let l_tilde_spec = Seq::new(
                nn + 1,
                |j: int| (c1v * vals(l_vec@).push(0nat)[j]) % group_order(),
            );
            assert(vals(L_tilde@) =~= l_tilde_spec);
            assert(encs(gens_hat.G@) =~= encs(gens.gens_n.G@).push(point_enc(gens.gens_n.h)));
        }
        r2
    }
}

} // verus!
