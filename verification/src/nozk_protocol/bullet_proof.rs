//! The recursive folding argument, the computational core: it proves, for
//! a power-of-two length, knowledge of `z` with
//! `Gamma = MSM(z, G) + <L, z> * k` in `log2(n) - 1` halving rounds.
//!
//! Each round pairs the halves crosswise (`c_L = <z_L, L_R>`,
//! `c_R = <z_R, L_L>` — intentional, not the same-side pairing of the
//! classic inner-product argument), commits the two cross terms, draws a
//! challenge and folds. The proof is the sequence of round commitment
//! pairs plus the final length-2 vector; folded `L` and `G` are never
//! sent, the verifier reconstructs them from the challenges.

use crate::curve25519::cg_encs;
use crate::curve25519::encs;
use crate::curve25519::group_order;
use crate::curve25519::pt_add;
use crate::curve25519::pt_add_enc;
use crate::curve25519::pt_decompress;
use crate::curve25519::pt_eq;
use crate::curve25519::pt_mul_enc;
use crate::curve25519::pt_smul;
use crate::curve25519::point_enc;
use crate::curve25519::pt_compress;
use crate::curve25519::pt_msm;
use crate::curve25519::pt_msm_enc;
use crate::curve25519::pt_valid;
use crate::curve25519::point_vec_slice;
use crate::curve25519::sc_add;
use crate::curve25519::sc_mul;
use crate::curve25519::sc_one;
use crate::curve25519::scalar_val;
use crate::curve25519::scalar_vec_slice;
use crate::curve25519::vals;
use crate::curve25519::CompressedGroup;
use crate::errors::ProofVerifyError;
use crate::math::eq_pow2;
use crate::math::is_pow2;
use crate::math::lemma_mod_add_right;
use crate::math::lg;
use crate::math::pow2;
use crate::scalar_math::compute_linearform;
use crate::scalar_math::dot;
use crate::transcript::challenge_val;
use crate::transcript::t_op;
use crate::transcript::ProofTranscript;
use crate::transcript::C_LABEL;
use crate::transcript::L_LABEL;
use crate::transcript::R_LABEL;
use curve25519_dalek::ristretto::RistrettoPoint;
use curve25519_dalek::scalar::Scalar;
use vstd::prelude::*;

verus! {

/// The folding argument's fragment: one commitment pair per round, in
/// prover order, and the final length-2 response vector.
pub struct BulletReductionProof {
    pub A_vec: Vec<CompressedGroup>,
    pub B_vec: Vec<CompressedGroup>,
    pub z: Vec<Scalar>,
}

/// The round's first commitment: `MSM(z_L ++ [c_L], G_R ++ [k])` with the
/// cross term `c_L = <z_L, L_R>`.
pub open spec fn round_a_enc(z: Seq<nat>, l: Seq<nat>, g: Seq<Seq<u8>>, k: Seq<u8>) -> Seq<u8> {
    let m = (z.len() / 2) as int;
    pt_msm_enc(z.take(m).push(dot(z.take(m), l.skip(m))), g.skip(m).push(k))
}

/// The round's second commitment: `MSM(z_R ++ [c_R], G_L ++ [k])` with the
/// cross term `c_R = <z_R, L_L>`.
pub open spec fn round_b_enc(z: Seq<nat>, l: Seq<nat>, g: Seq<Seq<u8>>, k: Seq<u8>) -> Seq<u8> {
    let m = (z.len() / 2) as int;
    pt_msm_enc(z.skip(m).push(dot(z.skip(m), l.take(m))), g.take(m).push(k))
}

/// The transcript after appending the round's two commitments.
pub open spec fn round_log(
    log: Seq<Seq<u8>>,
    z: Seq<nat>,
    l: Seq<nat>,
    g: Seq<Seq<u8>>,
    k: Seq<u8>,
) -> Seq<Seq<u8>> {
    log + t_op(0, L_LABEL@, round_a_enc(z, l, g, k)) + t_op(0, R_LABEL@, round_b_enc(z, l, g, k))
}

/// The round's challenge: drawn after both commitments are absorbed.
pub open spec fn round_challenge(
    log: Seq<Seq<u8>>,
    z: Seq<nat>,
    l: Seq<nat>,
    g: Seq<Seq<u8>>,
    k: Seq<u8>,
) -> nat {
    challenge_val(round_log(log, z, l, g, k), C_LABEL@)
}

/// The folded left half `z_L + c * z_R`.
pub open spec fn fold_z(z: Seq<nat>, c: nat) -> Seq<nat> {
    let m = (z.len() / 2) as int;
    Seq::new((z.len() / 2) as nat, |i: int| (z[i] + c * z[m + i]) % group_order())
}

/// The folded left half `c * L_L + L_R`.
pub open spec fn fold_l(l: Seq<nat>, c: nat) -> Seq<nat> {
    let m = (l.len() / 2) as int;
    Seq::new((l.len() / 2) as nat, |i: int| (c * l[i] + l[m + i]) % group_order())
}

/// The folded basis `c * G_L[i] + G_R[i]`, computed as a two-term MSM.
pub open spec fn fold_g(g: Seq<Seq<u8>>, c: nat) -> Seq<Seq<u8>> {
    let m = (g.len() / 2) as int;
    Seq::new((g.len() / 2) as nat, |i: int| pt_msm_enc(seq![c, 1nat], seq![g[i], g[m + i]]))
}

/// One full round of the prover: transcript, response, linear form and
/// basis after committing, drawing the challenge and folding.
pub open spec fn one_round(
    log: Seq<Seq<u8>>,
    z: Seq<nat>,
    l: Seq<nat>,
    g: Seq<Seq<u8>>,
    k: Seq<u8>,
) -> (Seq<Seq<u8>>, Seq<nat>, Seq<nat>, Seq<Seq<u8>>) {
    let c = round_challenge(log, z, l, g, k);
    (
        round_log(log, z, l, g, k) + t_op(1, C_LABEL@, Seq::<u8>::empty()),
        fold_z(z, c),
        fold_l(l, c),
        fold_g(g, c),
    )
}

/// The prover's state after `rounds` rounds from the given start.
pub open spec fn fold_state(
    log: Seq<Seq<u8>>,
    z: Seq<nat>,
    l: Seq<nat>,
    g: Seq<Seq<u8>>,
    k: Seq<u8>,
    rounds: nat,
) -> (Seq<Seq<u8>>, Seq<nat>, Seq<nat>, Seq<Seq<u8>>)
    decreases rounds,
{
    if rounds == 0 {
        (log, z, l, g)
    } else {
        let s = one_round(log, z, l, g, k);
        fold_state(s.0, s.1, s.2, s.3, k, (rounds - 1) as nat)
    }
}

/// Iterating one more round is one round applied to the iterated state.
pub proof fn lemma_fold_state_step(
    log: Seq<Seq<u8>>,
    z: Seq<nat>,
    l: Seq<nat>,
    g: Seq<Seq<u8>>,
    k: Seq<u8>,
    i: nat,
)
    ensures
        fold_state(log, z, l, g, k, i + 1) == ({
            let s = fold_state(log, z, l, g, k, i);
            one_round(s.0, s.1, s.2, s.3, k)
        }),
    decreases i,
{
    let s1 = one_round(log, z, l, g, k);
    if i == 0 {
        assert(fold_state(log, z, l, g, k, 1) == fold_state(s1.0, s1.1, s1.2, s1.3, k, 0));
    } else {
        lemma_fold_state_step(s1.0, s1.1, s1.2, s1.3, k, (i - 1) as nat);
        assert(fold_state(log, z, l, g, k, i + 1) == fold_state(s1.0, s1.1, s1.2, s1.3, k, i));
        assert(fold_state(log, z, l, g, k, i) == fold_state(
            s1.0,
            s1.1,
            s1.2,
            s1.3,
            k,
            (i - 1) as nat,
        ));
    }
}

/// The verifier's transcript after replaying `i` received round pairs in
/// prover order, drawing a challenge after each pair.
pub open spec fn replay_log(
    log0: Seq<Seq<u8>>,
    As: Seq<Seq<u8>>,
    Bs: Seq<Seq<u8>>,
    i: nat,
) -> Seq<Seq<u8>>
    decreases i,
{
    if i == 0 {
        log0
    } else {
        replay_log(log0, As, Bs, (i - 1) as nat) + t_op(0, L_LABEL@, As[i - 1]) + t_op(
            0,
            R_LABEL@,
            Bs[i - 1],
        ) + t_op(1, C_LABEL@, Seq::<u8>::empty())
    }
}

/// The challenge the verifier recomputes at round `i` of the replay.
pub open spec fn replay_challenge(
    log0: Seq<Seq<u8>>,
    As: Seq<Seq<u8>>,
    Bs: Seq<Seq<u8>>,
    i: nat,
) -> nat {
    challenge_val(
        replay_log(log0, As, Bs, i) + t_op(0, L_LABEL@, As[i as int]) + t_op(
            0,
            R_LABEL@,
            Bs[i as int],
        ),
        C_LABEL@,
    )
}

/// All `count` recomputed challenges of the replay.
pub open spec fn replay_challenges(
    log0: Seq<Seq<u8>>,
    As: Seq<Seq<u8>>,
    Bs: Seq<Seq<u8>>,
    count: nat,
) -> Seq<nat> {
    Seq::new(count as nat, |i: int| replay_challenge(log0, As, Bs, i as nat))
}

/// One doubling step of the multiplicative challenge distribution: the
/// old entries, then each multiplied by the next challenge.
pub open spec fn ml_extend(ml: Seq<nat>, c: nat) -> Seq<nat> {
    ml + Seq::new(ml.len(), |j: int| (c * ml[j]) % group_order())
}

/// The `2^k`-length multiplicative distribution of `k` challenges: entry
/// `j` is the product of the challenges selected by the set bits of `j`.
/// It is built by extending with the last challenge first, so that one
/// pass replaces replaying the sequential fold.
pub open spec fn ml_vec(ch: Seq<nat>) -> Seq<nat>
    decreases ch.len(),
{
    if ch.len() == 0 {
        seq![1nat]
    } else {
        ml_extend(ml_vec(ch.skip(1)), ch[0])
    }
}

pub proof fn lemma_ml_vec_len(ch: Seq<nat>)
    ensures
        ml_vec(ch).len() == pow2(ch.len()),
    decreases ch.len(),
{
    if ch.len() > 0 {
        lemma_ml_vec_len(ch.skip(1));
    }
}

/// The entries at even positions, where the prover's recursive split put
/// the left halves.
pub open spec fn even_entries<A>(s: Seq<A>) -> Seq<A> {
    Seq::new((s.len() + 1) / 2, |i: int| s[2 * i])
}

/// The entries at odd positions.
pub open spec fn odd_entries<A>(s: Seq<A>) -> Seq<A> {
    Seq::new(s.len() / 2, |i: int| s[2 * i + 1])
}

/// The received commitment folded across rounds in prover order:
/// `Gamma <- A_i + c_i * Gamma + c_i^2 * B_i`.
pub open spec fn gamma_fold(
    As: Seq<Seq<u8>>,
    Bs: Seq<Seq<u8>>,
    ch: Seq<nat>,
    gamma: Seq<u8>,
    i: nat,
) -> Seq<u8>
    decreases i,
{
    if i == 0 {
        gamma
    } else {
        let j = (i - 1) as int;
        pt_msm_enc(
            seq![1nat, ch[j], (ch[j] * ch[j]) % group_order()],
            seq![As[j], gamma_fold(As, Bs, ch, gamma, (i - 1) as nat), Bs[j]],
        )
    }
}

/// Whether the received fragment's shape is possible for a length-`n`
/// statement: matching round counts below 32 (which guards the shift in
/// `2^rounds`), a final vector of length two, and `n/2` equal to
/// `2^rounds`.
pub open spec fn shape_ok(a_len: nat, b_len: nat, z_len: nat, n: nat) -> bool {
    &&& a_len == b_len
    &&& a_len < 32
    &&& z_len == 2
    &&& n % 2 == 0
    &&& n / 2 == pow2(a_len)
}

/// Whether every received round commitment is a canonical point encoding.
pub open spec fn all_points_valid(As: Seq<Seq<u8>>, Bs: Seq<Seq<u8>>) -> bool {
    &&& forall|i: int| 0 <= i < As.len() ==> pt_valid(#[trigger] As[i])
    &&& forall|i: int| 0 <= i < Bs.len() ==> pt_valid(#[trigger] Bs[i])
}

/// The verifier's final equation, over the de-interleaved public vectors
/// combined with the reversed multiplicative distribution:
/// `Gamma_folded == MSM(z, [G_L, G_R]) + <z, [b_L, b_R]> * Q`.
pub open spec fn bullet_final_check(
    As: Seq<Seq<u8>>,
    Bs: Seq<Seq<u8>>,
    ch: Seq<nat>,
    z_fin: Seq<nat>,
    b: Seq<nat>,
    gamma: Seq<u8>,
    q: Seq<u8>,
    g: Seq<Seq<u8>>,
) -> bool {
    let rev = ml_vec(ch).reverse();
    let b_l = dot(even_entries(b), rev);
    let b_r = dot(odd_entries(b), rev);
    let g_l = pt_msm_enc(rev, even_entries(g));
    let g_r = pt_msm_enc(rev, odd_entries(g));
    let gam = gamma_fold(As, Bs, ch, gamma, ch.len());
    let c_fin = dot(z_fin, seq![b_l, b_r]);
    gam == pt_add_enc(pt_msm_enc(z_fin, seq![g_l, g_r]), pt_mul_enc(c_fin, q))
}

/// What [`BulletReductionProof::prove`] guarantees of its fragment and of
/// the transcript it leaves behind: the round commitments and final vector
/// are exactly those of the deterministic fold of the inputs.
pub open spec fn bullet_prove_post(
    bp: BulletReductionProof,
    log0: Seq<Seq<u8>>,
    z0: Seq<nat>,
    l0: Seq<nat>,
    g0: Seq<Seq<u8>>,
    k: Seq<u8>,
    logf: Seq<Seq<u8>>,
) -> bool {
    let rounds = (lg(z0.len()) - 1) as nat;
    &&& bp.A_vec@.len() == rounds
    &&& bp.B_vec@.len() == rounds
    &&& bp.z@.len() == 2
    &&& forall|i: int| 0 <= i < rounds ==> pt_valid(#[trigger] bp.A_vec@[i]@)
    &&& forall|i: int| 0 <= i < rounds ==> pt_valid(#[trigger] bp.B_vec@[i]@)
    &&& forall|i: int| 0 <= i < rounds ==> (#[trigger] bp.A_vec@[i]@) == ({
        let s = fold_state(log0, z0, l0, g0, k, i as nat);
        round_a_enc(s.1, s.2, s.3, k)
    })
    &&& forall|i: int| 0 <= i < rounds ==> (#[trigger] bp.B_vec@[i]@) == ({
        let s = fold_state(log0, z0, l0, g0, k, i as nat);
        round_b_enc(s.1, s.2, s.3, k)
    })
    &&& logf == fold_state(log0, z0, l0, g0, k, rounds).0
    &&& vals(bp.z@) == fold_state(log0, z0, l0, g0, k, rounds).1
}

/// What [`BulletReductionProof::verify`] guarantees of its outcome `r`
/// given the transcript log `log0` it started from: the exact
/// classification of every exit, and the final log `logf`.
pub open spec fn bullet_verify_post(
    bp: BulletReductionProof,
    n: nat,
    log0: Seq<Seq<u8>>,
    b: Seq<nat>,
    gamma: Seq<u8>,
    q: Seq<u8>,
    g: Seq<Seq<u8>>,
    logf: Seq<Seq<u8>>,
    r: Result<(), ProofVerifyError>,
) -> bool {
    let As = cg_encs(bp.A_vec@);
    let Bs = cg_encs(bp.B_vec@);
    let shape = shape_ok(As.len(), Bs.len(), bp.z@.len() as nat, n);
    &&& !shape ==> r == Err::<(), ProofVerifyError>(ProofVerifyError::InternalError) && logf
        == log0
    &&& shape ==> logf == replay_log(log0, As, Bs, As.len())
    &&& shape && !all_points_valid(As, Bs) ==> r == Err::<(), ProofVerifyError>(
        ProofVerifyError::DecodingError,
    )
    &&& shape && all_points_valid(As, Bs) ==> r == (if bullet_final_check(
        As,
        Bs,
        replay_challenges(log0, As, Bs, As.len()),
        vals(bp.z@),
        b,
        gamma,
        q,
        g,
    ) {
        Ok::<(), ProofVerifyError>(())
    } else {
        Err::<(), ProofVerifyError>(ProofVerifyError::VerificationFailure)
    })
}

/// Law: replaying an honestly produced fragment reconstructs the
/// prover's transcript operation for operation, so the challenge the
/// verifier recomputes at each round is bit-identical to the challenge
/// the prover folded with.
pub proof fn lemma_replay_matches_fold(
    bp: BulletReductionProof,
    log0: Seq<Seq<u8>>,
    z0: Seq<nat>,
    l0: Seq<nat>,
    g0: Seq<Seq<u8>>,
    k: Seq<u8>,
    logf: Seq<Seq<u8>>,
    i: nat,
)
    requires
        bullet_prove_post(bp, log0, z0, l0, g0, k, logf),
        i <= bp.A_vec@.len(),
    ensures
        replay_log(log0, cg_encs(bp.A_vec@), cg_encs(bp.B_vec@), i) == fold_state(
            log0,
            z0,
            l0,
            g0,
            k,
            i,
        ).0,
        i < bp.A_vec@.len() ==> replay_challenge(log0, cg_encs(bp.A_vec@), cg_encs(bp.B_vec@), i)
            == ({
            let s = fold_state(log0, z0, l0, g0, k, i);
            round_challenge(s.0, s.1, s.2, s.3, k)
        }),
    decreases i,
{
    let As = cg_encs(bp.A_vec@);
    let Bs = cg_encs(bp.B_vec@);
    if i > 0 {
        lemma_replay_matches_fold(bp, log0, z0, l0, g0, k, logf, (i - 1) as nat);
        lemma_fold_state_step(log0, z0, l0, g0, k, (i - 1) as nat);
        let s = fold_state(log0, z0, l0, g0, k, (i - 1) as nat);
        assert(As[i - 1] == bp.A_vec@[i - 1]@);
        assert(Bs[i - 1] == bp.B_vec@[i - 1]@);
        assert(bp.A_vec@[i - 1]@ == round_a_enc(s.1, s.2, s.3, k));
        assert(bp.B_vec@[i - 1]@ == round_b_enc(s.1, s.2, s.3, k));
    }
    if i < bp.A_vec@.len() {
        let s = fold_state(log0, z0, l0, g0, k, i);
        assert(As[i as int] == bp.A_vec@[i as int]@);
        assert(Bs[i as int] == bp.B_vec@[i as int]@);
        assert(bp.A_vec@[i as int]@ == round_a_enc(s.1, s.2, s.3, k));
        assert(bp.B_vec@[i as int]@ == round_b_enc(s.1, s.2, s.3, k));
    }
}

/// Law: a length-`n` fold emits exactly `log2(n) - 1` round pairs.
pub proof fn lemma_round_count_prove(
    bp: BulletReductionProof,
    log0: Seq<Seq<u8>>,
    z0: Seq<nat>,
    l0: Seq<nat>,
    g0: Seq<Seq<u8>>,
    k: Seq<u8>,
    logf: Seq<Seq<u8>>,
)
    requires
        bullet_prove_post(bp, log0, z0, l0, g0, k, logf),
        z0.len() >= 2,
    ensures
        bp.A_vec@.len() == lg(z0.len()) - 1,
        bp.B_vec@.len() == lg(z0.len()) - 1,
{
    assert(lg(z0.len()) >= 1) by {
        assert(z0.len() / 2 >= 1);
    }
}

/// Law: the verifier rejects out of hand a proof claiming 32 or more
/// round pairs, before any unbounded work.
pub proof fn lemma_oversized_rejected(
    bp: BulletReductionProof,
    n: nat,
    log0: Seq<Seq<u8>>,
    b: Seq<nat>,
    gamma: Seq<u8>,
    q: Seq<u8>,
    g: Seq<Seq<u8>>,
    logf: Seq<Seq<u8>>,
    r: Result<(), ProofVerifyError>,
)
    requires
        bullet_verify_post(bp, n, log0, b, gamma, q, g, logf, r),
        bp.A_vec@.len() >= 32,
    ensures
        r == Err::<(), ProofVerifyError>(ProofVerifyError::InternalError),
{
    assert(cg_encs(bp.A_vec@).len() == bp.A_vec@.len());
}

impl BulletReductionProof {
    /// The number of scalars and points in the fragment, saturating at
    /// the machine limit.
    pub fn siz(&self) -> (r: usize)
        ensures
            r == if self.A_vec@.len() + self.B_vec@.len() + self.z@.len() <= usize::MAX {
                self.A_vec@.len() + self.B_vec@.len() + self.z@.len()
            } else {
                usize::MAX as nat
            },
    {
        let a = self.A_vec.len();
        let b = self.B_vec.len();
        let z = self.z.len();
        if a <= usize::MAX - b {
            let ab = a + b;
            if ab <= usize::MAX - z {
                ab + z
            } else {
                usize::MAX
            }
        } else {
            usize::MAX
        }
    }

    /// Runs the `log2(n) - 1` folding rounds over the shared transcript.
    /// The returned fragment's round commitments and final vector are
    /// exactly those of the deterministic fold [`fold_state`] of the
    /// inputs, so a verifier replaying the same transcript prefix
    /// recomputes the same challenges.
    pub fn prove(
        transcript: &mut ProofTranscript,
        k: &RistrettoPoint,
        G_vec: &Vec<RistrettoPoint>,
        z_vec: &Vec<Scalar>,
        L_vec: &Vec<Scalar>,
    ) -> (r: BulletReductionProof)
        requires
            is_pow2(G_vec@.len() as nat),
            G_vec@.len() >= 2,
            z_vec@.len() == G_vec@.len(),
            L_vec@.len() == G_vec@.len(),
        ensures
            bullet_prove_post(
                r,
                old(transcript)@,
                vals(z_vec@),
                vals(L_vec@),
                encs(G_vec@),
                point_enc(*k),
                final(transcript)@,
            ),
    {
        let ghost log0 = transcript@;
        let ghost z0 = vals(z_vec@);
        let ghost l0 = vals(L_vec@);
        let ghost g0 = encs(G_vec@);
        let ghost kenc = point_enc(*k);
        let ghost n0 = G_vec@.len() as nat;

        let mut z = crate::curve25519::copy_scalar_vec(z_vec);
        let mut l = crate::curve25519::copy_scalar_vec(L_vec);
        let mut g = crate::curve25519::copy_point_vec(G_vec);
        let mut A_vec: Vec<CompressedGroup> = Vec::new();
        let mut B_vec: Vec<CompressedGroup> = Vec::new();

        while z.len() != 2
            invariant
                z@.len() == l@.len(),
                l@.len() == g@.len(),
                is_pow2(z@.len() as nat),
                z@.len() >= 2,
                A_vec@.len() == B_vec@.len(),
                lg(z@.len() as nat) + A_vec@.len() == lg(n0),
                n0 == G_vec@.len(),
                z0 == vals(z_vec@),
                l0 == vals(L_vec@),
                g0 == encs(G_vec@),
                kenc == point_enc(*k),
                is_pow2(n0),
                n0 >= 2,
                ({
                    let s = fold_state(log0, z0, l0, g0, kenc, A_vec@.len() as nat);
                    transcript@ == s.0 && vals(z@) == s.1 && vals(l@) == s.2 && encs(g@) == s.3
                }),
                forall|i: int| 0 <= i < A_vec@.len() ==> pt_valid(#[trigger] A_vec@[i]@),
                forall|i: int| 0 <= i < B_vec@.len() ==> pt_valid(#[trigger] B_vec@[i]@),
                forall|i: int| 0 <= i < A_vec@.len() ==> (#[trigger] A_vec@[i]@) == ({
                    let s = fold_state(log0, z0, l0, g0, kenc, i as nat);
                    round_a_enc(s.1, s.2, s.3, kenc)
                }),
                forall|i: int| 0 <= i < B_vec@.len() ==> (#[trigger] B_vec@[i]@) == ({
                    let s = fold_state(log0, z0, l0, g0, kenc, i as nat);
                    round_b_enc(s.1, s.2, s.3, kenc)
                }),
                log0 == old(transcript)@,
            decreases z@.len(),
        {
            let n = z.len();
            let m = n / 2;
            proof {
                assert(z@.len() > 2);
                assert(z@.len() % 2 == 0 && is_pow2((z@.len() / 2) as nat));
            }
            let z_L = scalar_vec_slice(&z, 0, m);
            let z_R = scalar_vec_slice(&z, m, n);
            let l_L = scalar_vec_slice(&l, 0, m);
            let l_R = scalar_vec_slice(&l, m, n);
            let g_L = point_vec_slice(&g, 0, m);
            let g_R = point_vec_slice(&g, m, n);
            proof {
                assert(vals(z_L@) =~= vals(z@).take(m as int));
                assert(vals(z_R@) =~= vals(z@).skip(m as int));
                assert(vals(l_L@) =~= vals(l@).take(m as int));
                assert(vals(l_R@) =~= vals(l@).skip(m as int));
                assert(encs(g_L@) =~= encs(g@).take(m as int));
                assert(encs(g_R@) =~= encs(g@).skip(m as int));
            }

            let c_L = compute_linearform(&z_L, &l_R);
            let c_R = compute_linearform(&z_R, &l_L);

            let mut az = scalar_vec_slice(&z, 0, m);
            az.push(c_L);
            let mut ag = point_vec_slice(&g, m, n);
            ag.push(*k);
            proof {
                assert(vals(az@) =~= vals(z@).take(m as int).push(
                    dot(vals(z@).take(m as int), vals(l@).skip(m as int)),
                ));
                assert(encs(ag@) =~= encs(g@).skip(m as int).push(kenc));
            }
            let A = pt_msm(&az, &ag);

            let mut bz = scalar_vec_slice(&z, m, n);
            bz.push(c_R);
            let mut bg = point_vec_slice(&g, 0, m);
            bg.push(*k);
            proof {
                assert(vals(bz@) =~= vals(z@).skip(m as int).push(
                    dot(vals(z@).skip(m as int), vals(l@).take(m as int)),
                ));
                assert(encs(bg@) =~= encs(g@).take(m as int).push(kenc));
            }
            let B = pt_msm(&bz, &bg);

            let A_c = pt_compress(&A);
            let B_c = pt_compress(&B);
            proof {
                assert(A_c@ == round_a_enc(vals(z@), vals(l@), encs(g@), kenc));
                assert(B_c@ == round_b_enc(vals(z@), vals(l@), encs(g@), kenc));
            }

            transcript.append_point(&L_LABEL, &A_c);
            transcript.append_point(&R_LABEL, &B_c);
            let ghost pre_round = fold_state(log0, z0, l0, g0, kenc, A_vec@.len() as nat);
            proof {
                assert(transcript@ =~~= round_log(pre_round.0, vals(z@), vals(l@), encs(g@), kenc));
            }
            let c = transcript.challenge_scalar(&C_LABEL);
            let ghost cv = round_challenge(pre_round.0, vals(z@), vals(l@), encs(g@), kenc);
            proof {
                assert(scalar_val(c) == cv);
            }

            let mut zf: Vec<Scalar> = Vec::new();
            let mut lf: Vec<Scalar> = Vec::new();
            let mut gf: Vec<RistrettoPoint> = Vec::new();
            let mut idx: usize = 0;
            let one = sc_one();
            while idx < m
                invariant
                    m == z_L@.len(),
                    z_L@ == z@.subrange(0, m as int),
                    z_R@ == z@.subrange(m as int, z@.len() as int),
                    l_L@ == l@.subrange(0, m as int),
                    l_R@ == l@.subrange(m as int, l@.len() as int),
                    g_L@ == g@.subrange(0, m as int),
                    g_R@ == g@.subrange(m as int, g@.len() as int),
                    z@.len() == l@.len(),
                    l@.len() == g@.len(),
                    z@.len() == 2 * m,
                    scalar_val(one) == 1,
                    scalar_val(c) == cv,
                    idx <= m,
                    zf@.len() == idx,
                    lf@.len() == idx,
                    gf@.len() == idx,
                    forall|j: int| 0 <= j < idx ==> scalar_val(#[trigger] zf@[j]) == fold_z(
                        vals(z@),
                        cv,
                    )[j],
                    forall|j: int| 0 <= j < idx ==> scalar_val(#[trigger] lf@[j]) == fold_l(
                        vals(l@),
                        cv,
                    )[j],
                    forall|j: int| 0 <= j < idx ==> point_enc(#[trigger] gf@[j]) == fold_g(
                        encs(g@),
                        cv,
                    )[j],
                decreases m - idx,
            {
                let czr = sc_mul(&c, &z_R[idx]);
                zf.push(sc_add(&z_L[idx], &czr));
                proof {
                    lemma_mod_add_right(
                        scalar_val(z_L@[idx as int]),
                        cv * scalar_val(z_R@[idx as int]),
                    );
                }
                let cll = sc_mul(&c, &l_L[idx]);
                lf.push(sc_add(&cll, &l_R[idx]));
                proof {
                    lemma_mod_add_right(
                        scalar_val(l_R@[idx as int]),
                        cv * scalar_val(l_L@[idx as int]),
                    );
                }
                let mut ps: Vec<Scalar> = Vec::new();
                ps.push(c);
                ps.push(one);
                let mut pp: Vec<RistrettoPoint> = Vec::new();
                pp.push(g_L[idx]);
                pp.push(g_R[idx]);
                gf.push(pt_msm(&ps, &pp));
                proof {
                    assert(vals(ps@) =~= seq![cv, 1nat]);
                    assert(encs(pp@) =~= seq![
                        point_enc(g@[idx as int]),
                        point_enc(g@[m + idx as int]),
                    ]);
                }
                idx += 1;
            }

            A_vec.push(A_c);
            B_vec.push(B_c);
            proof {
                lemma_fold_state_step(log0, z0, l0, g0, kenc, (A_vec@.len() - 1) as nat);
                assert(vals(zf@) =~= fold_z(vals(z@), cv));
                assert(vals(lf@) =~= fold_l(vals(l@), cv));
                assert(encs(gf@) =~= fold_g(encs(g@), cv));
            }
            z = zf;
            l = lf;
            g = gf;
        }

        proof {
            assert(lg(1) == 0);
            assert(lg(2) == 1);
        }
        BulletReductionProof { A_vec, B_vec, z }
    }

    /// Replays the received round pairs to recompute the challenges, then
    /// builds the multiplicative challenge distribution and its reverse.
    /// Rejects an impossible shape before doing unbounded work.
    fn verification_scalars(&self, n: usize, transcript: &mut ProofTranscript) -> (r: Result<
        (Vec<Scalar>, Vec<Scalar>, Vec<Scalar>),
        ProofVerifyError,
    >)
        ensures
            !shape_ok(
                self.A_vec@.len() as nat,
                self.B_vec@.len() as nat,
                self.z@.len() as nat,
                n as nat,
            ) ==> r == Err::<(Vec<Scalar>, Vec<Scalar>, Vec<Scalar>), ProofVerifyError>(
                ProofVerifyError::InternalError,
            ) && final(transcript)@ == old(transcript)@,
            shape_ok(
                self.A_vec@.len() as nat,
                self.B_vec@.len() as nat,
                self.z@.len() as nat,
                n as nat,
            ) ==> (r matches Ok(t) && ({
                let ch = replay_challenges(
                    old(transcript)@,
                    cg_encs(self.A_vec@),
                    cg_encs(self.B_vec@),
                    self.A_vec@.len() as nat,
                );
                &&& vals(t.2@) == ch
                &&& vals(t.0@) == ml_vec(ch)
                &&& vals(t.1@) == ml_vec(ch).reverse()
                &&& t.0@.len() == pow2(self.A_vec@.len() as nat)
                &&& t.1@.len() == t.0@.len()
                &&& final(transcript)@ == replay_log(
                    old(transcript)@,
                    cg_encs(self.A_vec@),
                    cg_encs(self.B_vec@),
                    self.A_vec@.len() as nat,
                )
            })),
    {
        let lg_n = self.A_vec.len();
        if lg_n >= 32 {
            return Err(ProofVerifyError::InternalError);
        }
        if self.B_vec.len() != lg_n {
            return Err(ProofVerifyError::InternalError);
        }
        if self.z.len() != 2 {
            return Err(ProofVerifyError::InternalError);
        }
        if n % 2 != 0 || !eq_pow2(n / 2, lg_n) {
            return Err(ProofVerifyError::InternalError);
        }

        let ghost log0 = transcript@;
        let ghost As = cg_encs(self.A_vec@);
        let ghost Bs = cg_encs(self.B_vec@);

        let mut challenges: Vec<Scalar> = Vec::new();
        let mut i: usize = 0;
        while i < lg_n
            invariant
                lg_n == self.A_vec@.len(),
                lg_n == self.B_vec@.len(),
                i <= lg_n,
                As == cg_encs(self.A_vec@),
                Bs == cg_encs(self.B_vec@),
                log0 == old(transcript)@,
                transcript@ == replay_log(log0, As, Bs, i as nat),
                challenges@.len() == i,
                forall|j: int| 0 <= j < i ==> scalar_val(#[trigger] challenges@[j])
                    == replay_challenge(log0, As, Bs, j as nat),
            decreases lg_n - i,
        {
            transcript.append_point(&L_LABEL, &self.A_vec[i]);
            transcript.append_point(&R_LABEL, &self.B_vec[i]);
            proof {
                assert(transcript@ =~~= replay_log(log0, As, Bs, i as nat) + t_op(
                    0,
                    L_LABEL@,
                    As[i as int],
                ) + t_op(0, R_LABEL@, Bs[i as int]));
            }
            let c = transcript.challenge_scalar(&C_LABEL);
            challenges.push(c);
            proof {
                assert(transcript@ =~~= replay_log(log0, As, Bs, i as nat + 1));
            }
            i += 1;
        }
        let ghost chv = vals(challenges@);
        proof {
            assert(chv =~= replay_challenges(log0, As, Bs, lg_n as nat));
        }

        let mut ml_challenges: Vec<Scalar> = Vec::new();
        ml_challenges.push(sc_one());
        proof {
            assert(chv.skip(lg_n as int) =~= Seq::<nat>::empty());
            assert(vals(ml_challenges@) =~= ml_vec(chv.skip(lg_n as int)));
        }
        let mut rounds_left: usize = lg_n;
        while rounds_left > 0
            invariant
                rounds_left <= lg_n,
                lg_n == challenges@.len(),
                chv == vals(challenges@),
                vals(ml_challenges@) == ml_vec(chv.skip(rounds_left as int)),
            decreases rounds_left,
        {
            rounds_left = rounds_left - 1;
            let len_ml = ml_challenges.len();
            let ghost ml0 = ml_challenges@;
            let mut j: usize = 0;
            while j < len_ml
                invariant
                    rounds_left < lg_n,
                    lg_n == challenges@.len(),
                    chv == vals(challenges@),
                    len_ml == ml0.len(),
                    j <= len_ml,
                    ml_challenges@.len() == len_ml + j,
                    ml_challenges@.take(len_ml as int) == ml0,
                    forall|jj: int| len_ml <= jj < len_ml + j ==> scalar_val(
                        #[trigger] ml_challenges@[jj],
                    ) == (chv[rounds_left as int] * scalar_val(ml0[jj - len_ml]))
                        % group_order(),
                decreases len_ml - j,
            {
                let t = sc_mul(&challenges[rounds_left], &ml_challenges[j]);
                ml_challenges.push(t);
                proof {
                    assert(ml_challenges@.take(len_ml as int) =~= ml0);
                }
                j += 1;
            }
            proof {
                assert(chv.skip(rounds_left as int).skip(1) =~= chv.skip(rounds_left as int + 1));
                assert(vals(ml_challenges@) =~= ml_extend(
                    ml_vec(chv.skip(rounds_left as int + 1)),
                    chv[rounds_left as int],
                ));
            }
        }
        proof {
            assert(chv.skip(0) =~= chv);
            lemma_ml_vec_len(chv);
        }

        let mut rev_ml_challenges: Vec<Scalar> = Vec::new();
        let total = ml_challenges.len();
        let mut left: usize = total;
        while left > 0
            invariant
                left <= total,
                total == ml_challenges@.len(),
                rev_ml_challenges@.len() == total - left,
                forall|jj: int| 0 <= jj < total - left ==> #[trigger] rev_ml_challenges@[jj]
                    == ml_challenges@[total - 1 - jj],
            decreases left,
        {
            left = left - 1;
            rev_ml_challenges.push(ml_challenges[left]);
        }
        proof {
            assert(vals(rev_ml_challenges@) =~= vals(ml_challenges@).reverse());
        }

        Ok((ml_challenges, rev_ml_challenges, challenges))
    }

    /// Checks the folding argument against the received fragment. The
    /// outcome classifies exactly: an impossible shape is
    /// `InternalError` with the transcript untouched; a round commitment
    /// that is no canonical encoding is `DecodingError`; otherwise the
    /// replay completes and acceptance is precisely the final equation
    /// [`bullet_final_check`] — a deterministic function of the inputs.
    #[verifier::loop_isolation(false)]
    pub fn verify(
        &self,
        n: usize,
        b: &Vec<Scalar>,
        transcript: &mut ProofTranscript,
        Gamma: &RistrettoPoint,
        Q: &RistrettoPoint,
        G: &Vec<RistrettoPoint>,
    ) -> (r: Result<(), ProofVerifyError>)
        requires
            n == b@.len(),
            G@.len() == n,
        ensures
            bullet_verify_post(
                *self,
                n as nat,
                old(transcript)@,
                vals(b@),
                point_enc(*Gamma),
                point_enc(*Q),
                encs(G@),
                final(transcript)@,
                r,
            ),
    {
        let ghost log0 = transcript@;
        let ghost As = cg_encs(self.A_vec@);
        let ghost Bs = cg_encs(self.B_vec@);

        let scalars = self.verification_scalars(n, transcript);
        let (ml_challenges, rev_ml_challenges, challenges) = match scalars {
            Ok(t) => t,
            Err(e) => {
                return Err(e);
            },
        };
        let ghost chv = vals(challenges@);
        let lg_n = self.A_vec.len();

        let mut Ls: Vec<RistrettoPoint> = Vec::new();
        let mut i: usize = 0;
        while i < lg_n
            invariant
                lg_n == self.A_vec@.len(),
                As == cg_encs(self.A_vec@),
                transcript@ == replay_log(log0, As, Bs, lg_n as nat),
                log0 == old(transcript)@,
                i <= lg_n,
                Ls@.len() == i,
                forall|j: int| 0 <= j < i ==> pt_valid(#[trigger] As[j]) && point_enc(Ls@[j])
                    == As[j],
            decreases lg_n - i,
        {
            match pt_decompress(&self.A_vec[i]) {
                Some(p) => {
                    Ls.push(p);
                },
                None => {
                    proof {
                        assert(As[i as int] == self.A_vec@[i as int]@);
                        assert(!all_points_valid(As, Bs));
                    }
                    return Err(ProofVerifyError::DecodingError);
                },
            }
            i += 1;
        }

        let mut Rs: Vec<RistrettoPoint> = Vec::new();
        let mut i2: usize = 0;
        while i2 < lg_n
            invariant
                lg_n == self.B_vec@.len(),
                Bs == cg_encs(self.B_vec@),
                transcript@ == replay_log(log0, As, Bs, lg_n as nat),
                log0 == old(transcript)@,
                i2 <= lg_n,
                Rs@.len() == i2,
                forall|j: int| 0 <= j < i2 ==> pt_valid(#[trigger] Bs[j]) && point_enc(Rs@[j])
                    == Bs[j],
            decreases lg_n - i2,
        {
            match pt_decompress(&self.B_vec[i2]) {
                Some(p) => {
                    Rs.push(p);
                },
                None => {
                    proof {
                        assert(Bs[i2 as int] == self.B_vec@[i2 as int]@);
                        assert(!all_points_valid(As, Bs));
                    }
                    return Err(ProofVerifyError::DecodingError);
                },
            }
            i2 += 1;
        }

        let half = n / 2;
        let mut b_odd: Vec<Scalar> = Vec::new();
        let mut b_even: Vec<Scalar> = Vec::new();
        let mut j: usize = 0;
        while j < half
            invariant
                n == b@.len(),
                half == n / 2,
                n % 2 == 0,
                transcript@ == replay_log(log0, As, Bs, lg_n as nat),
                log0 == old(transcript)@,
                j <= half,
                b_odd@.len() == j,
                b_even@.len() == j,
                forall|jj: int| 0 <= jj < j ==> #[trigger] b_odd@[jj] == b@[2 * jj],
                forall|jj: int| 0 <= jj < j ==> #[trigger] b_even@[jj] == b@[2 * jj + 1],
            decreases half - j,
        {
            b_odd.push(b[2 * j]);
            b_even.push(b[2 * j + 1]);
            j += 1;
        }
        proof {
            assert(vals(b_odd@) =~= even_entries(vals(b@)));
            assert(vals(b_even@) =~= odd_entries(vals(b@)));
        }

        let mut G_odd: Vec<RistrettoPoint> = Vec::new();
        let mut G_even: Vec<RistrettoPoint> = Vec::new();
        let mut j2: usize = 0;
        while j2 < half
            invariant
                n == G@.len(),
                half == n / 2,
                n % 2 == 0,
                transcript@ == replay_log(log0, As, Bs, lg_n as nat),
                log0 == old(transcript)@,
                j2 <= half,
                G_odd@.len() == j2,
                G_even@.len() == j2,
                forall|jj: int| 0 <= jj < j2 ==> #[trigger] G_odd@[jj] == G@[2 * jj],
                forall|jj: int| 0 <= jj < j2 ==> #[trigger] G_even@[jj] == G@[2 * jj + 1],
            decreases half - j2,
        {
            G_odd.push(G[2 * j2]);
            G_even.push(G[2 * j2 + 1]);
            j2 += 1;
        }
        proof {
            assert(encs(G_odd@) =~= even_entries(encs(G@)));
            assert(encs(G_even@) =~= odd_entries(encs(G@)));
            assert(even_entries(encs(G@)) =~= encs(even_entries(G@)));
        }

        let b_L_hat = compute_linearform(&b_odd, &rev_ml_challenges);
        let b_R_hat = compute_linearform(&b_even, &rev_ml_challenges);

        let G_L_hat = pt_msm(&rev_ml_challenges, &G_odd);
        let G_R_hat = pt_msm(&rev_ml_challenges, &G_even);

        let one = sc_one();
        let mut Gamma_hat = *Gamma;
        let mut fi: usize = 0;
        while fi < lg_n
            invariant
                lg_n == challenges@.len(),
                lg_n == Ls@.len(),
                lg_n == Rs@.len(),
                chv == vals(challenges@),
                As == cg_encs(self.A_vec@),
                Bs == cg_encs(self.B_vec@),
                forall|j: int| 0 <= j < lg_n ==> point_enc(#[trigger] Ls@[j]) == As[j],
                forall|j: int| 0 <= j < lg_n ==> point_enc(#[trigger] Rs@[j]) == Bs[j],
                scalar_val(one) == 1,
                transcript@ == replay_log(log0, As, Bs, lg_n as nat),
                log0 == old(transcript)@,
                fi <= lg_n,
                point_enc(Gamma_hat) == gamma_fold(As, Bs, chv, point_enc(*Gamma), fi as nat),
            decreases lg_n - fi,
        {
            let c_sq = sc_mul(&challenges[fi], &challenges[fi]);
            let mut ps: Vec<Scalar> = Vec::new();
            ps.push(one);
            ps.push(challenges[fi]);
            ps.push(c_sq);
            let mut pp: Vec<RistrettoPoint> = Vec::new();
            pp.push(Ls[fi]);
            pp.push(Gamma_hat);
            pp.push(Rs[fi]);
            let folded = pt_msm(&ps, &pp);
            proof {
                assert(vals(ps@) =~= seq![
                    1nat,
                    chv[fi as int],
                    (chv[fi as int] * chv[fi as int]) % group_order(),
                ]);
                assert(encs(pp@) =~= seq![
                    As[fi as int],
                    gamma_fold(As, Bs, chv, point_enc(*Gamma), fi as nat),
                    Bs[fi as int],
                ]);
            }
            Gamma_hat = folded;
            fi += 1;
        }

        let mut b_hats: Vec<Scalar> = Vec::new();
        b_hats.push(b_L_hat);
        b_hats.push(b_R_hat);
        let c = compute_linearform(&self.z, &b_hats);

        let mut G_hats: Vec<RistrettoPoint> = Vec::new();
        G_hats.push(G_L_hat);
        G_hats.push(G_R_hat);
        let msm_z = pt_msm(&self.z, &G_hats);
        let c_q = pt_smul(&c, Q);
        let rhs = pt_add(&msm_z, &c_q);

        proof {
            assert(vals(b_hats@) =~= seq![
                dot(even_entries(vals(b@)), ml_vec(chv).reverse()),
                dot(odd_entries(vals(b@)), ml_vec(chv).reverse()),
            ]);
            assert(encs(G_hats@) =~= seq![
                pt_msm_enc(ml_vec(chv).reverse(), even_entries(encs(G@))),
                pt_msm_enc(ml_vec(chv).reverse(), odd_entries(encs(G@))),
            ]);
        }

        if pt_eq(&Gamma_hat, &rhs) {
            Ok(())
        } else {
            Err(ProofVerifyError::VerificationFailure)
        }
    }
}

} // verus!
