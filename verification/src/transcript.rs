//! The Fiat-Shamir transcript: an append-only, order-sensitive log of
//! labelled public values, from which challenges are derived as
//! deterministic hashes of the whole prefix.
//!
//! The hashing itself is `merlin`'s; this module models a transcript by its
//! log, a sequence of operations, each recorded as a tag (append or
//! challenge), a label and the appended bytes. A challenge is
//! [`challenge_bytes_of`], a function of the log prefix and the label alone:
//! prover and verifier that build identical logs draw identical challenges.

use crate::curve25519::le_val;
use crate::curve25519::group_order;
use crate::curve25519::le_bytes;
use crate::curve25519::sc_from_bytes_wide;
use crate::curve25519::sc_to_bytes;
use crate::curve25519::scalar_val;
use crate::curve25519::CompressedGroup;
use vstd::prelude::*;

verus! {

#[verifier::external_type_specification]
#[verifier::external_body]
pub struct ExMerlinTranscript(merlin::Transcript);

/// One recorded transcript operation: a one-byte tag (0 for an append, 1
/// for a challenge), then the label, then the appended bytes.
pub open spec fn t_op(tag: u8, label: Seq<u8>, data: Seq<u8>) -> Seq<Seq<u8>> {
    seq![seq![tag], label, data]
}

/// The 64 bytes that `merlin`'s `challenge_bytes` squeezes out of the
/// transcript whose log is `log` when asked under `label`: a function of
/// the two alone.
pub uninterp spec fn challenge_bytes_of(log: Seq<Seq<u8>>, label: Seq<u8>) -> Seq<u8>;

/// The scalar that a transcript with log `log` yields as a challenge under
/// `label`: the squeezed 64 bytes read little-endian, reduced modulo the
/// group order.
pub open spec fn challenge_val(log: Seq<Seq<u8>>, label: Seq<u8>) -> nat {
    le_val(challenge_bytes_of(log, label)) % group_order()
}

/// The bytes of the label `protocol-name`, under which each stage's
/// protocol name is appended.
pub const PROTOCOL_NAME_LABEL: [u8; 13] = [
    112, 114, 111, 116, 111, 99, 111, 108, 45, 110, 97, 109, 101,
];

/// The bytes of `init_randomness`.
pub const INIT_RANDOMNESS_LABEL: [u8; 15] = [
    105, 110, 105, 116, 95, 114, 97, 110, 100, 111, 109, 110, 101, 115, 115,
];

/// The bytes of `A`.
pub const A_LABEL: [u8; 1] = [65];

/// The bytes of `t`.
pub const T_LABEL: [u8; 1] = [116];

/// The bytes of `c`.
pub const C_LABEL: [u8; 1] = [99];

/// The bytes of `r_vec`.
pub const R_VEC_LABEL: [u8; 5] = [114, 95, 118, 101, 99];

/// The bytes of `rho`.
pub const RHO_LABEL: [u8; 3] = [114, 104, 111];

/// The bytes of `pi_0_proof`.
pub const PI_0_NAME: [u8; 10] = [112, 105, 95, 48, 95, 112, 114, 111, 111, 102];

/// The bytes of `P`.
pub const P_LABEL: [u8; 1] = [80];

/// The bytes of `y`.
pub const Y_LABEL: [u8; 1] = [121];

/// The bytes of `pi_1_proof`.
pub const PI_1_NAME: [u8; 10] = [112, 105, 95, 49, 95, 112, 114, 111, 111, 102];

/// The bytes of `P_hat`.
pub const P_HAT_LABEL: [u8; 5] = [80, 95, 104, 97, 116];

/// The bytes of `y_hat`.
pub const Y_HAT_LABEL: [u8; 5] = [121, 95, 104, 97, 116];

/// The bytes of `c_1`.
pub const C_1_LABEL: [u8; 3] = [99, 95, 49];

/// The bytes of `pi_2 proof`.
pub const PI_2_NAME: [u8; 10] = [112, 105, 95, 50, 32, 112, 114, 111, 111, 102];

/// The bytes of `Q`.
pub const Q_LABEL: [u8; 1] = [81];

/// The bytes of `L`.
pub const L_LABEL: [u8; 1] = [76];

/// The bytes of `R`.
pub const R_LABEL: [u8; 1] = [82];

/// The bytes of `zk compressed pi_c proof`.
pub const PI_C_NAME: [u8; 24] = [
    122, 107, 32, 99, 111, 109, 112, 114, 101, 115, 115, 101, 100, 32, 112, 105, 95, 99, 32, 112,
    114, 111, 111, 102,
];

/// The bytes of `zk pi_affine proof`.
pub const PI_A_NAME: [u8; 18] = [
    122, 107, 32, 112, 105, 95, 97, 102, 102, 105, 110, 101, 32, 112, 114, 111, 111, 102,
];

/// An append-only transcript. The ghost log mirrors, operation for
/// operation, what has been fed to the underlying hash.
pub struct ProofTranscript {
    t: merlin::Transcript,
    log: Ghost<Seq<Seq<u8>>>,
}

impl View for ProofTranscript {
    type V = Seq<Seq<u8>>;

    closed spec fn view(&self) -> Seq<Seq<u8>> {
        self.log@
    }
}

/// Relies on `merlin::Transcript::new`: a fresh transcript, domain-separated
/// by the given label. The label is absorbed as a length-framed message,
/// which caps it at `u32::MAX` bytes.
#[verifier::external_body]
fn merlin_new(label: &'static [u8]) -> merlin::Transcript
    requires
        label@.len() <= u32::MAX,
{
    merlin::Transcript::new(label)
}

/// Relies on `merlin::Transcript::append_message`: absorbs the label and
/// the message into the transcript state. The message length is framed as
/// 32 bits, which caps it at `u32::MAX` bytes.
#[verifier::external_body]
fn merlin_append(t: &mut merlin::Transcript, label: &'static [u8], message: &[u8])
    requires
        message@.len() <= u32::MAX,
{
    t.append_message(label, message);
}

impl ProofTranscript {
    pub fn new(label: &'static [u8]) -> (r: ProofTranscript)
        requires
            label@.len() <= u32::MAX,
        ensures
            r@ == t_op(0, label@, Seq::<u8>::empty()),
    {
        ProofTranscript { t: merlin_new(label), log: Ghost(t_op(0, label@, Seq::<u8>::empty())) }
    }

    pub fn append_bytes(&mut self, label: &'static [u8], message: &[u8])
        requires
            message@.len() <= u32::MAX,
        ensures
            final(self)@ == old(self)@ + t_op(0, label@, message@),
    {
        merlin_append(&mut self.t, label, message);
        let new_log: Ghost<Seq<Seq<u8>>> = Ghost(self.log@ + t_op(0, label@, message@));
        self.log = new_log;
    }

    /// Relies on `merlin::Transcript::challenge_bytes`: the squeezed bytes
    /// are a deterministic function of everything absorbed so far and the
    /// label, and squeezing also ratchets the transcript state.
    #[verifier::external_body]
    pub fn challenge_bytes64(&mut self, label: &'static [u8]) -> (r: [u8; 64])
        ensures
            r@ == challenge_bytes_of(old(self)@, label@),
            final(self)@ == old(self)@ + t_op(1, label@, Seq::<u8>::empty()),
    {
        let mut buf = [0u8; 64];
        self.t.challenge_bytes(label, &mut buf);
        buf
    }

    pub fn challenge_scalar(&mut self, label: &'static [u8]) -> (r:
        curve25519_dalek::scalar::Scalar)
        ensures
            scalar_val(r) == challenge_val(old(self)@, label@),
            final(self)@ == old(self)@ + t_op(1, label@, Seq::<u8>::empty()),
    {
        let buf = self.challenge_bytes64(label);
        sc_from_bytes_wide(&buf)
    }

    pub fn append_protocol_name(&mut self, name: &'static [u8])
        requires
            name@.len() <= u32::MAX,
        ensures
            final(self)@ == old(self)@ + t_op(0, PROTOCOL_NAME_LABEL@, name@),
    {
        self.append_bytes(&PROTOCOL_NAME_LABEL, name);
    }

    pub fn append_scalar(&mut self, label: &'static [u8], s: &curve25519_dalek::scalar::Scalar)
        ensures
            final(self)@ == old(self)@ + t_op(0, label@, le_bytes(scalar_val(*s), 32)),
    {
        let bytes = sc_to_bytes(s);
        self.append_bytes(label, bytes.as_slice());
    }

    pub fn append_point(&mut self, label: &'static [u8], c: &CompressedGroup)
        ensures
            final(self)@ == old(self)@ + t_op(0, label@, c@),
    {
        self.append_bytes(label, c.bytes.as_slice());
    }
}

} // verus!
