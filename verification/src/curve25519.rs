//! Scalar-field and Ristretto-group layer.
//!
//! The arithmetic itself is done by `curve25519_dalek`; this module gives it
//! a mathematical face. A scalar is modelled by [`scalar_val`], its value
//! modulo the group order; a group element by [`point_enc`], its canonical
//! compressed encoding. Every operation the protocol relies on is a trusted
//! wrapper whose contract states how these models evolve; all reasoning
//! above this module is verified against those contracts.

use curve25519_dalek::traits::VartimeMultiscalarMul;
use vstd::prelude::*;

verus! {

#[verifier::external_type_specification]
#[verifier::external_body]
pub struct ExDalekScalar(curve25519_dalek::scalar::Scalar);

#[verifier::external_type_specification]
#[verifier::external_body]
pub struct ExRistrettoPoint(curve25519_dalek::ristretto::RistrettoPoint);

/// The value of a `curve25519_dalek` scalar: an integer below
/// [`group_order`], since that crate keeps scalars in canonical reduced
/// form.
pub uninterp spec fn scalar_val(s: curve25519_dalek::scalar::Scalar) -> nat;

/// The canonical 32-byte compressed encoding of a Ristretto point. Two
/// points are equal exactly when their encodings are.
pub uninterp spec fn point_enc(p: curve25519_dalek::ristretto::RistrettoPoint) -> Seq<u8>;

/// The encoding of the sum of the two points so encoded.
pub uninterp spec fn pt_add_enc(a: Seq<u8>, b: Seq<u8>) -> Seq<u8>;

/// The encoding of the scalar multiple of the point so encoded.
pub uninterp spec fn pt_mul_enc(x: nat, p: Seq<u8>) -> Seq<u8>;

/// The encoding of the multiscalar product `sum_i xs[i] * ps[i]` of the
/// points so encoded.
pub uninterp spec fn pt_msm_enc(xs: Seq<nat>, ps: Seq<Seq<u8>>) -> Seq<u8>;

/// The encoding of the commitment `MSM(xs, gs) + blind * h` to the vector
/// `xs` under blinding `blind`.
pub open spec fn commit_enc(xs: Seq<nat>, gs: Seq<Seq<u8>>, blind: nat, h: Seq<u8>) -> Seq<u8> {
    pt_add_enc(pt_msm_enc(xs, gs), pt_mul_enc(blind, h))
}

/// Whether 32 bytes are the canonical encoding of some Ristretto point.
pub uninterp spec fn pt_valid(c: Seq<u8>) -> bool;

/// The encoding of the point derived from 64 uniform bytes.
pub uninterp spec fn pt_uniform_enc(b: Seq<u8>) -> Seq<u8>;

/// The order of the Ristretto group's scalar field:
/// 2^252 + 27742317777372353535851937790883648493.
pub open spec fn group_order() -> nat {
    vstd::arithmetic::power2::pow2(252) + 27742317777372353535851937790883648493nat
}

/// The natural number that a little-endian byte sequence encodes.
pub open spec fn le_val(b: Seq<u8>) -> nat
    decreases b.len(),
{
    if b.len() == 0 {
        0
    } else {
        b[0] as nat + 256 * le_val(b.drop_first())
    }
}

/// Relies on `curve25519_dalek::scalar::Scalar::from(u64)`: the scalar with
/// that value (every u64 is below the group order).
#[verifier::external_body]
pub fn sc_from_u64(x: u64) -> (r: curve25519_dalek::scalar::Scalar)
    ensures
        scalar_val(r) == x as nat,
{
    curve25519_dalek::scalar::Scalar::from(x)
}

pub fn sc_zero() -> (r: curve25519_dalek::scalar::Scalar)
    ensures
        scalar_val(r) == 0,
{
    sc_from_u64(0)
}

pub fn sc_one() -> (r: curve25519_dalek::scalar::Scalar)
    ensures
        scalar_val(r) == 1,
{
    sc_from_u64(1)
}

/// Relies on `curve25519_dalek` scalar addition: arithmetic modulo the
/// group order on canonical scalars.
#[verifier::external_body]
pub fn sc_add(
    a: &curve25519_dalek::scalar::Scalar,
    b: &curve25519_dalek::scalar::Scalar,
) -> (r: curve25519_dalek::scalar::Scalar)
    ensures
        scalar_val(r) == (scalar_val(*a) + scalar_val(*b)) % group_order(),
{
    a + b
}

/// Relies on `curve25519_dalek` scalar multiplication: arithmetic modulo
/// the group order on canonical scalars.
#[verifier::external_body]
pub fn sc_mul(
    a: &curve25519_dalek::scalar::Scalar,
    b: &curve25519_dalek::scalar::Scalar,
) -> (r: curve25519_dalek::scalar::Scalar)
    ensures
        scalar_val(r) == (scalar_val(*a) * scalar_val(*b)) % group_order(),
{
    a * b
}

/// Relies on `curve25519_dalek` scalar negation: the additive inverse
/// modulo the group order.
#[verifier::external_body]
pub fn sc_neg(a: &curve25519_dalek::scalar::Scalar) -> (r: curve25519_dalek::scalar::Scalar)
    ensures
        scalar_val(r) < group_order(),
        (scalar_val(r) + scalar_val(*a)) % group_order() == 0,
{
    -a
}

/// Relies on `curve25519_dalek::scalar::Scalar::from_bytes_mod_order_wide`:
/// reduction of a 512-bit little-endian integer modulo the group order.
#[verifier::external_body]
pub fn sc_from_bytes_wide(input: &[u8; 64]) -> (r: curve25519_dalek::scalar::Scalar)
    ensures
        scalar_val(r) == le_val(input@) % group_order(),
{
    curve25519_dalek::scalar::Scalar::from_bytes_mod_order_wide(input)
}

/// The `len`-byte little-endian encoding of `v` (low bytes first; high
/// bytes beyond `len` are cut off).
pub open spec fn le_bytes(v: nat, len: nat) -> Seq<u8>
    decreases len,
{
    if len == 0 {
        Seq::empty()
    } else {
        seq![(v % 256) as u8] + le_bytes(v / 256, (len - 1) as nat)
    }
}

/// Relies on `curve25519_dalek::scalar::Scalar::to_bytes`: the canonical
/// 32-byte little-endian encoding of the scalar's value.
#[verifier::external_body]
pub fn sc_to_bytes(a: &curve25519_dalek::scalar::Scalar) -> (r: [u8; 32])
    ensures
        r@ == le_bytes(scalar_val(*a), 32),
{
    a.to_bytes()
}

/// Relies on `curve25519_dalek` scalar equality: canonical scalars are
/// equal exactly when their values are.
#[verifier::external_body]
pub fn sc_eq(
    a: &curve25519_dalek::scalar::Scalar,
    b: &curve25519_dalek::scalar::Scalar,
) -> (r: bool)
    ensures
        r == (scalar_val(*a) == scalar_val(*b)),
{
    a == b
}

/// The values of a sequence of scalars.
pub open spec fn vals(s: Seq<curve25519_dalek::scalar::Scalar>) -> Seq<nat> {
    s.map(|i: int, x: curve25519_dalek::scalar::Scalar| scalar_val(x))
}

/// The encodings of a sequence of points.
pub open spec fn encs(s: Seq<curve25519_dalek::ristretto::RistrettoPoint>) -> Seq<Seq<u8>> {
    s.map(|i: int, p: curve25519_dalek::ristretto::RistrettoPoint| point_enc(p))
}

/// The byte sequences of a sequence of compressed points.
pub open spec fn cg_encs(s: Seq<CompressedGroup>) -> Seq<Seq<u8>> {
    s.map(|i: int, c: CompressedGroup| c@)
}

/// A point in its canonical compressed 32-byte encoding, the form in which
/// proof fragments travel. Decoding back to a group element is fallible.
#[derive(Clone, Copy)]
pub struct CompressedGroup {
    pub bytes: [u8; 32],
}

impl View for CompressedGroup {
    type V = Seq<u8>;

    open spec fn view(&self) -> Seq<u8> {
        self.bytes@
    }
}

impl DeepView for CompressedGroup {
    type V = Seq<u8>;

    open spec fn deep_view(&self) -> Seq<u8> {
        self.bytes@
    }
}

/// The canonical encoding of the Ristretto basepoint.
pub open spec fn basepoint_enc() -> Seq<u8> {
    seq![
        0xe2u8, 0xf2u8, 0xaeu8, 0x0au8, 0x6au8, 0xbcu8, 0x4eu8, 0x71u8,
        0xa8u8, 0x84u8, 0xa9u8, 0x61u8, 0xc5u8, 0x00u8, 0x51u8, 0x5fu8,
        0x58u8, 0xe3u8, 0x0bu8, 0x6au8, 0xa5u8, 0x82u8, 0xddu8, 0x8du8,
        0xb6u8, 0xa6u8, 0x59u8, 0x45u8, 0xe0u8, 0x8du8, 0x2du8, 0x76u8,
    ]
}

/// Relies on `curve25519_dalek::constants::RISTRETTO_BASEPOINT_POINT`, whose
/// compressed form is the published constant `RISTRETTO_BASEPOINT_COMPRESSED`.
#[verifier::external_body]
pub fn pt_basepoint() -> (r: curve25519_dalek::ristretto::RistrettoPoint)
    ensures
        point_enc(r) == basepoint_enc(),
{
    curve25519_dalek::constants::RISTRETTO_BASEPOINT_POINT
}

/// Relies on `curve25519_dalek` Ristretto point addition.
#[verifier::external_body]
pub fn pt_add(
    a: &curve25519_dalek::ristretto::RistrettoPoint,
    b: &curve25519_dalek::ristretto::RistrettoPoint,
) -> (r: curve25519_dalek::ristretto::RistrettoPoint)
    ensures
        point_enc(r) == pt_add_enc(point_enc(*a), point_enc(*b)),
{
    a + b
}

/// Relies on `curve25519_dalek` scalar-point multiplication.
#[verifier::external_body]
pub fn pt_smul(
    x: &curve25519_dalek::scalar::Scalar,
    p: &curve25519_dalek::ristretto::RistrettoPoint,
) -> (r: curve25519_dalek::ristretto::RistrettoPoint)
    ensures
        point_enc(r) == pt_mul_enc(scalar_val(*x), point_enc(*p)),
{
    x * p
}

/// Relies on `curve25519_dalek`'s variable-time multiscalar multiplication
/// (`VartimeMultiscalarMul`), computing `sum_i xs[i] * ps[i]`.
#[verifier::external_body]
pub fn pt_msm(
    xs: &Vec<curve25519_dalek::scalar::Scalar>,
    ps: &Vec<curve25519_dalek::ristretto::RistrettoPoint>,
) -> (r: curve25519_dalek::ristretto::RistrettoPoint)
    requires
        xs@.len() == ps@.len(),
    ensures
        point_enc(r) == pt_msm_enc(vals(xs@), encs(ps@)),
{
    curve25519_dalek::ristretto::RistrettoPoint::vartime_multiscalar_mul(xs.iter(), ps.iter())
}

/// Relies on `curve25519_dalek::ristretto::RistrettoPoint::compress`: the
/// canonical encoding of the point, always a valid encoding.
#[verifier::external_body]
pub fn pt_compress(p: &curve25519_dalek::ristretto::RistrettoPoint) -> (r: CompressedGroup)
    ensures
        r@ == point_enc(*p),
        pt_valid(r@),
{
    CompressedGroup { bytes: p.compress().to_bytes() }
}

/// Relies on `curve25519_dalek::ristretto::CompressedRistretto::decompress`:
/// it yields a point exactly when the bytes are a canonical encoding, and
/// then the point it yields is the one those bytes encode.
#[verifier::external_body]
pub fn pt_decompress(c: &CompressedGroup) -> (r: Option<
    curve25519_dalek::ristretto::RistrettoPoint,
>)
    ensures
        r is Some <==> pt_valid(c@),
        r matches Some(p) ==> point_enc(p) == c@,
{
    curve25519_dalek::ristretto::CompressedRistretto(c.bytes).decompress()
}

/// Relies on `curve25519_dalek::ristretto::RistrettoPoint::from_uniform_bytes`:
/// the derived point depends on the 64 input bytes alone.
#[verifier::external_body]
pub fn pt_from_uniform(b: &Vec<u8>) -> (r: curve25519_dalek::ristretto::RistrettoPoint)
    requires
        b@.len() == 64,
    ensures
        point_enc(r) == pt_uniform_enc(b@),
{
    let mut buf = [0u8; 64];
    buf.copy_from_slice(b.as_slice());
    curve25519_dalek::ristretto::RistrettoPoint::from_uniform_bytes(&buf)
}

/// Copies a vector of scalars entry for entry.
pub fn copy_scalar_vec(v: &Vec<curve25519_dalek::scalar::Scalar>) -> (r: Vec<
    curve25519_dalek::scalar::Scalar,
>)
    ensures
        r@ == v@,
{
    let mut r: Vec<curve25519_dalek::scalar::Scalar> = Vec::new();
    let mut i: usize = 0;
    while i < v.len()
        invariant
            i <= v@.len(),
            r@ == v@.take(i as int),
        decreases v@.len() - i,
    {
        proof {
            assert(v@.take(i + 1) =~= v@.take(i as int).push(v@[i as int]));
        }
        r.push(v[i]);
        i += 1;
    }
    proof {
        assert(v@.take(v@.len() as int) =~= v@);
    }
    r
}

/// Copies a vector of points entry for entry.
pub fn copy_point_vec(v: &Vec<curve25519_dalek::ristretto::RistrettoPoint>) -> (r: Vec<
    curve25519_dalek::ristretto::RistrettoPoint,
>)
    ensures
        r@ == v@,
{
    let mut r: Vec<curve25519_dalek::ristretto::RistrettoPoint> = Vec::new();
    let mut i: usize = 0;
    while i < v.len()
        invariant
            i <= v@.len(),
            r@ == v@.take(i as int),
        decreases v@.len() - i,
    {
        proof {
            assert(v@.take(i + 1) =~= v@.take(i as int).push(v@[i as int]));
        }
        r.push(v[i]);
        i += 1;
    }
    proof {
        assert(v@.take(v@.len() as int) =~= v@);
    }
    r
}

/// Copies the entries `from..to` of a vector of scalars.
pub fn scalar_vec_slice(v: &Vec<curve25519_dalek::scalar::Scalar>, from: usize, to: usize) -> (r:
    Vec<curve25519_dalek::scalar::Scalar>)
    requires
        from <= to <= v@.len(),
    ensures
        r@ == v@.subrange(from as int, to as int),
{
    let mut r: Vec<curve25519_dalek::scalar::Scalar> = Vec::new();
    let mut i: usize = from;
    while i < to
        invariant
            from <= i <= to <= v@.len(),
            r@ == v@.subrange(from as int, i as int),
        decreases to - i,
    {
        proof {
            assert(v@.subrange(from as int, i + 1) =~= v@.subrange(from as int, i as int).push(
                v@[i as int],
            ));
        }
        r.push(v[i]);
        i += 1;
    }
    r
}

/// Copies the entries `from..to` of a vector of points.
pub fn point_vec_slice(
    v: &Vec<curve25519_dalek::ristretto::RistrettoPoint>,
    from: usize,
    to: usize,
) -> (r: Vec<curve25519_dalek::ristretto::RistrettoPoint>)
    requires
        from <= to <= v@.len(),
    ensures
        r@ == v@.subrange(from as int, to as int),
{
    let mut r: Vec<curve25519_dalek::ristretto::RistrettoPoint> = Vec::new();
    let mut i: usize = from;
    while i < to
        invariant
            from <= i <= to <= v@.len(),
            r@ == v@.subrange(from as int, i as int),
        decreases to - i,
    {
        proof {
            assert(v@.subrange(from as int, i + 1) =~= v@.subrange(from as int, i as int).push(
                v@[i as int],
            ));
        }
        r.push(v[i]);
        i += 1;
    }
    r
}

/// Relies on `curve25519_dalek` Ristretto point equality: points are equal
/// exactly when their canonical encodings are.
#[verifier::external_body]
pub fn pt_eq(
    a: &curve25519_dalek::ristretto::RistrettoPoint,
    b: &curve25519_dalek::ristretto::RistrettoPoint,
) -> (r: bool)
    ensures
        r == (point_enc(*a) == point_enc(*b)),
{
    a == b
}

} // verus!
