//! Trusted boundary around the pairing arithmetic crate.
//!
//! Every curve value is modelled by its discrete logarithm: a `G1Elem`
//! with model `a` stands for `a` times the fixed `G1` generator, a
//! `G2Elem` with model `b` for `b` times the `G2` generator, and a
//! `GtElem` with model `c` for the `c`-th power of the pairing of the
//! two generators.  Both groups and the pairing target subgroup are
//! cyclic of the same prime order, so a value's discrete logarithm is
//! well defined and the models live in the integers modulo
//! `scalar_order()`.  The wrappers below state, over those models, the
//! algebra that the arithmetic crate documents for each call: scalar
//! multiplication multiplies logarithms, point addition adds them, and
//! a finished pairing of `a` times one generator with `b` times the
//! other has logarithm `a * b`.

use vstd::prelude::*;

verus! {

/// Order of the BLS12-381 scalar field; both pairing groups and the
/// pairing target subgroup are cyclic of this prime order.
pub open spec fn scalar_order() -> int {
    0x73eda753299d7d483339d80809a1d80553bda402fffe5bfeffffffff00000001int
}

/// A model is reduced when it lies in the canonical range of the ring.
pub open spec fn reduced(m: int) -> bool {
    0 <= m < scalar_order()
}

/// Discrete-log model of a scalar, curve point or target-group value.
pub trait PointModel {
    spec fn model(&self) -> int;
}

#[verifier::external_type_specification]
#[verifier::external_body]
pub struct ExFr(paired::bls12_381::Fr);

#[verifier::external_type_specification]
#[verifier::external_body]
pub struct ExG1(paired::bls12_381::G1);

#[verifier::external_type_specification]
#[verifier::external_body]
pub struct ExG2(paired::bls12_381::G2);

#[verifier::external_type_specification]
#[verifier::external_body]
pub struct ExG1Prepared(paired::bls12_381::G1Prepared);

#[verifier::external_type_specification]
#[verifier::external_body]
pub struct ExG2Prepared(paired::bls12_381::G2Prepared);

#[verifier::external_type_specification]
#[verifier::external_body]
pub struct ExFq12(paired::bls12_381::Fq12);

#[verifier::external_type_specification]
#[verifier::external_body]
pub struct ExXorShiftRng(rand_xorshift::XorShiftRng);

pub uninterp spec fn fr_val(s: paired::bls12_381::Fr) -> int;

pub uninterp spec fn g1_log(p: paired::bls12_381::G1) -> int;

pub uninterp spec fn g2_log(p: paired::bls12_381::G2) -> int;

pub uninterp spec fn g1_prep_log(p: paired::bls12_381::G1Prepared) -> int;

pub uninterp spec fn g2_prep_log(p: paired::bls12_381::G2Prepared) -> int;

pub uninterp spec fn miller_log(f: paired::bls12_381::Fq12) -> int;

pub uninterp spec fn gt_log(f: paired::bls12_381::Fq12) -> int;

pub uninterp spec fn g1_hash_exp(msg: Seq<u8>, dst: Seq<u8>) -> int;

pub uninterp spec fn g2_hash_exp(msg: Seq<u8>, dst: Seq<u8>) -> int;

pub uninterp spec fn shake128_of(input: Seq<u8>) -> Seq<u8>;

/// Sum of a sequence of integers.
pub open spec fn sum_seq(s: Seq<int>) -> int
    decreases s.len(),
{
    if s.len() == 0 {
        0
    } else {
        sum_seq(s.drop_last()) + s.last()
    }
}

/// An element of the scalar field: a secret key or a coefficient.
#[derive(Clone, Copy)]
pub struct Scalar {
    pub(crate) raw: paired::bls12_381::Fr,
}

impl PointModel for Scalar {
    open(crate) spec fn model(&self) -> int {
        fr_val(self.raw)
    }
}

/// A point of the first pairing group, in projective coordinates.
#[derive(Clone, Copy)]
pub struct G1Elem {
    pub(crate) raw: paired::bls12_381::G1,
}

impl PointModel for G1Elem {
    open(crate) spec fn model(&self) -> int {
        g1_log(self.raw)
    }
}

/// A point of the second pairing group, in projective coordinates.
#[derive(Clone, Copy)]
pub struct G2Elem {
    pub(crate) raw: paired::bls12_381::G2,
}

impl PointModel for G2Elem {
    open(crate) spec fn model(&self) -> int {
        g2_log(self.raw)
    }
}

/// A point of the first group precomputed for repeated pairing use.
pub struct G1Prep {
    pub(crate) raw: paired::bls12_381::G1Prepared,
}

impl PointModel for G1Prep {
    open(crate) spec fn model(&self) -> int {
        g1_prep_log(self.raw)
    }
}

/// A point of the second group precomputed for repeated pairing use.
pub struct G2Prep {
    pub(crate) raw: paired::bls12_381::G2Prepared,
}

impl PointModel for G2Prep {
    open(crate) spec fn model(&self) -> int {
        g2_prep_log(self.raw)
    }
}

/// An accumulated Miller loop, still awaiting final exponentiation.
/// Its model is the logarithm the value will have once exponentiated.
pub struct MillerLoopResult {
    pub(crate) raw: paired::bls12_381::Fq12,
}

impl PointModel for MillerLoopResult {
    open(crate) spec fn model(&self) -> int {
        miller_log(self.raw)
    }
}

/// An element of the multiplicative target subgroup of a finished pairing.
#[derive(Clone, Copy)]
pub struct GtElem {
    pub(crate) raw: paired::bls12_381::Fq12,
}

impl PointModel for GtElem {
    open(crate) spec fn model(&self) -> int {
        gt_log(self.raw)
    }
}

impl Scalar {
    /// Scalar holding a small known value, for fixed coefficients.
    pub fn from_u64(x: u64) -> (s: Scalar)
        ensures
            s.model() == x as int,
    {
        let s = fr_from_u64(x);
        proof {
            assert(s.model() == fr_val(s.raw));
        }
        s
    }
}

impl GtElem {
    /// Whether two finished pairing values are equal.
    pub fn equals(&self, other: &GtElem) -> (r: bool)
        ensures
            r == (self.model() == other.model()),
    {
        let r = gt_eq(self, other);
        proof {
            assert(self.model() == gt_log(self.raw));
            assert(other.model() == gt_log(other.raw));
        }
        r
    }
}

/// Uniform random scalar.
///
/// Relies on `fff::Field::random` for `Fr`: draws a uniformly random
/// element of the scalar field from the given source.  Nothing is
/// promised of the value beyond its range.
#[verifier::external_body]
pub(crate) fn fr_random(rng: &mut rand_xorshift::XorShiftRng) -> (s: Scalar)
    ensures
        reduced(fr_val(s.raw)),
{
    Scalar { raw: fff::Field::random(rng) }
}

/// Scalar with a known small value.
///
/// Relies on `fff::PrimeField::from_repr` for `Fr`: a canonical
/// representative below the modulus decodes to the field element with
/// that value, and every `u64` is below the 255-bit modulus.
#[verifier::external_body]
pub(crate) fn fr_from_u64(x: u64) -> (s: Scalar)
    ensures
        fr_val(s.raw) == x as int,
{
    let repr = paired::bls12_381::FrRepr::from(x);
    Scalar { raw: <paired::bls12_381::Fr as fff::PrimeField>::from_repr(repr).unwrap() }
}

/// Fixed generator of the first group, with discrete log 1 by definition.
///
/// Relies on `groupy::CurveProjective::one` for `G1`: returns the fixed
/// generator point.
#[verifier::external_body]
pub(crate) fn g1_generator() -> (p: G1Elem)
    ensures
        g1_log(p.raw) == 1int,
{
    G1Elem { raw: <paired::bls12_381::G1 as groupy::CurveProjective>::one() }
}

/// Fixed generator of the second group, with discrete log 1 by definition.
///
/// Relies on `groupy::CurveProjective::one` for `G2`.
#[verifier::external_body]
pub(crate) fn g2_generator() -> (p: G2Elem)
    ensures
        g2_log(p.raw) == 1int,
{
    G2Elem { raw: <paired::bls12_381::G2 as groupy::CurveProjective>::one() }
}

/// Scalar multiplication in the first group.
///
/// Relies on `groupy::CurveProjective::mul_assign` for `G1`: multiplies
/// the point by the scalar, so discrete logs multiply modulo the order.
#[verifier::external_body]
pub(crate) fn g1_mul(p: &G1Elem, s: &Scalar) -> (r: G1Elem)
    ensures
        g1_log(r.raw) == (g1_log(p.raw) * fr_val(s.raw)) % scalar_order(),
{
    let mut raw = p.raw;
    groupy::CurveProjective::mul_assign(&mut raw, s.raw);
    G1Elem { raw }
}

/// Scalar multiplication in the second group.
///
/// Relies on `groupy::CurveProjective::mul_assign` for `G2`.
#[verifier::external_body]
pub(crate) fn g2_mul(p: &G2Elem, s: &Scalar) -> (r: G2Elem)
    ensures
        g2_log(r.raw) == (g2_log(p.raw) * fr_val(s.raw)) % scalar_order(),
{
    let mut raw = p.raw;
    groupy::CurveProjective::mul_assign(&mut raw, s.raw);
    G2Elem { raw }
}

/// Point addition in the first group.
///
/// Relies on `groupy::CurveProjective::add_assign` for `G1`: group
/// addition, so discrete logs add modulo the order.
#[verifier::external_body]
pub(crate) fn g1_add(a: &G1Elem, b: &G1Elem) -> (r: G1Elem)
    ensures
        g1_log(r.raw) == (g1_log(a.raw) + g1_log(b.raw)) % scalar_order(),
{
    let mut raw = a.raw;
    groupy::CurveProjective::add_assign(&mut raw, &b.raw);
    G1Elem { raw }
}

/// Point addition in the second group.
///
/// Relies on `groupy::CurveProjective::add_assign` for `G2`.
#[verifier::external_body]
pub(crate) fn g2_add(a: &G2Elem, b: &G2Elem) -> (r: G2Elem)
    ensures
        g2_log(r.raw) == (g2_log(a.raw) + g2_log(b.raw)) % scalar_order(),
{
    let mut raw = a.raw;
    groupy::CurveProjective::add_assign(&mut raw, &b.raw);
    G2Elem { raw }
}

/// Negation of a point of the first group.
///
/// Relies on `groupy::CurveProjective::negate` for `G1`: the inverse
/// element, whose discrete log is the negation modulo the order.
#[verifier::external_body]
pub(crate) fn g1_neg(p: &G1Elem) -> (r: G1Elem)
    ensures
        g1_log(r.raw) == (scalar_order() - g1_log(p.raw)) % scalar_order(),
{
    let mut raw = p.raw;
    groupy::CurveProjective::negate(&mut raw);
    G1Elem { raw }
}

/// Negation of a point of the second group.
///
/// Relies on `groupy::CurveProjective::negate` for `G2`.
#[verifier::external_body]
pub(crate) fn g2_neg(p: &G2Elem) -> (r: G2Elem)
    ensures
        g2_log(r.raw) == (scalar_order() - g2_log(p.raw)) % scalar_order(),
{
    let mut raw = p.raw;
    groupy::CurveProjective::negate(&mut raw);
    G2Elem { raw }
}

/// Precomputation of a first-group point for pairing.
///
/// Relies on `paired::PairingCurveAffine::prepare` for `G1Affine`: the
/// prepared form stands for the same point.
#[verifier::external_body]
pub(crate) fn g1_prepare(p: &G1Elem) -> (r: G1Prep)
    ensures
        g1_prep_log(r.raw) == g1_log(p.raw),
{
    let affine: paired::bls12_381::G1Affine = groupy::CurveProjective::into_affine(&p.raw);
    G1Prep { raw: paired::PairingCurveAffine::prepare(&affine) }
}

/// Precomputation of a second-group point for pairing.
///
/// Relies on `paired::PairingCurveAffine::prepare` for `G2Affine`.
#[verifier::external_body]
pub(crate) fn g2_prepare(p: &G2Elem) -> (r: G2Prep)
    ensures
        g2_prep_log(r.raw) == g2_log(p.raw),
{
    let affine: paired::bls12_381::G2Affine = groupy::CurveProjective::into_affine(&p.raw);
    G2Prep { raw: paired::PairingCurveAffine::prepare(&affine) }
}

/// Batched Miller loop over pairs given in the crate's native order:
/// a first-group point, then a second-group point.
///
/// Relies on `paired::Engine::miller_loop` for `Bls12`, followed (in
/// the model) by final exponentiation: the finished pairing of the
/// batch is the product of the pairings of the pairs, so its logarithm
/// is the sum of the products of each pair's logarithms.  Pairs holding
/// the zero point are skipped by the crate, and contribute the identity
/// here, matching a zero product.
#[verifier::external_body]
pub(crate) fn miller_loop_g1g2(pairs: &Vec<(G1Prep, G2Prep)>) -> (m: MillerLoopResult)
    ensures
        miller_log(m.raw) == sum_seq(
            pairs@.map(|i: int, pr: (G1Prep, G2Prep)| g1_prep_log(pr.0.raw) * g2_prep_log(pr.1.raw)),
        ) % scalar_order(),
{
    let mut refs: Vec<(&paired::bls12_381::G1Prepared, &paired::bls12_381::G2Prepared)> =
        Vec::with_capacity(pairs.len());
    for pr in pairs.iter() {
        refs.push((&pr.0.raw, &pr.1.raw));
    }
    MillerLoopResult { raw: <paired::bls12_381::Bls12 as paired::Engine>::miller_loop(refs.iter()) }
}

/// Batched Miller loop over pairs given in the transposed order: a
/// second-group point, then a first-group point.  Each tuple is turned
/// around before the call; the pairing itself is unchanged.
///
/// Relies on `paired::Engine::miller_loop` for `Bls12`, as above.
#[verifier::external_body]
pub(crate) fn miller_loop_g2g1(pairs: &Vec<(G2Prep, G1Prep)>) -> (m: MillerLoopResult)
    ensures
        miller_log(m.raw) == sum_seq(
            pairs@.map(|i: int, pr: (G2Prep, G1Prep)| g2_prep_log(pr.0.raw) * g1_prep_log(pr.1.raw)),
        ) % scalar_order(),
{
    let mut refs: Vec<(&paired::bls12_381::G1Prepared, &paired::bls12_381::G2Prepared)> =
        Vec::with_capacity(pairs.len());
    for pr in pairs.iter() {
        refs.push((&pr.1.raw, &pr.0.raw));
    }
    MillerLoopResult { raw: <paired::bls12_381::Bls12 as paired::Engine>::miller_loop(refs.iter()) }
}

/// Final exponentiation, completing a pairing.
///
/// Relies on `paired::Engine::final_exponentiation` for `Bls12`: it
/// yields no value exactly on the one non-invertible, degenerate input,
/// the zero element.  A Miller loop output is never zero (the crate's
/// own `Engine::pairing` unwraps this very call unconditionally), and a
/// `MillerLoopResult` holds nothing else: its field is crate-private
/// and only the Miller-loop wrappers construct it.  On every value of
/// this type the call therefore succeeds and yields the finished
/// pairing of the accumulated batch; callers still treat a degenerate
/// outcome as verification failure, never as success.
#[verifier::external_body]
pub(crate) fn final_exponentiation(f: &MillerLoopResult) -> (r: Option<GtElem>)
    ensures
        r is Some,
        r matches Some(t) ==> gt_log(t.raw) == miller_log(f.raw),
        r matches Some(t) ==> reduced(gt_log(t.raw)),
{
    <paired::bls12_381::Bls12 as paired::Engine>::final_exponentiation(&f.raw).map(
        |raw| GtElem { raw },
    )
}

/// Test against the multiplicative identity of the target group.
///
/// Relies on `fff::Field::one` and the derived equality of `Fq12`: the
/// target subgroup has prime order, so an element is the identity
/// exactly when its logarithm is zero.
#[verifier::external_body]
pub(crate) fn gt_is_one(t: &GtElem) -> (b: bool)
    ensures
        b == (gt_log(t.raw) == 0),
{
    t.raw == <paired::bls12_381::Fq12 as fff::Field>::one()
}

/// Equality of two finished pairing values.
///
/// Relies on the derived equality of `Fq12`: elements of the
/// prime-order target subgroup are equal exactly when their logarithms
/// are.
#[verifier::external_body]
pub(crate) fn gt_eq(a: &GtElem, b: &GtElem) -> (r: bool)
    ensures
        r == (gt_log(a.raw) == gt_log(b.raw)),
{
    a.raw == b.raw
}

/// Hash of arbitrary bytes onto the first group.
///
/// Relies on `paired::HashToCurve::hash_to_curve` for `G1` with the
/// XOF expander over SHAKE-128: a deterministic random-oracle map from
/// the message and domain tag into the prime-order subgroup.  The
/// expander aborts on a domain tag of 256 bytes or more, so such tags
/// are excluded here.
#[verifier::external_body]
pub(crate) fn g1_hash(msg: &[u8], dst: &[u8]) -> (p: G1Elem)
    requires
        dst@.len() < 256,
    ensures
        g1_log(p.raw) == g1_hash_exp(msg@, dst@),
        reduced(g1_log(p.raw)),
{
    G1Elem {
        raw: <paired::bls12_381::G1 as paired::HashToCurve<
            paired::ExpandMsgXof<sha3::Shake128>,
        >>::hash_to_curve(msg, dst),
    }
}

/// Hash of arbitrary bytes onto the second group.
///
/// Relies on `paired::HashToCurve::hash_to_curve` for `G2`, as above,
/// with the same bound on the domain tag.
#[verifier::external_body]
pub(crate) fn g2_hash(msg: &[u8], dst: &[u8]) -> (p: G2Elem)
    requires
        dst@.len() < 256,
    ensures
        g2_log(p.raw) == g2_hash_exp(msg@, dst@),
        reduced(g2_log(p.raw)),
{
    G2Elem {
        raw: <paired::bls12_381::G2 as paired::HashToCurve<
            paired::ExpandMsgXof<sha3::Shake128>,
        >>::hash_to_curve(msg, dst),
    }
}

/// Fixed-size digest of a byte stream.
///
/// Relies on `sha3::Shake128` through the `digest` traits: an
/// extendable-output hash absorbed with the input and squeezed to 32
/// bytes, a function of the input alone.
#[verifier::external_body]
pub(crate) fn shake128_digest32(input: &[u8]) -> (r: [u8; 32])
    ensures
        r@ == shake128_of(input@),
{
    let mut h = sha3::Shake128::default();
    sha3::digest::Update::update(&mut h, input);
    let mut out = [0u8; 32];
    let mut reader = sha3::digest::ExtendableOutput::finalize_xof(h);
    sha3::digest::XofReader::read(&mut reader, &mut out);
    out
}

} // verus!
