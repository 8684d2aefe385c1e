//! Pairing-engine abstraction for BLS-like signatures.
//!
//! The `EngineBLS` trait generalises the underlying pairing curve into
//! a BLS-oriented interface whose two group roles can be transposed:
//! each concrete strategy fixes which pairing group holds public keys
//! and which holds signatures.  `UsualBLS` puts public keys on the
//! smaller, cheaper group, since verifiers perform many public-key
//! additions; `TinyBLS` swaps the roles for smaller signatures.  `PoP`
//! wraps any strategy without changing its algebra, only the
//! key-safety capability advertised by the type.

use vstd::prelude::*;

use crate::arith::G1Elem;
use crate::arith::G1Prep;
use crate::arith::G2Elem;
use crate::arith::G2Prep;
use crate::arith::GtElem;
use crate::arith::MillerLoopResult;
use crate::arith::PointModel;
use crate::arith::Scalar;
use crate::arith::fr_random;
use crate::arith::g1_add;
use crate::arith::g1_generator;
use crate::arith::g1_hash;
use crate::arith::g1_hash_exp;
use crate::arith::g1_mul;
use crate::arith::g1_neg;
use crate::arith::g1_log;
use crate::arith::g2_log;
use crate::arith::g1_prep_log;
use crate::arith::g1_prepare;
use crate::arith::g2_add;
use crate::arith::g2_generator;
use crate::arith::g2_hash;
use crate::arith::g2_hash_exp;
use crate::arith::g2_mul;
use crate::arith::g2_neg;
use crate::arith::g2_prep_log;
use crate::arith::g2_prepare;
use crate::arith::gt_is_one;
use crate::arith::miller_loop_g1g2;
use crate::arith::miller_loop_g2g1;
use crate::arith::reduced;
use crate::arith::scalar_order;
use crate::arith::sum_seq;

verus! {

/// Domain tag handed to the hash-to-curve map for signature hashing.
pub open spec fn hash_dst_spec() -> Seq<u8> {
    seq![66u8, 76u8, 83u8]
}

/// The domain tag as bytes.
pub fn hash_dst() -> (r: Vec<u8>)
    ensures
        r@ == hash_dst_spec(),
{
    let mut v: Vec<u8> = Vec::new();
    v.push(66u8);
    v.push(76u8);
    v.push(83u8);
    proof {
        assert(v@ =~= hash_dst_spec());
    }
    v
}

/// Discrete-log products of a sequence of prepared verification pairs.
pub open spec fn pair_products<P: PointModel, Q: PointModel>(s: Seq<(P, Q)>) -> Seq<int> {
    s.map(|i: int, pr: (P, Q)| pr.0.model() * pr.1.model())
}

/// The single-sided aggregate verification equation over models:
/// `e(-g, sigma) * prod e(pk_i, h_i) = 1`, stated on discrete logs as
/// the sum of the pair products plus `(order - 1)` times the
/// signature's log vanishing modulo the group order.
pub open spec fn verification_equation(products: Seq<int>, sig: int) -> bool {
    (sum_seq(products) + (scalar_order() - 1) * sig) % scalar_order() == 0
}

pub proof fn lemma_sum_push(s: Seq<int>, x: int)
    ensures
        sum_seq(s.push(x)) == sum_seq(s) + x,
{
    assert(s.push(x).drop_last() =~= s);
}

/// A weakening of the underlying pairing engine that permits
/// transposing the two pairing groups: each implementation assigns one
/// group to public keys and the other to signatures, and adapts the
/// underlying batched pairing call to that assignment.
pub trait EngineBLS: Sized {
    /// Group where BLS public keys live.
    type PublicKeyGroup: PointModel + Copy;

    /// Group where BLS signatures live.
    type SignatureGroup: PointModel + Copy;

    /// Precomputed form of a public-key point.
    type PublicKeyPrepared: PointModel;

    /// Precomputed form of a signature point.
    type SignaturePrepared: PointModel;

    /// Discrete log of the hash of these bytes onto the signature group.
    spec fn hash_exp(msg: Seq<u8>) -> int;

    /// Generate a random scalar for use as a secret key, from a
    /// caller-supplied source, never from ambient state.
    fn generate(rng: &mut rand_xorshift::XorShiftRng) -> (s: Scalar)
        ensures
            reduced(s.model()),
    ;

    /// Hash one message to the signature curve, a function of the
    /// input bytes alone.
    fn hash_to_signature_curve(message: &[u8]) -> (p: Self::SignatureGroup)
        ensures
            p.model() == Self::hash_exp(message@),
            reduced(p.model()),
    ;

    /// Fixed generator of the public-key group.
    fn generator_public_key() -> (p: Self::PublicKeyGroup)
        ensures
            p.model() == 1int,
    ;

    /// Scalar multiplication in the public-key group.
    fn mul_public_key(p: &Self::PublicKeyGroup, s: &Scalar) -> (r: Self::PublicKeyGroup)
        ensures
            r.model() == (p.model() * s.model()) % scalar_order(),
    ;

    /// Scalar multiplication in the signature group.
    fn mul_signature(p: &Self::SignatureGroup, s: &Scalar) -> (r: Self::SignatureGroup)
        ensures
            r.model() == (p.model() * s.model()) % scalar_order(),
    ;

    /// Addition in the public-key group.
    fn add_public_keys(a: &Self::PublicKeyGroup, b: &Self::PublicKeyGroup) -> (r:
        Self::PublicKeyGroup)
        ensures
            r.model() == (a.model() + b.model()) % scalar_order(),
    ;

    /// Addition in the signature group.
    fn add_signatures(a: &Self::SignatureGroup, b: &Self::SignatureGroup) -> (r:
        Self::SignatureGroup)
        ensures
            r.model() == (a.model() + b.model()) % scalar_order(),
    ;

    /// Precompute a public-key point for repeated pairing use.
    fn prepare_public_key(p: &Self::PublicKeyGroup) -> (r: Self::PublicKeyPrepared)
        ensures
            r.model() == p.model(),
    ;

    /// Precompute a signature point for repeated pairing use.
    fn prepare_signature(p: &Self::SignatureGroup) -> (r: Self::SignaturePrepared)
        ensures
            r.model() == p.model(),
    ;

    /// The negated fixed generator of the public-key group, prepared.
    fn prepared_negated_generator() -> (r: Self::PublicKeyPrepared)
        ensures
            r.model() == scalar_order() - 1,
    ;

    /// Run the batched Miller loop, orienting its arguments as a
    /// public-key point and a signature point.
    fn miller_loop(pairs: Vec<(Self::PublicKeyPrepared, Self::SignaturePrepared)>) -> (m:
        MillerLoopResult)
        ensures
            m.model() == sum_seq(pair_products(pairs@)) % scalar_order(),
    ;

    /// Perform final exponentiation on the result of a Miller loop.
    /// A degenerate input yields no result, which callers must treat
    /// as a verification failure.
    fn final_exponentiation(f: &MillerLoopResult) -> (r: Option<GtElem>)
        ensures
            r is Some,
            r matches Some(t) ==> t.model() == f.model(),
            r matches Some(t) ==> reduced(t.model()),
    ;

    /// Complete single pairing of a public-key point with a signature
    /// point, built from the Miller loop and final exponentiation.
    fn pairing(p: &Self::PublicKeyGroup, q: &Self::SignatureGroup) -> (t: GtElem)
        ensures
            t.model() == (p.model() * q.model()) % scalar_order(),
            reduced(t.model()),
    {
        let pp = Self::prepare_public_key(p);
        let qq = Self::prepare_signature(q);
        let ghost prod: int = pp.model() * qq.model();
        let mut pairs: Vec<(Self::PublicKeyPrepared, Self::SignaturePrepared)> = Vec::new();
        pairs.push((pp, qq));
        let m = Self::miller_loop(pairs);
        proof {
            let prods = pair_products(pairs@);
            assert(prods =~= Seq::<int>::empty().push(prod));
            lemma_sum_push(Seq::<int>::empty(), prod);
            assert(sum_seq(Seq::<int>::empty()) == 0);
        }
        let r = Self::final_exponentiation(&m);
        match r {
            Some(t) => t,
            None => vstd::pervasive::unreached(),
        }
    }

    /// Verification equation for aggregate BLS signatures over already
    /// prepared points: negate the fixed generator, append its pair
    /// with the signature, run one batched Miller loop, finish the
    /// pairing, and compare against the multiplicative identity.  This
    /// low-level routine applies no policy checks such as message
    /// distinctness; those belong to the aggregation layer.
    fn verify_prepared(
        signature: Self::SignaturePrepared,
        inputs: Vec<(Self::PublicKeyPrepared, Self::SignaturePrepared)>,
    ) -> (b: bool)
        ensures
            b == verification_equation(pair_products(inputs@), signature.model()),
    {
        let ghost old_products = pair_products(inputs@);
        let ghost sig_model = signature.model();
        let neg_g = Self::prepared_negated_generator();
        let ghost appended: int = neg_g.model() * sig_model;
        let mut pairs = inputs;
        pairs.push((neg_g, signature));
        proof {
            assert(pair_products(pairs@) =~= old_products.push(appended));
            lemma_sum_push(old_products, appended);
        }
        let m = Self::miller_loop(pairs);
        let r = Self::final_exponentiation(&m);
        match r {
            Some(t) => gt_identity_test(&t),
            None => false,
        }
    }
}

/// Whether a finished pairing value is the multiplicative identity.
pub fn gt_identity_test(t: &GtElem) -> (b: bool)
    ensures
        b == (t.model() == 0),
{
    gt_is_one(t)
}

/// Usual BLS variant: public keys on the smaller first group (48-byte
/// compressed keys), signatures on the larger second group.  Favoured
/// because verifiers always perform on the order of one public-key
/// group operation per signer.
#[derive(Default)]
pub struct UsualBLS;

/// Usual aggregate BLS signature scheme on the BLS12-381 curve.
pub type ZBLS = UsualBLS;

/// Ready-made value of the usual scheme.
pub const Z_BLS: ZBLS = UsualBLS;

impl EngineBLS for UsualBLS {
    type PublicKeyGroup = G1Elem;

    type SignatureGroup = G2Elem;

    type PublicKeyPrepared = G1Prep;

    type SignaturePrepared = G2Prep;

    open spec fn hash_exp(msg: Seq<u8>) -> int {
        g2_hash_exp(msg, hash_dst_spec())
    }

    fn generate(rng: &mut rand_xorshift::XorShiftRng) -> (s: Scalar) {
        fr_random(rng)
    }

    fn hash_to_signature_curve(message: &[u8]) -> (p: G2Elem) {
        let d = hash_dst();
        g2_hash(message, d.as_slice())
    }

    fn generator_public_key() -> (p: G1Elem) {
        g1_generator()
    }

    fn mul_public_key(p: &G1Elem, s: &Scalar) -> (r: G1Elem) {
        g1_mul(p, s)
    }

    fn mul_signature(p: &G2Elem, s: &Scalar) -> (r: G2Elem) {
        g2_mul(p, s)
    }

    fn add_public_keys(a: &G1Elem, b: &G1Elem) -> (r: G1Elem) {
        g1_add(a, b)
    }

    fn add_signatures(a: &G2Elem, b: &G2Elem) -> (r: G2Elem) {
        g2_add(a, b)
    }

    fn prepare_public_key(p: &G1Elem) -> (r: G1Prep) {
        let r = g1_prepare(p);
        proof {
            assert(r.model() == g1_prep_log(r.raw));
            assert(p.model() == g1_log(p.raw));
        }
        r
    }

    fn prepare_signature(p: &G2Elem) -> (r: G2Prep) {
        let r = g2_prepare(p);
        proof {
            assert(r.model() == g2_prep_log(r.raw));
            assert(p.model() == g2_log(p.raw));
        }
        r
    }

    fn prepared_negated_generator() -> (r: G1Prep) {
        let g = g1_generator();
        let n = g1_neg(&g);
        g1_prepare(&n)
    }

    fn miller_loop(pairs: Vec<(G1Prep, G2Prep)>) -> (m: MillerLoopResult) {
        let m = miller_loop_g1g2(&pairs);
        proof {
            assert(pair_products(pairs@) =~= pairs@.map(
                |i: int, pr: (G1Prep, G2Prep)| g1_prep_log(pr.0.raw) * g2_prep_log(pr.1.raw),
            ));
        }
        m
    }

    fn final_exponentiation(f: &MillerLoopResult) -> (r: Option<GtElem>) {
        crate::arith::final_exponentiation(f)
    }

}

/// Infrequently used BLS variant with signatures on the smaller first
/// group (48-byte compressed signatures) and public keys on the larger
/// second group; worthwhile where signature size dominates cost.
#[derive(Default)]
pub struct TinyBLS;

impl EngineBLS for TinyBLS {
    type PublicKeyGroup = G2Elem;

    type SignatureGroup = G1Elem;

    type PublicKeyPrepared = G2Prep;

    type SignaturePrepared = G1Prep;

    open spec fn hash_exp(msg: Seq<u8>) -> int {
        g1_hash_exp(msg, hash_dst_spec())
    }

    fn generate(rng: &mut rand_xorshift::XorShiftRng) -> (s: Scalar) {
        fr_random(rng)
    }

    fn hash_to_signature_curve(message: &[u8]) -> (p: G1Elem) {
        let d = hash_dst();
        g1_hash(message, d.as_slice())
    }

    fn generator_public_key() -> (p: G2Elem) {
        g2_generator()
    }

    fn mul_public_key(p: &G2Elem, s: &Scalar) -> (r: G2Elem) {
        g2_mul(p, s)
    }

    fn mul_signature(p: &G1Elem, s: &Scalar) -> (r: G1Elem) {
        g1_mul(p, s)
    }

    fn add_public_keys(a: &G2Elem, b: &G2Elem) -> (r: G2Elem) {
        g2_add(a, b)
    }

    fn add_signatures(a: &G1Elem, b: &G1Elem) -> (r: G1Elem) {
        g1_add(a, b)
    }

    fn prepare_public_key(p: &G2Elem) -> (r: G2Prep) {
        let r = g2_prepare(p);
        proof {
            assert(r.model() == g2_prep_log(r.raw));
            assert(p.model() == g2_log(p.raw));
        }
        r
    }

    fn prepare_signature(p: &G1Elem) -> (r: G1Prep) {
        let r = g1_prepare(p);
        proof {
            assert(r.model() == g1_prep_log(r.raw));
            assert(p.model() == g1_log(p.raw));
        }
        r
    }

    fn prepared_negated_generator() -> (r: G2Prep) {
        let g = g2_generator();
        let n = g2_neg(&g);
        g2_prepare(&n)
    }

    fn miller_loop(pairs: Vec<(G2Prep, G1Prep)>) -> (m: MillerLoopResult) {
        let m = miller_loop_g2g1(&pairs);
        proof {
            assert(pair_products(pairs@) =~= pairs@.map(
                |i: int, pr: (G2Prep, G1Prep)| g2_prep_log(pr.0.raw) * g1_prep_log(pr.1.raw),
            ));
        }
        m
    }

    fn final_exponentiation(f: &MillerLoopResult) -> (r: Option<GtElem>) {
        crate::arith::final_exponentiation(f)
    }

}

/// Rogue-key attack defence by proof-of-possession: forwards every
/// pairing-engine operation of the wrapped strategy unchanged, but
/// withholds the trivial-deserialization capability, so public keys
/// can only be trusted through an explicit acknowledgment path.
#[derive(Default)]
pub struct PoP<E>(pub E);

impl<E: EngineBLS> EngineBLS for PoP<E> {
    type PublicKeyGroup = E::PublicKeyGroup;

    type SignatureGroup = E::SignatureGroup;

    type PublicKeyPrepared = E::PublicKeyPrepared;

    type SignaturePrepared = E::SignaturePrepared;

    open spec fn hash_exp(msg: Seq<u8>) -> int {
        E::hash_exp(msg)
    }

    fn generate(rng: &mut rand_xorshift::XorShiftRng) -> (s: Scalar) {
        E::generate(rng)
    }

    fn hash_to_signature_curve(message: &[u8]) -> (p: E::SignatureGroup) {
        E::hash_to_signature_curve(message)
    }

    fn generator_public_key() -> (p: E::PublicKeyGroup) {
        E::generator_public_key()
    }

    fn mul_public_key(p: &E::PublicKeyGroup, s: &Scalar) -> (r: E::PublicKeyGroup) {
        E::mul_public_key(p, s)
    }

    fn mul_signature(p: &E::SignatureGroup, s: &Scalar) -> (r: E::SignatureGroup) {
        E::mul_signature(p, s)
    }

    fn add_public_keys(a: &E::PublicKeyGroup, b: &E::PublicKeyGroup) -> (r: E::PublicKeyGroup) {
        E::add_public_keys(a, b)
    }

    fn add_signatures(a: &E::SignatureGroup, b: &E::SignatureGroup) -> (r: E::SignatureGroup) {
        E::add_signatures(a, b)
    }

    fn prepare_public_key(p: &E::PublicKeyGroup) -> (r: E::PublicKeyPrepared) {
        E::prepare_public_key(p)
    }

    fn prepare_signature(p: &E::SignatureGroup) -> (r: E::SignaturePrepared) {
        E::prepare_signature(p)
    }

    fn prepared_negated_generator() -> (r: E::PublicKeyPrepared) {
        E::prepared_negated_generator()
    }

    fn miller_loop(pairs: Vec<(E::PublicKeyPrepared, E::SignaturePrepared)>) -> (m:
        MillerLoopResult) {
        E::miller_loop(pairs)
    }

    fn final_exponentiation(f: &MillerLoopResult) -> (r: Option<GtElem>) {
        E::final_exponentiation(f)
    }

    fn pairing(p: &E::PublicKeyGroup, q: &E::SignatureGroup) -> (t: GtElem) {
        E::pairing(p, q)
    }

    fn verify_prepared(
        signature: E::SignaturePrepared,
        inputs: Vec<(E::PublicKeyPrepared, E::SignaturePrepared)>,
    ) -> (b: bool) {
        E::verify_prepared(signature, inputs)
    }
}

/// Any strategy whose public keys remain unmutated: deserialized keys
/// are never transformed before use.  True of both orientations and of
/// the proof-of-possession wrapper, which changes no algebra.
pub trait UnmutatedKeys: EngineBLS {

}

impl UnmutatedKeys for UsualBLS {

}

impl UnmutatedKeys for TinyBLS {

}

impl<E: EngineBLS> UnmutatedKeys for PoP<E> {

}

/// Any strategy whose public keys may be trivially deserialized from
/// untrusted bytes.  Deliberately absent for the proof-of-possession
/// wrapper, so that trusting a wrapped key requires the explicit,
/// separately named acknowledgment path instead of a generic decode.
pub trait DeserializePublicKey: EngineBLS + UnmutatedKeys {

}

impl DeserializePublicKey for UsualBLS {

}

impl DeserializePublicKey for TinyBLS {

}

} // verus!
