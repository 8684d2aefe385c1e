//! Laws of the verification equation and of the message digest stream.
//!
//! These proofs connect the contracts of the engine operations: what a
//! verifier concludes from `verify_prepared` about signatures built by
//! scalar multiplication, aggregation by point addition, and the
//! two-sided pairing comparison.

use vstd::prelude::*;

use crate::arith::reduced;
use crate::arith::scalar_order;
use crate::arith::sum_seq;
use crate::domain_stream;
use crate::engine::lemma_sum_push;
use crate::engine::verification_equation;

verus! {

/// Sum of a single product.
proof fn lemma_sum_singleton(x: int)
    ensures
        sum_seq(seq![x]) == x,
{
    assert(seq![x] =~= Seq::<int>::empty().push(x));
    lemma_sum_push(Seq::<int>::empty(), x);
    assert(sum_seq(Seq::<int>::empty()) == 0);
}

/// A reduced model is already its own canonical representative.
proof fn lemma_reduced_mod(x: int)
    requires
        reduced(x),
    ensures
        x % scalar_order() == x,
{
    vstd::arithmetic::div_mod::lemma_small_mod(x as nat, scalar_order() as nat);
}

/// The single-sided equation holds exactly of a signature congruent to
/// the summed pair products.
proof fn lemma_equation_iff_congruent(x: int, sigv: int)
    ensures
        ((x + (scalar_order() - 1) * sigv) % scalar_order() == 0) <==> (x % scalar_order()
            == sigv % scalar_order()),
{
    let m = scalar_order();
    assert(x + (m - 1) * sigv == (x - sigv) + m * sigv) by (nonlinear_arith);
    vstd::arithmetic::div_mod::lemma_mod_multiples_vanish(sigv, x - sigv, m);
    assert((x + (m - 1) * sigv) % m == (x - sigv) % m);
    vstd::arithmetic::div_mod::lemma_mod_equivalence(x, sigv, m);
}

/// Signing correctness: for every secret scalar and every hashed
/// message point, the signature obtained by multiplying the hash point
/// by the scalar satisfies the verification equation against the
/// public key obtained by multiplying the generator by the scalar.
/// `s` is the secret scalar's model, `h` the hash point's model; the
/// public key then has model `s`, the signature `(h * s) % order`.
pub proof fn lemma_sign_then_verify(s: int, h: int)
    requires
        reduced(s),
        reduced(h),
    ensures
        verification_equation(seq![s * h], (h * s) % scalar_order()),
{
    let m = scalar_order();
    lemma_sum_singleton(s * h);
    lemma_equation_iff_congruent(s * h, (h * s) % m);
    vstd::arithmetic::div_mod::lemma_mod_twice(h * s, m);
    assert(s * h == h * s) by (nonlinear_arith);
}

/// Bilinearity of aggregation: for two secret scalars and one hashed
/// message point, the sum of the two signatures satisfies the
/// verification equation against the sum of the two public keys.
pub proof fn lemma_bilinear_aggregate(s1: int, s2: int, h: int)
    requires
        reduced(s1),
        reduced(s2),
        reduced(h),
    ensures
        verification_equation(
            seq![((s1 + s2) % scalar_order()) * h],
            (((h * s1) % scalar_order()) + ((h * s2) % scalar_order())) % scalar_order(),
        ),
{
    let m = scalar_order();
    let x = ((s1 + s2) % m) * h;
    let sigv = (((h * s1) % m) + ((h * s2) % m)) % m;
    lemma_sum_singleton(x);
    lemma_equation_iff_congruent(x, sigv);
    vstd::arithmetic::div_mod::lemma_mul_mod_noop_left(s1 + s2, h, m);
    vstd::arithmetic::div_mod::lemma_mod_twice(((h * s1) % m) + ((h * s2) % m), m);
    vstd::arithmetic::div_mod::lemma_add_mod_noop(h * s1, h * s2, m);
    assert(h * s1 + h * s2 == (s1 + s2) * h) by (nonlinear_arith);
    assert(x % m == ((s1 + s2) * h) % m);
    assert(sigv % m == ((s1 + s2) * h) % m);
}

/// The single-sided check agrees with the direct two-sided pairing
/// comparison: for one public key with model `p` and one hash point
/// with model `h`, a signature with reduced model `sigv` passes the
/// verification equation exactly when the pairing of the public key
/// with the hash equals the pairing of the generator with the
/// signature, whose models are `(p * h) % order` and `sigv`.
pub proof fn lemma_two_sided_equivalence(p: int, h: int, sigv: int)
    requires
        reduced(sigv),
    ensures
        verification_equation(seq![p * h], sigv) <==> ((p * h) % scalar_order() == sigv),
{
    lemma_sum_singleton(p * h);
    lemma_equation_iff_congruent(p * h, sigv);
    lemma_reduced_mod(sigv);
}

/// Tamper sensitivity, deterministic core: a single-pair check accepts
/// exactly one signature log.  Whenever the product of the key's and
/// the hashed message's logs differs from the signature's log -- a
/// flipped message bit changing the hash, a substituted key, or a
/// modified signature point -- the verification equation is false.
pub proof fn lemma_tamper_rejected(p: int, h: int, sigv: int)
    requires
        reduced(sigv),
        (p * h) % scalar_order() != sigv,
    ensures
        !verification_equation(seq![p * h], sigv),
{
    lemma_two_sided_equivalence(p, h, sigv);
}

/// Domain separation: two different contexts never feed the digest the
/// same byte stream for the same message, whatever their lengths.
/// Digests then collide only if the hash itself does.
pub proof fn lemma_domain_separation(ctx1: Seq<u8>, ctx2: Seq<u8>, msg: Seq<u8>)
    requires
        ctx1 != ctx2,
    ensures
        domain_stream(ctx1, msg) != domain_stream(ctx2, msg),
{
    let s1 = domain_stream(ctx1, msg);
    let s2 = domain_stream(ctx2, msg);
    vstd::bytes::lemma_auto_spec_u64_to_from_le_bytes();
    if ctx1.len() == ctx2.len() {
        if s1 == s2 {
            assert forall|k: int| 0 <= k < ctx1.len() implies ctx1[k] == ctx2[k] by {
                assert(s1[k] == ctx1[k]);
                assert(s2[k] == ctx2[k]);
            }
            assert(ctx1 =~= ctx2);
        }
    } else {
        assert(s1.len() == ctx1.len() + 8 + msg.len());
        assert(s2.len() == ctx2.len() + 8 + msg.len());
    }
}

/// Length prefixing: under one context, two different messages never
/// feed the digest the same byte stream, even when one could otherwise
/// be confused with the other by moving bytes across the boundary.
pub proof fn lemma_message_injective(ctx: Seq<u8>, m1: Seq<u8>, m2: Seq<u8>)
    requires
        m1 != m2,
    ensures
        domain_stream(ctx, m1) != domain_stream(ctx, m2),
{
    let s1 = domain_stream(ctx, m1);
    let s2 = domain_stream(ctx, m2);
    vstd::bytes::lemma_auto_spec_u64_to_from_le_bytes();
    if m1.len() == m2.len() {
        if s1 == s2 {
            let base = ctx.len() + 8;
            assert forall|k: int| 0 <= k < m1.len() implies m1[k] == m2[k] by {
                assert(s1[base + k] == m1[k]);
                assert(s2[base + k] == m2[k]);
            }
            assert(m1 =~= m2);
        }
    } else {
        assert(s1.len() == ctx.len() + 8 + m1.len());
        assert(s2.len() == ctx.len() + 8 + m2.len());
    }
}

} // verus!
