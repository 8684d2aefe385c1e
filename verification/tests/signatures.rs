//! End-to-end signing and verification under both orientations.

use bls::Message;
use bls::Signed;
use bls::arith::Scalar;
use bls::engine::DeserializePublicKey;
use bls::engine::EngineBLS;
use bls::engine::PoP;
use bls::engine::TinyBLS;
use bls::engine::UsualBLS;
use bls::single::PublicKey;
use bls::single::Signature;
use bls::single::SignedMessage;
use rand_core::SeedableRng;

fn sign_and_verify<E: EngineBLS>() -> bool {
    let mut rng = rand_xorshift::XorShiftRng::from_seed([7u8; 16]);
    let s = E::generate(&mut rng);
    let h = E::hash_to_signature_curve(b"a test message");
    let signature = E::mul_signature(&h, &s);
    let g = E::generator_public_key();
    let pk = E::mul_public_key(&g, &s);
    let pairs = vec![(E::prepare_public_key(&pk), E::prepare_signature(&h))];
    E::verify_prepared(E::prepare_signature(&signature), pairs)
}

#[test]
fn usual_sign_verify_roundtrip() {
    assert!(sign_and_verify::<UsualBLS>());
}

#[test]
fn tiny_sign_verify_roundtrip() {
    assert!(sign_and_verify::<TinyBLS>());
}

#[test]
fn pop_wrapper_sign_verify_roundtrip() {
    assert!(sign_and_verify::<PoP<UsualBLS>>());
    assert!(sign_and_verify::<PoP<TinyBLS>>());
}

#[test]
fn concrete_scalar_five_scenario() {
    // Secret scalar 5, message "test": h = hash, signature = 5 * h,
    // public key = 5 * g.
    let s = Scalar::from_u64(5);
    let h = UsualBLS::hash_to_signature_curve(b"test");
    let signature = UsualBLS::mul_signature(&h, &s);
    let g = UsualBLS::generator_public_key();
    let pk = UsualBLS::mul_public_key(&g, &s);
    let pairs = vec![
        (UsualBLS::prepare_public_key(&pk), UsualBLS::prepare_signature(&h)),
    ];
    assert!(UsualBLS::verify_prepared(
        UsualBLS::prepare_signature(&signature),
        pairs
    ));

    // Adding any nonzero element to the signature must fail.
    let tampered = UsualBLS::add_signatures(&signature, &h);
    let pairs2 = vec![
        (UsualBLS::prepare_public_key(&pk), UsualBLS::prepare_signature(&h)),
    ];
    assert!(!UsualBLS::verify_prepared(
        UsualBLS::prepare_signature(&tampered),
        pairs2
    ));
}

#[test]
fn wrong_key_fails() {
    let s = Scalar::from_u64(5);
    let other = Scalar::from_u64(6);
    let h = UsualBLS::hash_to_signature_curve(b"test");
    let signature = UsualBLS::mul_signature(&h, &s);
    let g = UsualBLS::generator_public_key();
    let wrong_pk = UsualBLS::mul_public_key(&g, &other);
    let pairs = vec![
        (
            UsualBLS::prepare_public_key(&wrong_pk),
            UsualBLS::prepare_signature(&h),
        ),
    ];
    assert!(!UsualBLS::verify_prepared(
        UsualBLS::prepare_signature(&signature),
        pairs
    ));
}

#[test]
fn bilinear_aggregation_two_signers() {
    // sign(s1, m) + sign(s2, m) verifies against pk(s1) + pk(s2).
    let s1 = Scalar::from_u64(11);
    let s2 = Scalar::from_u64(13);
    let h = UsualBLS::hash_to_signature_curve(b"shared message");
    let sig1 = UsualBLS::mul_signature(&h, &s1);
    let sig2 = UsualBLS::mul_signature(&h, &s2);
    let agg_sig = UsualBLS::add_signatures(&sig1, &sig2);
    let g = UsualBLS::generator_public_key();
    let pk1 = UsualBLS::mul_public_key(&g, &s1);
    let pk2 = UsualBLS::mul_public_key(&g, &s2);
    let agg_pk = UsualBLS::add_public_keys(&pk1, &pk2);
    let pairs = vec![
        (
            UsualBLS::prepare_public_key(&agg_pk),
            UsualBLS::prepare_signature(&h),
        ),
    ];
    assert!(UsualBLS::verify_prepared(
        UsualBLS::prepare_signature(&agg_sig),
        pairs
    ));
}

#[test]
fn two_sided_pairing_agrees_with_prepared_check() {
    // e(pk, H(m)) == e(g, sigma) exactly when the one-sided prepared
    // check passes, under both orientations.
    let s = Scalar::from_u64(42);
    let h = UsualBLS::hash_to_signature_curve(b"two-sided");
    let signature = UsualBLS::mul_signature(&h, &s);
    let g = UsualBLS::generator_public_key();
    let pk = UsualBLS::mul_public_key(&g, &s);
    let lhs = UsualBLS::pairing(&pk, &h);
    let rhs = UsualBLS::pairing(&g, &signature);
    assert!(lhs.equals(&rhs));

    let s2 = Scalar::from_u64(42);
    let h2 = TinyBLS::hash_to_signature_curve(b"two-sided");
    let signature2 = TinyBLS::mul_signature(&h2, &s2);
    let g2 = TinyBLS::generator_public_key();
    let pk2 = TinyBLS::mul_public_key(&g2, &s2);
    let lhs2 = TinyBLS::pairing(&pk2, &h2);
    let rhs2 = TinyBLS::pairing(&g2, &signature2);
    assert!(lhs2.equals(&rhs2));

    // And a forged signature breaks the two-sided equality as well.
    let forged = UsualBLS::add_signatures(&signature, &h);
    let rhs3 = UsualBLS::pairing(&g, &forged);
    assert!(!lhs.equals(&rhs3));
}

#[test]
fn signed_message_default_verify() {
    let s = Scalar::from_u64(9);
    let message = Message::new(b"proto", b"payload");
    let h = message.hash_to_signature_curve::<UsualBLS>();
    let signature = UsualBLS::mul_signature(&h, &s);
    let g = UsualBLS::generator_public_key();
    let pk = UsualBLS::mul_public_key(&g, &s);
    let sm = SignedMessage::<UsualBLS> {
        message,
        publickey: PublicKey(pk),
        signature: Signature(signature),
    };
    assert!(sm.verify());
}

#[test]
fn signed_message_wrong_message_fails() {
    let s = Scalar::from_u64(9);
    let message = Message::new(b"proto", b"payload");
    let other = Message::new(b"proto", b"payloae");
    let h = message.hash_to_signature_curve::<UsualBLS>();
    let signature = UsualBLS::mul_signature(&h, &s);
    let g = UsualBLS::generator_public_key();
    let pk = UsualBLS::mul_public_key(&g, &s);
    let sm = SignedMessage::<UsualBLS> {
        message: other,
        publickey: PublicKey(pk),
        signature: Signature(signature),
    };
    assert!(!sm.verify());
}

fn requires_trivial_deserialization<E: DeserializePublicKey>() -> bool {
    true
}

#[test]
fn deserialization_capability_on_base_strategies() {
    // Both orientations advertise trivially deserializable keys; the
    // proof-of-possession wrapper deliberately does not, so
    // `requires_trivial_deserialization::<PoP<UsualBLS>>()` is a
    // compile-time error, not a runtime failure.
    assert!(requires_trivial_deserialization::<UsualBLS>());
    assert!(requires_trivial_deserialization::<TinyBLS>());
}

#[test]
fn empty_aggregate_accepts_only_zero_signature() {
    // With no message/key pairs, the equation reduces to the signature
    // alone: only the zero point (scalar 0 times anything) passes.
    let zero = Scalar::from_u64(0);
    let h = UsualBLS::hash_to_signature_curve(b"anything");
    let zero_sig = UsualBLS::mul_signature(&h, &zero);
    assert!(UsualBLS::verify_prepared(
        UsualBLS::prepare_signature(&zero_sig),
        vec![]
    ));
    assert!(!UsualBLS::verify_prepared(
        UsualBLS::prepare_signature(&h),
        vec![]
    ));
}

#[test]
fn tiny_signed_message_default_verify() {
    let s = Scalar::from_u64(21);
    let message = Message::new(b"proto", b"tiny payload");
    let h = message.hash_to_signature_curve::<TinyBLS>();
    let signature = TinyBLS::mul_signature(&h, &s);
    let g = TinyBLS::generator_public_key();
    let pk = TinyBLS::mul_public_key(&g, &s);
    let sm = SignedMessage::<TinyBLS> {
        message,
        publickey: PublicKey(pk),
        signature: Signature(signature),
    };
    assert!(sm.verify());
}

#[test]
fn generate_draws_distinct_scalars() {
    let mut rng = rand_xorshift::XorShiftRng::from_seed([3u8; 16]);
    let s1 = UsualBLS::generate(&mut rng);
    let s2 = UsualBLS::generate(&mut rng);
    let h = UsualBLS::hash_to_signature_curve(b"distinct");
    let g = UsualBLS::generator_public_key();
    let pk1 = UsualBLS::mul_public_key(&g, &s1);
    let pk2 = UsualBLS::mul_public_key(&g, &s2);
    let t1 = UsualBLS::pairing(&pk1, &h);
    let t2 = UsualBLS::pairing(&pk2, &h);
    assert!(!t1.equals(&t2));
}

#[test]
fn small_scalar_multiples_agree_with_addition() {
    let two = Scalar::from_u64(2);
    let h = UsualBLS::hash_to_signature_curve(b"doubling");
    let doubled = UsualBLS::mul_signature(&h, &two);
    let summed = UsualBLS::add_signatures(&h, &h);
    let g = UsualBLS::generator_public_key();
    let t1 = UsualBLS::pairing(&g, &doubled);
    let t2 = UsualBLS::pairing(&g, &summed);
    assert!(t1.equals(&t2));
}
