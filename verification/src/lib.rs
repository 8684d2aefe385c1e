//! Aggregate BLS signature core with transposable group roles.
//!
//! A BLS signature `sigma = s * H(msg)` under the public key `S = s * g`
//! verifies through a bilinear pairing `e` by the single-sided equation
//! `e(-g, sigma) * e(S, H(msg)) = 1`, which halves the pairing work of
//! the naive two-sided check.  This crate fixes the abstraction
//! boundary for that check: a pairing-engine interface whose two curve
//! groups can hold public keys and signatures in either orientation, a
//! domain-separated message digest used as the curve-hash input, a
//! rogue-key defence wrapper that changes capabilities but no algebra,
//! and the minimal contract an aggregate signature must satisfy to be
//! verifiable by the shared routine.

use vstd::prelude::*;

pub mod arith;
pub mod engine;
pub mod laws;
pub mod single;

use crate::arith::PointModel;
use crate::arith::reduced;
use crate::arith::shake128_digest32;
use crate::arith::shake128_of;
use crate::engine::EngineBLS;
use crate::engine::pair_products;
use crate::engine::verification_equation;
use crate::single::PublicKey;
use crate::single::Signature;

verus! {

/// Internal message hash size: 256 bits, so that birthday-bound
/// attacks cannot find two messages with the same hash.
pub const MESSAGE_SIZE: usize = 32;

/// The byte stream actually digested for a message: the context, the
/// eight-byte little-endian length of the message, then the message.
/// The context separates protocol domains; the length prefix removes
/// concatenation ambiguity between context and message.
pub open spec fn domain_stream(context: Seq<u8>, message: Seq<u8>) -> Seq<u8> {
    context + vstd::bytes::spec_u64_to_le_bytes(message.len() as u64) + message
}

/// Internal message hash type.  Short, for frequent rehashing as a map
/// key by callers.
#[derive(Debug, Copy, Clone, Hash, PartialEq, Eq, PartialOrd, Ord)]
pub struct Message(pub [u8; MESSAGE_SIZE]);

impl View for Message {
    type V = Seq<u8>;

    open spec fn view(&self) -> Seq<u8> {
        self.0@
    }
}

impl Message {
    /// Domain-separated digest of an application message: feeds the
    /// context, the length prefix and the message to an
    /// extendable-output hash and squeezes exactly 32 bytes.
    pub fn new(context: &[u8], message: &[u8]) -> (m: Message)
        ensures
            m@ == shake128_of(domain_stream(context@, message@)),
            m@.len() == MESSAGE_SIZE,
    {
        let mut input: Vec<u8> = Vec::new();
        let mut i: usize = 0;
        while i < context.len()
            invariant
                i <= context.len(),
                input@ == context@.subrange(0, i as int),
            decreases context.len() - i,
        {
            input.push(context[i]);
            proof {
                assert(input@ =~= context@.subrange(0, i + 1 as int));
            }
            i += 1;
        }
        proof {
            assert(input@ =~= context@);
        }
        let l: u64 = message.len() as u64;
        let mut lenv = vstd::bytes::u64_to_le_bytes(l);
        input.append(&mut lenv);
        let ghost prefix: Seq<u8> = context@ + vstd::bytes::spec_u64_to_le_bytes(l);
        let mut j: usize = 0;
        while j < message.len()
            invariant
                j <= message.len(),
                input@ == prefix + message@.subrange(0, j as int),
            decreases message.len() - j,
        {
            input.push(message[j]);
            proof {
                assert(input@ =~= prefix + message@.subrange(0, j + 1 as int));
            }
            j += 1;
        }
        proof {
            assert(input@ =~= domain_stream(context@, message@));
        }
        let digest = shake128_digest32(input.as_slice());
        Message(digest)
    }

    /// Map the 32-byte digest, not the raw message, onto the signature
    /// group of the chosen strategy: curve-hashing cost then does not
    /// depend on message length.
    pub fn hash_to_signature_curve<E: EngineBLS>(&self) -> (p: E::SignatureGroup)
        ensures
            p.model() == E::hash_exp(self@),
            reduced(p.model()),
    {
        E::hash_to_signature_curve(self.0.as_slice())
    }
}

impl<'a> From<&'a [u8]> for Message {
    /// Digest of a raw byte string under the empty context.
    fn from(x: &'a [u8]) -> (m: Message) {
        let empty: Vec<u8> = Vec::new();
        let m = Message::new(empty.as_slice(), x);
        proof {
            assert(empty@ =~= Seq::<u8>::empty());
            let target = shake128_of(domain_stream(Seq::<u8>::empty(), x@));
            assert(m@ == target);
            let w = choose|c: Message| c@ == target;
            assert(w@ == target);
            assert(m.0 =~= w.0);
        }
        m
    }
}

impl<'a> vstd::std_specs::convert::FromSpecImpl<&'a [u8]> for Message {
    open spec fn obeys_from_spec() -> bool {
        true
    }

    open spec fn from_spec(x: &'a [u8]) -> Message {
        choose|m: Message| m@ == shake128_of(domain_stream(Seq::empty(), x@))
    }
}

/// Discrete-log products contributed to the verification equation by
/// message/public-key pairs: each public key's log times the log of the
/// hash of its message.
pub open spec fn signed_products<E: EngineBLS>(pairs: Seq<(Seq<u8>, int)>) -> Seq<int>
    decreases pairs.len(),
{
    if pairs.len() == 0 {
        Seq::empty()
    } else {
        signed_products::<E>(pairs.drop_last()).push(
            pairs.last().1 * E::hash_exp(pairs.last().0),
        )
    }
}

/// Representation of an aggregated BLS signature: the minimal
/// capability any aggregate-signature form must offer so that the
/// shared routine can verify it.
pub trait Signed: Sized {
    type E: EngineBLS;

    /// Discrete log of the aggregated signature point.
    spec fn sig_model(&self) -> int;

    /// Models of the message/public-key pairs: each message digest and
    /// the discrete log of the public key it is paired with.
    spec fn pairs_model(&self) -> Seq<(Seq<u8>, int)>;

    /// Return the aggregated signature.
    fn signature(&self) -> (s: Signature<Self::E>)
        ensures
            s.0.model() == self.sig_model(),
    ;

    /// Return the message and public-key pairs, consumed by value:
    /// producing them may itself perform partial aggregation work, so
    /// the sequence is owned, single-pass and not restartable.
    fn messages_and_publickeys(self) -> (v: Vec<(Message, PublicKey<Self::E>)>)
        ensures
            v@.len() == self.pairs_model().len(),
            forall|k: int|
                0 <= k < v@.len() ==> (#[trigger] v@[k]).0@ == self.pairs_model()[k].0
                    && v@[k].1.0.model() == self.pairs_model()[k].1,
    ;

    /// BLS signature verification appropriate for `Self`.  The default
    /// is the simplest transform into the shared equation: it consumes
    /// the one-shot pair sequence exactly once, hashes every message
    /// onto the signature group, prepares every point without
    /// pre-normalization or deduplication, and runs one batched
    /// prepared verification; strategies with better options override
    /// it.
    fn verify(self) -> (b: bool)
        ensures
            b == verification_equation(
                signed_products::<Self::E>(self.pairs_model()),
                self.sig_model(),
            ),
    {
        let ghost pm = self.pairs_model();
        let sig = self.signature();
        let sig_prep = <Self::E as EngineBLS>::prepare_signature(&sig.0);
        let pairs = self.messages_and_publickeys();
        let ghost pair_view = pairs@;
        let mut prepared: Vec<
            (<Self::E as EngineBLS>::PublicKeyPrepared, <Self::E as EngineBLS>::SignaturePrepared),
        > = Vec::new();
        let mut i: usize = 0;
        while i < pairs.len()
            invariant
                i <= pairs.len(),
                pairs@ == pair_view,
                pair_view.len() == pm.len(),
                forall|k: int|
                    0 <= k < pm.len() ==> (#[trigger] pair_view[k]).0@ == pm[k].0
                        && pair_view[k].1.0.model() == pm[k].1,
                prepared@.len() == i,
                pair_products(prepared@) == signed_products::<Self::E>(
                    pm.subrange(0, i as int),
                ),
            decreases pairs.len() - i,
        {
            let ghost prev = pair_products(prepared@);
            let pr = &pairs[i];
            let h = pr.0.hash_to_signature_curve::<Self::E>();
            let hp = <Self::E as EngineBLS>::prepare_signature(&h);
            let pkp = <Self::E as EngineBLS>::prepare_public_key(&pr.1.0);
            prepared.push((pkp, hp));
            proof {
                let k = i as int;
                assert(pkp.model() == pm[k].1);
                assert(hp.model() == <Self::E as EngineBLS>::hash_exp(pm[k].0));
                assert(pair_products(prepared@) =~= prev.push(pkp.model() * hp.model()));
                let front = pm.subrange(0, k + 1);
                assert(front.drop_last() =~= pm.subrange(0, k));
                assert(front.last() == pm[k]);
                assert(signed_products::<Self::E>(front) == signed_products::<Self::E>(
                    pm.subrange(0, k),
                ).push(pm[k].1 * <Self::E as EngineBLS>::hash_exp(pm[k].0)));
            }
            i += 1;
        }
        proof {
            assert(pm.subrange(0, i as int) =~= pm);
        }
        <Self::E as EngineBLS>::verify_prepared(sig_prep, prepared)
    }
}

} // verus!
