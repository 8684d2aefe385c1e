//! Single BLS signatures: the smallest aggregate, one message under
//! one public key.

use vstd::prelude::*;

use crate::Message;
use crate::Signed;
use crate::arith::PointModel;
use crate::engine::EngineBLS;

verus! {

/// BLS public key: a point of the orientation's public-key group.
pub struct PublicKey<E: EngineBLS>(pub E::PublicKeyGroup);

/// BLS signature: a point of the orientation's signature group.
pub struct Signature<E: EngineBLS>(pub E::SignatureGroup);

/// One message signed under one public key: the simplest form the
/// shared verification routine accepts.
pub struct SignedMessage<E: EngineBLS> {
    pub message: Message,
    pub publickey: PublicKey<E>,
    pub signature: Signature<E>,
}

impl<E: EngineBLS> Signed for SignedMessage<E> {
    type E = E;

    open spec fn sig_model(&self) -> int {
        self.signature.0.model()
    }

    open spec fn pairs_model(&self) -> Seq<(Seq<u8>, int)> {
        seq![(self.message@, self.publickey.0.model())]
    }

    fn signature(&self) -> (s: Signature<E>) {
        Signature(self.signature.0)
    }

    fn messages_and_publickeys(self) -> (v: Vec<(Message, PublicKey<E>)>) {
        let ghost expected = self.pairs_model();
        let mut v: Vec<(Message, PublicKey<E>)> = Vec::new();
        v.push((self.message, self.publickey));
        proof {
            assert(expected.len() == 1);
            assert(v@[0].0@ == expected[0].0);
            assert(v@[0].1.0.model() == expected[0].1);
        }
        v
    }
}

} // verus!
