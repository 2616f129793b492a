//! The two capabilities the protocol asks of key material, and the wire form of a
//! peer's public key.

use crate::secret::{lemma_secret_view_injective, secret_result, AdnlSecret, KeyError};
use vstd::prelude::*;

verus! {

/// Something that can be sent as a 32-byte Edwards-compressed public key.
pub trait AdnlPublicKey {
    /// The key's Edwards-compressed encoding, or `None` where it has none.
    spec fn edwards_bytes(&self) -> Option<Seq<u8>>;

    /// The key's wire form: its Edwards-compressed encoding.
    fn to_bytes(&self) -> (r: Result<[u8; 32], KeyError>)
        ensures
            match r {
                Ok(b) => self.edwards_bytes() == Some(b@),
                Err(e) => self.edwards_bytes() is None && e == KeyError::ConversionFailure,
            },
    ;
}

/// A private key that can agree on a secret with any public key and derive its own.
pub trait AdnlPrivateKey: Sized {
    type PublicKey: AdnlPublicKey;

    /// What agreement with the peer whose wire bytes are `peer` yields.
    spec fn agreement(&self, peer: Seq<u8>) -> Result<Seq<u8>, KeyError>;

    /// Whether `p` is this key's own public key.
    spec fn is_public_of(&self, p: Self::PublicKey) -> bool;

    /// Diffie-Hellman with the peer's key, taken through its wire form.
    fn key_agreement<P: AdnlPublicKey>(&self, their_public: &P) -> (r: Result<AdnlSecret, KeyError>)
        ensures
            secret_result(r) == match their_public.edwards_bytes() {
                Some(y) => self.agreement(y),
                None => Err(KeyError::ConversionFailure),
            },
    ;

    /// This key's own public key, in the implementation's native form.
    fn public(&self) -> (r: Self::PublicKey)
        ensures
            self.is_public_of(r),
    ;
}

/// What agreement of `k` with a peer whose wire form is `wire` yields, as
/// `key_agreement` states it: the peer's failure to produce a wire form, or what `k`
/// makes of those bytes.
pub open spec fn agreement_outcome<K: AdnlPrivateKey>(k: K, wire: Option<Seq<u8>>) -> Result<Seq<u8>, KeyError> {
    match wire {
        Some(y) => k.agreement(y),
        None => Err(KeyError::ConversionFailure),
    }
}

/// Agreement is deterministic: any two results that `key_agreement` may return for
/// one private key and peers with the same wire form are the same value.
pub proof fn lemma_agreement_deterministic<K: AdnlPrivateKey>(
    k: K,
    wire: Option<Seq<u8>>,
    r1: Result<AdnlSecret, KeyError>,
    r2: Result<AdnlSecret, KeyError>,
)
    requires
        secret_result(r1) == agreement_outcome(k, wire),
        secret_result(r2) == agreement_outcome(k, wire),
    ensures
        r1 == r2,
{
    match (r1, r2) {
        (Ok(a), Ok(b)) => lemma_secret_view_injective(a, b),
        _ => {},
    }
}

/// A public key held in its wire form, as received from a peer.
#[derive(Clone, Copy, Debug, PartialEq, Eq)]
pub struct EdwardsPublicKey {
    bytes: [u8; 32],
}

impl View for EdwardsPublicKey {
    type V = Seq<u8>;

    closed spec fn view(&self) -> Seq<u8> {
        self.bytes@
    }
}

impl EdwardsPublicKey {
    /// Takes 32 received bytes as a public key; they are checked when used.
    pub fn from_bytes(bytes: [u8; 32]) -> (r: EdwardsPublicKey)
        ensures
            r@ == bytes@,
    {
        EdwardsPublicKey { bytes }
    }
}

impl AdnlPublicKey for EdwardsPublicKey {
    open spec fn edwards_bytes(&self) -> Option<Seq<u8>> {
        Some(self@)
    }

    fn to_bytes(&self) -> (r: Result<[u8; 32], KeyError>) {
        Ok(self.bytes)
    }
}

} // verus!
