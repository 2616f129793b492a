//! The capabilities implemented over X25519: keys live in Montgomery form and are
//! bridged to and from the Edwards wire form.

use crate::curve::{
    decompress_to_montgomery, edwards_to_montgomery_u, montgomery_to_edwards,
    montgomery_to_edwards_y, x25519_diffie_hellman, x25519_public, x25519_public_of,
    x25519_shared,
};
use crate::keys::{agreement_outcome, AdnlPrivateKey, AdnlPublicKey};
use crate::secret::{secret_result, AdnlSecret, KeyError};
use vstd::prelude::*;

verus! {

/// The sign bit given to the Edwards x-coordinate when a Montgomery key is written in
/// Edwards form. The u-coordinate does not determine it; this library fixes it to 0,
/// and the wire bytes of every Montgomery key depend on that choice.
pub const EDWARDS_SIGN: u8 = 0;

/// An X25519 public key: the Montgomery u-coordinate of a point.
#[derive(Clone, Copy, Debug, PartialEq, Eq)]
pub struct X25519PublicKey {
    u: [u8; 32],
}

impl View for X25519PublicKey {
    type V = Seq<u8>;

    closed spec fn view(&self) -> Seq<u8> {
        self.u@
    }
}

impl X25519PublicKey {
    /// Takes a Montgomery u-coordinate as a public key.
    pub fn from_bytes(u: [u8; 32]) -> (r: X25519PublicKey)
        ensures
            r@ == u@,
    {
        X25519PublicKey { u }
    }

    /// The key's Montgomery u-coordinate.
    pub fn as_montgomery_bytes(&self) -> (r: [u8; 32])
        ensures
            r@ == self@,
    {
        self.u
    }
}

impl AdnlPublicKey for X25519PublicKey {
    open spec fn edwards_bytes(&self) -> Option<Seq<u8>> {
        montgomery_to_edwards_y(self@, EDWARDS_SIGN)
    }

    fn to_bytes(&self) -> (r: Result<[u8; 32], KeyError>) {
        match montgomery_to_edwards(&self.u, EDWARDS_SIGN) {
            Some(y) => Ok(y),
            None => Err(KeyError::ConversionFailure),
        }
    }
}

/// The Montgomery form of a key whose wire form is `wire`: its u-coordinate, or the
/// error that stops the conversion.
pub open spec fn montgomery_of_wire(wire: Option<Seq<u8>>) -> Result<Seq<u8>, KeyError> {
    match wire {
        None => Err(KeyError::ConversionFailure),
        Some(y) => match edwards_to_montgomery_u(y) {
            Some(u) => Ok(u),
            None => Err(KeyError::InvalidEncoding),
        },
    }
}

/// A converted key seen as its u-coordinate.
pub open spec fn montgomery_result(r: Result<X25519PublicKey, KeyError>) -> Result<Seq<u8>, KeyError> {
    match r {
        Ok(k) => Ok(k@),
        Err(e) => Err(e),
    }
}

/// Converts any public key to X25519 form through its Edwards wire bytes. Fails with
/// `InvalidEncoding` where those bytes are not a curve point.
pub fn edwards_to_montgomery<P: AdnlPublicKey>(public_key: &P) -> (r: Result<X25519PublicKey, KeyError>)
    ensures
        montgomery_result(r) == montgomery_of_wire(public_key.edwards_bytes()),
{
    let y = match public_key.to_bytes() {
        Ok(y) => y,
        Err(e) => {
            return Err(e);
        },
    };
    match decompress_to_montgomery(&y) {
        Some(u) => Ok(X25519PublicKey { u }),
        None => Err(KeyError::InvalidEncoding),
    }
}

/// An X25519 private scalar. Its bytes never leave it; clamping is left to the
/// scalar multiplication.
pub struct X25519StaticSecret {
    scalar: [u8; 32],
}

impl View for X25519StaticSecret {
    type V = Seq<u8>;

    closed spec fn view(&self) -> Seq<u8> {
        self.scalar@
    }
}

impl X25519StaticSecret {
    /// Loads a private scalar.
    pub fn from_bytes(scalar: [u8; 32]) -> (r: X25519StaticSecret)
        ensures
            r@ == scalar@,
    {
        X25519StaticSecret { scalar }
    }
}

impl AdnlPrivateKey for X25519StaticSecret {
    type PublicKey = X25519PublicKey;

    open spec fn agreement(&self, peer: Seq<u8>) -> Result<Seq<u8>, KeyError> {
        match edwards_to_montgomery_u(peer) {
            Some(u) => Ok(x25519_shared(self@, u)),
            None => Err(KeyError::InvalidEncoding),
        }
    }

    open spec fn is_public_of(&self, p: X25519PublicKey) -> bool {
        p@ == x25519_public_of(self@)
    }

    fn key_agreement<P: AdnlPublicKey>(&self, their_public: &P) -> (r: Result<AdnlSecret, KeyError>) {
        let peer = match edwards_to_montgomery(their_public) {
            Ok(peer) => peer,
            Err(e) => {
                return Err(e);
            },
        };
        let shared = x25519_diffie_hellman(&self.scalar, &peer.u);
        Ok(AdnlSecret::from_bytes(shared))
    }

    fn public(&self) -> (r: X25519PublicKey) {
        X25519PublicKey { u: x25519_public(&self.scalar) }
    }
}

/// Conversion is deterministic: any two results that `edwards_to_montgomery` may
/// return for keys with the same wire form are the same value, and so are the wire
/// bytes that `to_bytes` then gives back for them.
pub proof fn lemma_conversion_deterministic(
    wire: Option<Seq<u8>>,
    r1: Result<X25519PublicKey, KeyError>,
    r2: Result<X25519PublicKey, KeyError>,
)
    requires
        montgomery_result(r1) == montgomery_of_wire(wire),
        montgomery_result(r2) == montgomery_of_wire(wire),
    ensures
        r1 == r2,
        r1 matches Ok(k1) ==> r2 matches Ok(k2) && k1.edwards_bytes() == k2.edwards_bytes(),
{
    match (r1, r2) {
        (Ok(a), Ok(b)) => {
            assert(a.u =~= b.u);
        },
        _ => {},
    }
}

/// A peer whose wire bytes are not a curve point is refused with `InvalidEncoding`:
/// agreement never yields a secret for it.
pub proof fn lemma_malformed_rejected(
    k: X25519StaticSecret,
    y: Seq<u8>,
    r: Result<AdnlSecret, KeyError>,
)
    requires
        edwards_to_montgomery_u(y) is None,
        secret_result(r) == agreement_outcome(k, Some(y)),
    ensures
        r == Err::<AdnlSecret, KeyError>(KeyError::InvalidEncoding),
{
}

} // verus!
