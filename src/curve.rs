//! The curve25519 primitives this library relies on, from `curve25519_dalek` and
//! `x25519_dalek`. Points travel as their 32-byte encodings; what each primitive
//! returns is named by a spec function of those bytes.

use curve25519_dalek::edwards::CompressedEdwardsY;
use curve25519_dalek::montgomery::MontgomeryPoint;
use vstd::prelude::*;
use x25519_dalek::{PublicKey, StaticSecret};

verus! {

/// The Montgomery u-coordinate bytes of the point whose compressed Edwards form is
/// `y`, or `None` where `y` is not the compressed form of a curve point.
pub uninterp spec fn edwards_to_montgomery_u(y: Seq<u8>) -> Option<Seq<u8>>;

/// The compressed Edwards form of the point with Montgomery u-coordinate `u` whose
/// x-coordinate has sign bit `sign`, or `None` where no curve point has that `u`.
pub uninterp spec fn montgomery_to_edwards_y(u: Seq<u8>, sign: u8) -> Option<Seq<u8>>;

/// X25519 of scalar `k` with the base point: the public key of `k`.
pub uninterp spec fn x25519_public_of(k: Seq<u8>) -> Seq<u8>;

/// X25519 of scalar `k` with the point of u-coordinate `u`: the shared secret.
pub uninterp spec fn x25519_shared(k: Seq<u8>, u: Seq<u8>) -> Seq<u8>;

/// An optional array seen as optional bytes.
pub open spec fn opt_bytes(r: Option<[u8; 32]>) -> Option<Seq<u8>> {
    match r {
        Some(b) => Some(b@),
        None => None,
    }
}

/// Relies on `CompressedEdwardsY::decompress`, which returns `None` exactly where the
/// bytes are not a curve point's compressed form, and on `EdwardsPoint::to_montgomery`
/// with `MontgomeryPoint::to_bytes`, which encode the point's u-coordinate.
#[verifier::external_body]
pub(crate) fn decompress_to_montgomery(y: &[u8; 32]) -> (r: Option<[u8; 32]>)
    ensures
        opt_bytes(r) == edwards_to_montgomery_u(y@),
{
    match CompressedEdwardsY(*y).decompress() {
        Some(point) => Some(point.to_montgomery().to_bytes()),
        None => None,
    }
}

/// Relies on `MontgomeryPoint::to_edwards`, which returns `None` where `u` has no
/// Edwards point with the given sign, and on `EdwardsPoint::compress` with
/// `CompressedEdwardsY::to_bytes`, which encode the point found.
#[verifier::external_body]
pub(crate) fn montgomery_to_edwards(u: &[u8; 32], sign: u8) -> (r: Option<[u8; 32]>)
    ensures
        opt_bytes(r) == montgomery_to_edwards_y(u@, sign),
{
    match MontgomeryPoint(*u).to_edwards(sign) {
        Some(point) => Some(point.compress().to_bytes()),
        None => None,
    }
}

/// Relies on `PublicKey::from(&StaticSecret)`: the clamped scalar times the base
/// point, as Montgomery u-coordinate bytes.
#[verifier::external_body]
pub(crate) fn x25519_public(k: &[u8; 32]) -> (r: [u8; 32])
    ensures
        r@ == x25519_public_of(k@),
{
    PublicKey::from(&StaticSecret::from(*k)).to_bytes()
}

/// Relies on `StaticSecret::diffie_hellman`: the clamped scalar times the peer's
/// Montgomery point, as u-coordinate bytes.
#[verifier::external_body]
pub(crate) fn x25519_diffie_hellman(k: &[u8; 32], u: &[u8; 32]) -> (r: [u8; 32])
    ensures
        r@ == x25519_shared(k@, u@),
{
    StaticSecret::from(*k).diffie_hellman(&PublicKey::from(*u)).to_bytes()
}

} // verus!
