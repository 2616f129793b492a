//! The value types that leave this library: the shared secret and the error kinds.

use vstd::prelude::*;

verus! {

/// Why a key operation failed.
#[derive(Clone, Copy, Debug, PartialEq, Eq, Structural)]
pub enum KeyError {
    /// Public-key bytes that do not decode to a point of the curve.
    InvalidEncoding,
    /// A birational-map step that failed on a point that was accepted as valid.
    ConversionFailure,
}

/// The 32-byte output of a Diffie-Hellman agreement, handed to the session layer.
///
/// It holds those bytes and nothing else: no copy of the peer's point or of the
/// private scalar travels with it.
#[derive(Clone, Debug, PartialEq, Eq)]
pub struct AdnlSecret {
    bytes: [u8; 32],
}

impl View for AdnlSecret {
    type V = Seq<u8>;

    closed spec fn view(&self) -> Seq<u8> {
        self.bytes@
    }
}

impl AdnlSecret {
    /// Wraps raw agreement output.
    pub fn from_bytes(bytes: [u8; 32]) -> (r: AdnlSecret)
        ensures
            r@ == bytes@,
    {
        AdnlSecret { bytes }
    }

    /// The secret's bytes.
    pub fn as_bytes(&self) -> (r: &[u8; 32])
        ensures
            r@ == self@,
    {
        &self.bytes
    }

    /// A copy of the secret's bytes.
    pub fn to_bytes(&self) -> (r: [u8; 32])
        ensures
            r@ == self@,
    {
        self.bytes
    }
}

/// The outcome of an agreement, with the secret seen as its bytes.
pub open spec fn secret_result(r: Result<AdnlSecret, KeyError>) -> Result<Seq<u8>, KeyError> {
    match r {
        Ok(s) => Ok(s@),
        Err(e) => Err(e),
    }
}

/// Two secrets with the same bytes are the same value.
pub proof fn lemma_secret_view_injective(a: AdnlSecret, b: AdnlSecret)
    requires
        a@ == b@,
    ensures
        a == b,
{
    assert(a.bytes =~= b.bytes);
}

} // verus!
