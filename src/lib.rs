//! Key agreement for a protocol whose identities are Edwards-form curve25519 keys
//! while its session secrets come from X25519 Diffie-Hellman on the Montgomery form.

pub mod curve;
pub mod dalek;
pub mod keys;
pub mod secret;

pub use keys::{AdnlPrivateKey, AdnlPublicKey, EdwardsPublicKey};
pub use secret::{AdnlSecret, KeyError};
pub use dalek::{edwards_to_montgomery, X25519PublicKey, X25519StaticSecret};
