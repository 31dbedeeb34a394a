//! Point-to-point authenticated encryption between two holders of x25519 key
//! pairs: a static Diffie-Hellman exchange, hashed with SHA-256 into an
//! AES-256-GCM key, seals a message into an envelope that only the named
//! receiver can open.
pub mod cipher;
pub mod error;
pub mod keys;
pub mod message;

pub use cipher::{open, seal, seal_with_nonce};
pub use error::CryptoError;
pub use keys::{derive_symmetric_key, key_from_slice, keygen, keypair_from_private};
pub use message::{decrypt, encrypt};
