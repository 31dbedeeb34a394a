//! Key pairs and the derivation of a symmetric key from one party's private
//! key and the other party's public key.
use vstd::prelude::*;

use crate::error::CryptoError;

verus! {

/// Length in bytes of a private key, a public key and a symmetric key.
pub const KEY_LEN: usize = 32;

/// The x25519 public key (a Montgomery u-coordinate) of a private key.
pub uninterp spec fn x25519_public_of(private_key: Seq<u8>) -> Seq<u8>;

/// The x25519 shared secret of a private key and a public key.
pub uninterp spec fn x25519_shared_of(private_key: Seq<u8>, public_key: Seq<u8>) -> Seq<u8>;

/// The SHA-256 digest of a byte string.
pub uninterp spec fn sha256_of(data: Seq<u8>) -> Seq<u8>;

/// The symmetric key that the holder of `local_private` shares with the
/// holder of the private key behind `remote_public`.
pub open spec fn symmetric_key_of(local_private: Seq<u8>, remote_public: Seq<u8>) -> Seq<u8> {
    sha256_of(x25519_shared_of(local_private, remote_public))
}

/// Relies on x25519_dalek's `PublicKey::from(&StaticSecret)`: the public key
/// is a function of the private key bytes alone.
#[verifier::external_body]
fn x25519_public(private_key: &[u8; 32]) -> (r: [u8; 32])
    ensures
        r@ == x25519_public_of(private_key@),
{
    x25519_dalek::PublicKey::from(&x25519_dalek::StaticSecret::from(*private_key)).to_bytes()
}

/// Relies on x25519_dalek's `StaticSecret::diffie_hellman`: the shared secret
/// is a function of the two keys, and two parties reach the same one, since
/// both sides compute the clamped scalar product of the base point with the
/// two (clamped) private keys.
#[verifier::external_body]
fn x25519_shared(private_key: &[u8; 32], public_key: &[u8; 32]) -> (r: [u8; 32])
    ensures
        r@ == x25519_shared_of(private_key@, public_key@),
        forall|peer_private: Seq<u8>|
            #![trigger x25519_public_of(peer_private)]
            peer_private.len() == KEY_LEN && public_key@ == x25519_public_of(peer_private)
                ==> r@ == x25519_shared_of(peer_private, x25519_public_of(private_key@)),
{
    let secret = x25519_dalek::StaticSecret::from(*private_key);
    secret.diffie_hellman(&x25519_dalek::PublicKey::from(*public_key)).to_bytes()
}

/// Relies on sha2's `Sha256::digest`: the digest is a function of the input.
#[verifier::external_body]
fn sha256(data: &[u8; 32]) -> (r: [u8; 32])
    ensures
        r@ == sha256_of(data@),
{
    <sha2::Sha256 as sha2::Digest>::digest(data).into()
}

/// Relies on x25519_dalek's `StaticSecret::random_from_rng` with the
/// operating system's secure random source (which panics if that source
/// fails): 32 random bytes.
#[verifier::external_body]
fn random_private_key() -> (r: [u8; 32]) {
    x25519_dalek::StaticSecret::random_from_rng(aes_gcm::aead::OsRng).to_bytes()
}

/// The key pair `(private, public)` whose private key is `private_key`.
pub fn keypair_from_private(private_key: [u8; 32]) -> (r: ([u8; 32], [u8; 32]))
    ensures
        r.0 == private_key,
        r.1@ == x25519_public_of(private_key@),
{
    let public_key = x25519_public(&private_key);
    (private_key, public_key)
}

/// A fresh key pair `(private, public)` drawn from the secure random source.
pub fn keygen() -> (r: ([u8; 32], [u8; 32]))
    ensures
        r.1@ == x25519_public_of(r.0@),
{
    keypair_from_private(random_private_key())
}

/// The symmetric key shared by the holder of `local_private` and the holder
/// of the private key behind `remote_public`: SHA-256 of their x25519 shared
/// secret. The two directions agree: where `remote_public` is the public key
/// of `peer_private`, the result is also the key that `peer_private` derives
/// with the public key of `local_private`. Any 32 bytes are taken as a public
/// key, as x25519 does: a point of low order is not rejected, and then gives
/// the all-zero shared secret.
pub fn derive_symmetric_key(local_private: &[u8; 32], remote_public: &[u8; 32]) -> (r: [u8; 32])
    ensures
        r@ == symmetric_key_of(local_private@, remote_public@),
        forall|peer_private: Seq<u8>|
            #![trigger x25519_public_of(peer_private)]
            peer_private.len() == KEY_LEN && remote_public@ == x25519_public_of(peer_private)
                ==> r@ == symmetric_key_of(peer_private, x25519_public_of(local_private@)),
{
    let shared = x25519_shared(local_private, remote_public);
    sha256(&shared)
}

/// The 32-byte key held in `bytes`, or `InvalidKeyLength` where `bytes` is
/// not exactly 32 bytes long.
pub fn key_from_slice(bytes: &[u8]) -> (r: Result<[u8; 32], CryptoError>)
    ensures
        bytes@.len() == KEY_LEN ==> (r matches Ok(k) && k@ == bytes@),
        bytes@.len() != KEY_LEN ==> r == Err::<[u8; 32], CryptoError>(CryptoError::InvalidKeyLength),
{
    if bytes.len() != KEY_LEN {
        return Err(CryptoError::InvalidKeyLength);
    }
    let mut key = [0u8; 32];
    let mut i: usize = 0;
    while i < KEY_LEN
        invariant
            bytes@.len() == KEY_LEN,
            i <= KEY_LEN,
            forall|j: int| 0 <= j < i ==> key@[j] == bytes@[j],
        decreases KEY_LEN - i,
    {
        key[i] = bytes[i];
        i = i + 1;
    }
    assert(key@ =~= bytes@);
    Ok(key)
}

} // verus!
