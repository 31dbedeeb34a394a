//! The authenticated cipher: AES-256-GCM with a random 96-bit nonce that
//! travels after the ciphertext and its tag.
use vstd::prelude::*;

use crate::error::CryptoError;

verus! {

/// Length in bytes of a nonce.
pub const NONCE_LEN: usize = 12;

/// Length in bytes of an authentication tag.
pub const TAG_LEN: usize = 16;

/// How much longer an envelope is than the plaintext it seals.
pub const OVERHEAD: usize = 28;

/// The longest plaintext that AES-GCM encrypts under one nonce: 2^36 bytes.
pub const MAX_PLAINTEXT_LEN: u64 = 68719476736;

#[verifier::external_type_specification]
#[verifier::external_body]
pub struct ExAeadError(aes_gcm::Error);

/// The ciphertext with its tag that AES-256-GCM makes of a plaintext under a
/// key and a nonce, with no associated data.
pub uninterp spec fn gcm_sealed_of(key: Seq<u8>, nonce: Seq<u8>, plaintext: Seq<u8>) -> Seq<u8>;

/// The plaintext that AES-256-GCM recovers from a ciphertext with its tag
/// under a key and a nonce, with no associated data; `None` where the tag does
/// not verify.
pub uninterp spec fn gcm_opened_of(key: Seq<u8>, nonce: Seq<u8>, ciphertext: Seq<u8>) -> Option<Seq<u8>>;

/// Relies on aes_gcm's `Aead::encrypt` for `Aes256Gcm`: it fails only on a
/// plaintext longer than 2^36 bytes, and appends a 16-byte tag to a
/// ciphertext as long as the plaintext.
#[verifier::external_body]
fn gcm_encrypt(key: &[u8; 32], nonce: &[u8; 12], plaintext: &[u8]) -> (r: Result<Vec<u8>, aes_gcm::Error>)
    ensures
        r is Ok <==> plaintext@.len() <= MAX_PLAINTEXT_LEN,
        r matches Ok(c) ==> c@ == gcm_sealed_of(key@, nonce@, plaintext@),
        r matches Ok(c) ==> c@.len() == plaintext@.len() + TAG_LEN,
{
    let cipher = <aes_gcm::Aes256Gcm as aes_gcm::KeyInit>::new(&(*key).into());
    aes_gcm::aead::Aead::encrypt(&cipher, &(*nonce).into(), plaintext)
}

/// Relies on aes_gcm's `Aead::decrypt` for `Aes256Gcm`: it fails where the
/// tag does not verify, and it inverts `Aead::encrypt` under the same key and
/// nonce.
#[verifier::external_body]
fn gcm_decrypt(key: &[u8; 32], nonce: &[u8; 12], ciphertext: &[u8]) -> (r: Result<Vec<u8>, aes_gcm::Error>)
    ensures
        r is Ok <==> gcm_opened_of(key@, nonce@, ciphertext@) is Some,
        r matches Ok(p) ==> gcm_opened_of(key@, nonce@, ciphertext@) == Some(p@),
        forall|p: Seq<u8>|
            #![trigger gcm_sealed_of(key@, nonce@, p)]
            p.len() <= MAX_PLAINTEXT_LEN && ciphertext@ == gcm_sealed_of(key@, nonce@, p)
                ==> (r is Ok && r->Ok_0@ == p),
{
    let cipher = <aes_gcm::Aes256Gcm as aes_gcm::KeyInit>::new(&(*key).into());
    aes_gcm::aead::Aead::decrypt(&cipher, &(*nonce).into(), ciphertext)
}

/// Relies on aes_gcm's `AeadCore::generate_nonce` with the operating
/// system's secure random source (which panics if that source fails): 12
/// random bytes.
#[verifier::external_body]
fn random_nonce() -> (r: [u8; 12]) {
    <aes_gcm::Aes256Gcm as aes_gcm::AeadCore>::generate_nonce(&mut aes_gcm::aead::OsRng).into()
}

/// The nonce of an envelope: its last 12 bytes.
pub open spec fn envelope_nonce(envelope: Seq<u8>) -> Seq<u8> {
    envelope.subrange(envelope.len() - NONCE_LEN, envelope.len() as int)
}

/// The ciphertext with its tag of an envelope: all but its last 12 bytes.
pub open spec fn envelope_body(envelope: Seq<u8>) -> Seq<u8> {
    envelope.subrange(0, envelope.len() - NONCE_LEN)
}

/// The envelope that seals `plaintext` under `key` with `nonce`.
pub open spec fn sealing(key: Seq<u8>, nonce: Seq<u8>, plaintext: Seq<u8>) -> Seq<u8> {
    gcm_sealed_of(key, nonce, plaintext) + nonce
}

/// `envelope` is a sealing of `plaintext` under `key`, with the nonce that it
/// carries, as `seal` makes it.
pub open spec fn is_sealing(key: Seq<u8>, plaintext: Seq<u8>, envelope: Seq<u8>) -> bool {
    &&& envelope.len() == plaintext.len() + OVERHEAD
    &&& envelope == sealing(key, envelope_nonce(envelope), plaintext)
}

/// What opening `envelope` under `key` gives.
pub open spec fn opening(key: Seq<u8>, envelope: Seq<u8>) -> Result<Seq<u8>, CryptoError> {
    if envelope.len() < OVERHEAD {
        Err(CryptoError::MalformedEnvelope)
    } else {
        match gcm_opened_of(key, envelope_nonce(envelope), envelope_body(envelope)) {
            Some(p) => Ok(p),
            None => Err(CryptoError::AuthenticationFailure),
        }
    }
}

/// Seals `plaintext` under `key` with the given nonce: the ciphertext with
/// its tag, followed by the nonce.
pub fn seal_with_nonce(key: &[u8; 32], nonce: &[u8; 12], plaintext: &[u8]) -> (r: Vec<u8>)
    requires
        plaintext@.len() <= MAX_PLAINTEXT_LEN,
    ensures
        r@ == sealing(key@, nonce@, plaintext@),
        r@.len() == plaintext@.len() + OVERHEAD,
        is_sealing(key@, plaintext@, r@),
{
    let mut envelope = match gcm_encrypt(key, nonce, plaintext) {
        Ok(c) => c,
        Err(_) => {
            proof {
                assert(false);
            }
            Vec::new()
        },
    };
    let ghost body = envelope@;
    envelope.extend_from_slice(nonce.as_slice());
    assert(envelope@ =~= body + nonce@);
    assert(envelope_nonce(envelope@) =~= nonce@);
    envelope
}

/// Seals `plaintext` under `key` with a fresh random nonce.
pub fn seal(key: &[u8; 32], plaintext: &[u8]) -> (r: Vec<u8>)
    requires
        plaintext@.len() <= MAX_PLAINTEXT_LEN,
    ensures
        r@.len() == plaintext@.len() + OVERHEAD,
        is_sealing(key@, plaintext@, r@),
{
    let nonce = random_nonce();
    seal_with_nonce(key, &nonce, plaintext)
}

/// Opens `envelope` under `key`: `MalformedEnvelope` where it is too short to
/// hold a tag and a nonce, `AuthenticationFailure` where its tag does not
/// verify, else the plaintext. An envelope that `seal` made of a plaintext
/// under the same key opens to that plaintext.
pub fn open(key: &[u8; 32], envelope: &[u8]) -> (r: Result<Vec<u8>, CryptoError>)
    ensures
        r matches Ok(p) ==> opening(key@, envelope@) == Ok::<Seq<u8>, CryptoError>(p@),
        r matches Err(e) ==> opening(key@, envelope@) == Err::<Seq<u8>, CryptoError>(e),
        forall|p: Seq<u8>|
            p.len() <= MAX_PLAINTEXT_LEN && #[trigger] is_sealing(key@, p, envelope@)
                ==> (r is Ok && r->Ok_0@ == p),
{
    if envelope.len() < OVERHEAD {
        return Err(CryptoError::MalformedEnvelope);
    }
    let split = envelope.len() - NONCE_LEN;
    let mut nonce = [0u8; 12];
    let mut i: usize = 0;
    while i < NONCE_LEN
        invariant
            envelope@.len() >= OVERHEAD,
            split + NONCE_LEN == envelope.len(),
            i <= NONCE_LEN,
            forall|j: int| 0 <= j < i ==> nonce@[j] == envelope@[split + j],
        decreases NONCE_LEN - i,
    {
        nonce[i] = envelope[split + i];
        i = i + 1;
    }
    assert(nonce@ =~= envelope_nonce(envelope@));
    let body = slice_prefix(envelope, split);
    let opened = gcm_decrypt(key, &nonce, body.as_slice());
    assert forall|p: Seq<u8>|
        p.len() <= MAX_PLAINTEXT_LEN && #[trigger] is_sealing(key@, p, envelope@)
        implies opened is Ok && opened->Ok_0@ == p by {
        assert(body@ =~= gcm_sealed_of(key@, nonce@, p));
    }
    match opened {
        Ok(p) => Ok(p),
        Err(_) => Err(CryptoError::AuthenticationFailure),
    }
}

/// The first `n` bytes of `s`.
fn slice_prefix(s: &[u8], n: usize) -> (r: Vec<u8>)
    requires
        n <= s@.len(),
    ensures
        r@ == s@.subrange(0, n as int),
{
    let mut r: Vec<u8> = Vec::with_capacity(n);
    let mut i: usize = 0;
    while i < n
        invariant
            n <= s@.len(),
            i <= n,
            r@ == s@.subrange(0, i as int),
        decreases n - i,
    {
        r.push(s[i]);
        i = i + 1;
    }
    r
}

} // verus!
