//! Messages from a sender to a receiver: each side derives the symmetric key
//! from its own private key and the other side's public key.
use vstd::prelude::*;

use crate::cipher::{is_sealing, open, opening, seal, MAX_PLAINTEXT_LEN, OVERHEAD};
use crate::error::CryptoError;
use crate::keys::{derive_symmetric_key, symmetric_key_of, x25519_public_of, KEY_LEN};

verus! {

/// Seals `input` from the holder of `sender_sk` to the holder of the private
/// key behind `receiver_pk`: the ciphertext with its tag, then the nonce.
pub fn encrypt(input: Vec<u8>, sender_sk: [u8; 32], receiver_pk: [u8; 32]) -> (r: Vec<u8>)
    requires
        input@.len() <= MAX_PLAINTEXT_LEN,
    ensures
        r@.len() == input@.len() + OVERHEAD,
        is_sealing(symmetric_key_of(sender_sk@, receiver_pk@), input@, r@),
{
    let key = derive_symmetric_key(&sender_sk, &receiver_pk);
    seal(&key, input.as_slice())
}

/// Opens `input`, sent to the holder of `receiver_sk` by the holder of the
/// private key behind `sender_pk`. A message that `encrypt` sealed from that
/// sender to the receiver's public key opens to what was sealed.
pub fn decrypt(input: Vec<u8>, receiver_sk: [u8; 32], sender_pk: [u8; 32]) -> (r: Result<
    Vec<u8>,
    CryptoError,
>)
    ensures
        r matches Ok(p) ==> opening(symmetric_key_of(receiver_sk@, sender_pk@), input@)
            == Ok::<Seq<u8>, CryptoError>(p@),
        r matches Err(e) ==> opening(symmetric_key_of(receiver_sk@, sender_pk@), input@)
            == Err::<Seq<u8>, CryptoError>(e),
        forall|sender_private: Seq<u8>, p: Seq<u8>|
            sender_private.len() == KEY_LEN && sender_pk@ == x25519_public_of(sender_private)
                && p.len() <= MAX_PLAINTEXT_LEN && #[trigger] is_sealing(
                symmetric_key_of(sender_private, x25519_public_of(receiver_sk@)),
                p,
                input@,
            ) ==> (r is Ok && r->Ok_0@ == p),
{
    let key = derive_symmetric_key(&receiver_sk, &sender_pk);
    let r = open(&key, input.as_slice());
    assert forall|sender_private: Seq<u8>, p: Seq<u8>|
        sender_private.len() == KEY_LEN && sender_pk@ == x25519_public_of(sender_private)
            && p.len() <= MAX_PLAINTEXT_LEN && #[trigger] is_sealing(
            symmetric_key_of(sender_private, x25519_public_of(receiver_sk@)),
            p,
            input@,
        ) implies (r is Ok && r->Ok_0@ == p) by {
        assert(x25519_public_of(sender_private) == sender_pk@);
        assert(is_sealing(key@, p, input@));
    }
    r
}

} // verus!
