//! Trusted wrappers around the post-quantum signature scheme and the
//! authenticated secret box that the transaction layer uses.
//!
//! Each wrapper makes one call into an outside crate; its contract
//! states only what that crate's source shows.

use vstd::prelude::*;
use pqcrypto_dilithium::dilithium5;
use sodiumoxide::crypto::secretbox;

verus! {

/// Bytes of a Dilithium5 public key.
pub const DILITHIUM5_PUBLIC_KEY_BYTES: usize = 2592;

/// Bytes of a detached Dilithium5 signature.
pub const DILITHIUM5_SIGNATURE_BYTES: usize = 4627;

/// Bytes of a secret-box nonce.
pub const SECRETBOX_NONCE_BYTES: usize = 24;

/// Bytes of a secret-box key.
pub const SECRETBOX_KEY_BYTES: usize = 32;

/// Bytes a secret box adds ahead of the plaintext for its
/// authentication tag.
pub const SECRETBOX_MAC_BYTES: usize = 16;

#[verifier::external_type_specification]
#[verifier::external_body]
pub struct ExPublicKey(dilithium5::PublicKey);

#[verifier::external_type_specification]
#[verifier::external_body]
pub struct ExSecretKey(dilithium5::SecretKey);

/// Relies on `dilithium5::keypair`: a freshly drawn signing key pair,
/// of whose value nothing holds.
#[verifier::external_body]
pub fn dilithium_keypair() -> (pk_sk: (dilithium5::PublicKey, dilithium5::SecretKey)) {
    dilithium5::keypair()
}

/// Relies on `dilithium5::detached_sign`: a detached signature is
/// always exactly [`DILITHIUM5_SIGNATURE_BYTES`] long.
#[verifier::external_body]
pub fn dilithium_sign_detached(data: &[u8], sk: &dilithium5::SecretKey) -> (sig: Vec<u8>)
    ensures
        sig@.len() == DILITHIUM5_SIGNATURE_BYTES,
{
    let sig = dilithium5::detached_sign(data, sk);
    pqcrypto_traits::sign::DetachedSignature::as_bytes(&sig).to_vec()
}

/// Relies on `DetachedSignature::from_bytes` and
/// `dilithium5::verify_detached_signature`: true exactly when the bytes
/// parse as a signature that verifies for the data under the key;
/// nothing more holds of the outcome.
#[verifier::external_body]
pub fn dilithium_verify_detached(
    sig: &[u8],
    data: &[u8],
    pk: &dilithium5::PublicKey,
) -> (r: bool) {
    match <dilithium5::DetachedSignature as pqcrypto_traits::sign::DetachedSignature>::from_bytes(
        sig,
    ) {
        Ok(s) => dilithium5::verify_detached_signature(&s, data, pk).is_ok(),
        Err(_) => false,
    }
}

/// Relies on `PublicKey::as_bytes`: the key's fixed-length byte form.
#[verifier::external_body]
pub fn dilithium_public_key_bytes(pk: &dilithium5::PublicKey) -> (r: Vec<u8>)
    ensures
        r@.len() == DILITHIUM5_PUBLIC_KEY_BYTES,
{
    pqcrypto_traits::sign::PublicKey::as_bytes(pk).to_vec()
}

/// What `secretbox::seal` returns for a message, nonce and key; a pure
/// function of the three, too long to state.
pub uninterp spec fn sealed_of(m: Seq<u8>, nonce: Seq<u8>, key: Seq<u8>) -> Seq<u8>;

/// Relies on `secretbox::gen_nonce`: a random nonce of the fixed
/// length; nothing holds of its value.
#[verifier::external_body]
pub fn secretbox_gen_nonce() -> (r: Vec<u8>)
    ensures
        r@.len() == SECRETBOX_NONCE_BYTES,
{
    secretbox::gen_nonce().0.to_vec()
}

/// Relies on `secretbox::gen_key`: a random key of the fixed length;
/// nothing holds of its value.
#[verifier::external_body]
pub fn secretbox_gen_key() -> (r: Vec<u8>)
    ensures
        r@.len() == SECRETBOX_KEY_BYTES,
{
    secretbox::gen_key().0.to_vec()
}

/// Relies on `secretbox::seal`: authenticated encryption, a pure
/// function of message, nonce and key, sixteen tag bytes ahead of the
/// plaintext length.
#[verifier::external_body]
pub fn secretbox_seal(data: &[u8], nonce: &[u8], key: &[u8]) -> (r: Vec<u8>)
    requires
        nonce@.len() == SECRETBOX_NONCE_BYTES,
        key@.len() == SECRETBOX_KEY_BYTES,
    ensures
        r@ == sealed_of(data@, nonce@, key@),
        r@.len() == data@.len() + SECRETBOX_MAC_BYTES,
{
    let nonce = secretbox::Nonce::from_slice(nonce).unwrap();
    let key = secretbox::Key::from_slice(key).unwrap();
    secretbox::seal(data, &nonce, &key)
}

/// Relies on `secretbox::open`: decryption succeeds exactly on a valid
/// box, and what it opens to is the message the box was sealed over.
#[verifier::external_body]
pub fn secretbox_open(cipher: &[u8], nonce: &[u8], key: &[u8]) -> (r: Option<Vec<u8>>)
    requires
        nonce@.len() == SECRETBOX_NONCE_BYTES,
        key@.len() == SECRETBOX_KEY_BYTES,
    ensures
        (exists|m: Seq<u8>| cipher@ == sealed_of(m, nonce@, key@)) ==> r is Some,
        r matches Some(x) ==> cipher@ == sealed_of(x@, nonce@, key@) && (forall|m: Seq<u8>|
            cipher@ == sealed_of(m, nonce@, key@) ==> x@ == m),
{
    let nonce = secretbox::Nonce::from_slice(nonce).unwrap();
    let key = secretbox::Key::from_slice(key).unwrap();
    secretbox::open(cipher, &nonce, &key).ok()
}


/// Relies on `PublicKey::from_bytes`: parsing succeeds exactly on the
/// fixed key length.
#[verifier::external_body]
pub fn dilithium_public_key_from_bytes(b: &[u8]) -> (r: Option<dilithium5::PublicKey>)
    ensures
        (r is Some) <==> b@.len() == DILITHIUM5_PUBLIC_KEY_BYTES,
{
    <dilithium5::PublicKey as pqcrypto_traits::sign::PublicKey>::from_bytes(b).ok()
}

} // verus!
