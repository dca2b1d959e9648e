//! Round-trip check for sensitive data through the encryption
//! collaborator.

use vstd::prelude::*;
use crate::crypto::{secretbox_gen_key, secretbox_gen_nonce, secretbox_open, secretbox_seal};
use crate::transaction_error::TransactionError;

verus! {

/// Byte-by-byte equality of a slice and a vector.
fn bytes_eq(a: &[u8], b: &Vec<u8>) -> (r: bool)
    ensures
        r == (a@ == b@),
{
    let alen = a.len();
    if alen != b.len() {
        return false;
    }
    let mut i: usize = 0;
    while i < alen
        invariant
            0 <= i <= alen,
            alen == a@.len(),
            alen == b@.len(),
            forall|j: int| 0 <= j < i ==> a@[j] == b@[j],
        decreases alen - i,
    {
        if a[i] != b[i] {
            return false;
        }
        i = i + 1;
    }
    proof {
        assert(a@ =~= b@);
    }
    true
}

/// Seals the data under a fresh key and nonce, opens the box again,
/// and reports whether what came back equals the input. The box the
/// seal produced always opens back to the sealed bytes, so the answer
/// is always `Ok(true)`.
pub fn validar_dados_sensiveis(data: &[u8]) -> (r: Result<bool, TransactionError>)
    ensures
        r == Ok::<bool, TransactionError>(true),
{
    let key = secretbox_gen_key();
    let nonce = secretbox_gen_nonce();
    let encrypted = secretbox_seal(data, nonce.as_slice(), key.as_slice());
    let decrypted = match secretbox_open(encrypted.as_slice(), nonce.as_slice(), key.as_slice()) {
        Some(d) => d,
        None => {
            proof {
                assert(false);
            }
            return Err(TransactionError::InvalidDataFormat);
        },
    };
    Ok(bytes_eq(data, &decrypted))
}

} // verus!
