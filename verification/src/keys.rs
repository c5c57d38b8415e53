//! The gateway's signing key, as the crypto library holds it.

use vstd::prelude::*;

verus! {

/// A `helium_crypto::Keypair`: a private key with its public key.
#[verifier::external_type_specification]
#[verifier::external_body]
pub struct ExKeypair(helium_crypto::Keypair);

/// Calls `helium_crypto::Sign::sign` on the keypair, which signs the bytes
/// with the private key or fails; a failure is handed on as the text that
/// the library renders it to. Nothing is claimed of the signature: it
/// depends on the key, and with some kinds of key on chance.
#[verifier::external_body]
pub(crate) fn keypair_sign(
    keypair: &helium_crypto::Keypair,
    bytes: &Vec<u8>,
) -> (signed: Result<Vec<u8>, String>) {
    helium_crypto::Sign::sign(keypair, bytes.as_slice()).map_err(|err| err.to_string())
}

} // verus!
