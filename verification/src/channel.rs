//! The confidential channel: public-key encryption of transfer payloads, so
//! that the relaying entity cannot read them.
//!
//! The scheme is integrated encryption (ephemeral-key Diffie-Hellman plus
//! authenticated symmetric encryption) supplied by the `ecies` crate; this
//! module states its contract — decryption is a function of secret key and
//! ciphertext, and inverts encryption under the matching keypair — and
//! builds the library's checked encrypt/decrypt operations on it.

use vstd::prelude::*;
use vstd::string::StringExecFns;
use crate::errors::SeError;

verus! {

/// The serialized public key derived from a serialized secret key.
pub uninterp spec fn pubkey_of(sk: Seq<u8>) -> Seq<u8>;

/// What decryption yields on a secret key and a ciphertext: the plaintext,
/// or nothing when authentication fails.  Decryption is deterministic, so
/// this is a function of its two arguments.
pub uninterp spec fn decrypted_of(sk: Seq<u8>, ct: Seq<u8>) -> Option<Seq<u8>>;

/// Errors of the confidential channel.
#[derive(Debug)]
pub enum ECIESError {
    Generic(String),
    EncryptionError(String),
}

impl ECIESError {
    /// The error rendered as one line of text, kind first.
    pub fn to_message(&self) -> (r: String)
        ensures
            self matches ECIESError::Generic(e) ==> r@ == "generic Error: "@ + e@,
            self matches ECIESError::EncryptionError(e) ==> r@ == "EncryptionError: "@ + e@,
    {
        match self {
            ECIESError::Generic(e) => "generic Error: ".to_owned().concat(e.as_str()),
            ECIESError::EncryptionError(e) => "EncryptionError: ".to_owned().concat(e.as_str()),
        }
    }
}

impl From<String> for ECIESError {
    fn from(e: String) -> (r: ECIESError) {
        ECIESError::Generic(e)
    }
}

impl vstd::std_specs::convert::FromSpecImpl<String> for ECIESError {
    open spec fn obeys_from_spec() -> bool {
        true
    }

    open spec fn from_spec(e: String) -> ECIESError {
        ECIESError::Generic(e)
    }
}

/// Relies on `ecies::utils::generate_keypair`, and on `SecretKey::serialize`
/// (32 bytes) and `PublicKey::serialize` (65 bytes, uncompressed): the pair
/// returned is a keypair, so the second component is the public key derived
/// from the first.
#[verifier::external_body]
pub fn generate_keypair() -> (r: (Vec<u8>, Vec<u8>))
    ensures
        r.1@ == pubkey_of(r.0@),
        r.0@.len() == 32,
        r.1@.len() == 65,
{
    let (sk, pk) = ecies::utils::generate_keypair();
    (sk.serialize().to_vec(), pk.serialize().to_vec())
}

/// Relies on `ecies::encrypt`: on success the ciphertext decrypts, under the
/// secret key matching `pk`, back to `msg` (the crate's documented
/// round-trip behaviour).
#[verifier::external_body]
fn ecies_encrypt(pk: &Vec<u8>, msg: &Vec<u8>) -> (r: Option<Vec<u8>>)
    ensures
        r matches Some(ct) ==> forall|sk: Seq<u8>|
            pubkey_of(sk) == pk@ ==> decrypted_of(sk, ct@) == Some(msg@),
{
    ecies::encrypt(pk.as_slice(), msg.as_slice()).ok()
}

/// Relies on `ecies::decrypt`: it returns the plaintext exactly when key and
/// ciphertext authenticate, and is deterministic in both arguments.
#[verifier::external_body]
fn ecies_decrypt(sk: &Vec<u8>, ct: &Vec<u8>) -> (r: Option<Vec<u8>>)
    ensures
        r matches Some(m) ==> decrypted_of(sk@, ct@) == Some(m@),
        r is None ==> decrypted_of(sk@, ct@) is None,
{
    ecies::decrypt(sk.as_slice(), ct.as_slice()).ok()
}

/// Encrypt a message to the holder of the secret key behind
/// `recipient_pubkey`.  On success, decryption under that secret key yields
/// the message again.
pub fn encrypt(message: &Vec<u8>, recipient_pubkey: &Vec<u8>) -> (r: Result<Vec<u8>, SeError>)
    ensures
        r matches Ok(ct) ==> forall|sk: Seq<u8>|
            pubkey_of(sk) == recipient_pubkey@ ==> decrypted_of(sk, ct@) == Some(message@),
        r matches Err(e) ==> e is CryptoError,
{
    match ecies_encrypt(recipient_pubkey, message) {
        Some(ct) => Ok(ct),
        None => Err(SeError::CryptoError),
    }
}

/// Decrypt a ciphertext with a secret key.  Succeeds exactly when the
/// ciphertext authenticates under the key; a tampered ciphertext or a wrong
/// key fails closed with `CryptoError`, never yielding wrong plaintext.
pub fn decrypt(ciphertext: &Vec<u8>, recipient_privkey: &Vec<u8>) -> (r: Result<Vec<u8>, SeError>)
    ensures
        r matches Ok(m) ==> decrypted_of(recipient_privkey@, ciphertext@) == Some(m@),
        r matches Err(e) ==> e is CryptoError,
        r is Ok <==> decrypted_of(recipient_privkey@, ciphertext@) is Some,
{
    match ecies_decrypt(recipient_privkey, ciphertext) {
        Some(m) => Ok(m),
        None => Err(SeError::CryptoError),
    }
}

/// Law: the channel round-trips.  A ciphertext produced by `encrypt` under
/// a public key decrypts, under the matching secret key, to the encrypted
/// message.
pub proof fn lemma_channel_round_trip(sk: Seq<u8>, pk: Seq<u8>, m: Seq<u8>, ct: Seq<u8>)
    requires
        pk == pubkey_of(sk),
        forall|sk2: Seq<u8>| pubkey_of(sk2) == pk ==> decrypted_of(sk2, ct) == Some(m),
    ensures
        decrypted_of(sk, ct) == Some(m),
{
}

} // verus!
