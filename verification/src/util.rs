//! Utility functions of the client: keys, JSON Web Keys and Signatures, and
//! what a response carries beside its body.

use crate::crypto::{
    acceptable_numbers, exponent_in, modulus_in, public_pem_in, KeyPair, RsaKey, KEY_WIDTH,
};
use crate::error::Error;
use crate::jose::{jwk_of, signed, signing_input_text, Jwk, Jws, Payload, ProtectedHeader};
use vstd::prelude::*;

verus! {

/// An anti-replay nonce, as the server hands it out.
pub type Nonce = String;

/// A certificate chain in PEM, leaf first.
pub type Certificate = String;

/// Generates an RSA private key of `KEY_WIDTH` bits, as the account key of
/// one run. Which key it is, chance decides, and whether OpenSSL makes one
/// is for OpenSSL to say; where it does, the key has the public exponent
/// 65537 and the numbers of its document.
pub fn generate_rsa_key() -> (out: Result<RsaKey, Error>)
    ensures
        match out {
            Ok(key) => {
                &&& modulus_in(key@.pem) == Some(key@.n)
                &&& exponent_in(key@.pem) == Some(key@.e)
                &&& key@.n.len() * 8 == KEY_WIDTH
                &&& key@.e == seq![1u8, 0u8, 1u8]
                &&& acceptable_numbers(key@.n, key@.e)
            },
            Err(error) => error is FromRsaError,
        },
{
    RsaKey::generate()
}

/// Generates an RSA key pair, as the subject key of a certificate: a key as
/// `generate_rsa_key` makes it, and the public document that belongs to it.
/// Whether OpenSSL makes a key is for OpenSSL to say; once the key is
/// there, the pair is the one that `KeyPair::of_private` gives for it.
pub fn generate_rsa_keypair() -> (out: Result<KeyPair, Error>)
    ensures
        match out {
            Ok(pair) => {
                &&& public_pem_in(pair@.private.pem) == Some(pair@.public_pem)
                &&& modulus_in(pair@.private.pem) == Some(pair@.private.n)
                &&& exponent_in(pair@.private.pem) == Some(pair@.private.e)
                &&& pair@.private.n.len() * 8 == KEY_WIDTH
                &&& pair@.private.e == seq![1u8, 0u8, 1u8]
            },
            Err(error) => error is FromRsaError,
        },
{
    match generate_rsa_key() {
        Ok(private) => KeyPair::of_private(private),
        Err(error) => Err(error),
    }
}

/// Builds the JSON Web Key of an RSA private key: its public exponent and
/// modulus, big-endian without leading zero bytes.
pub fn jwk(private_key: &RsaKey) -> (out: Result<Jwk, Error>)
    ensures
        out matches Ok(key) && key@ == jwk_of(private_key@),
        acceptable_numbers(private_key@.n, private_key@.e),
{
    Ok(Jwk { e: private_key.exponent().clone(), n: private_key.modulus().clone() })
}

/// Constructs a JSON Web Signature in the flattened form for a payload and a
/// protected header, signed with RS256: the signature of the signing input
/// under the key. Where the key gives no signature, the result is
/// `FromRsaError`.
pub fn jws(payload: Payload, header: ProtectedHeader, private_key: &RsaKey) -> (out: Result<
    Jws,
    Error,
>)
    ensures
        match out {
            Ok(signature) => signed(header@, payload@, private_key@.pem) == Some(signature@),
            Err(error) => error is FromRsaError && signed(header@, payload@, private_key@.pem)
                is None,
        },
{
    let input = signing_input_text(&header, &payload);
    match private_key.sign(input.as_str().as_bytes()) {
        Ok(signature) => Ok(Jws::assemble(&header, &payload, signature.as_slice())),
        Err(error) => Err(error),
    }
}

/// What the client reads of an HTTP response: the status code, the headers
/// that matter to it, the body, and the whole seconds that the request took.
#[derive(Debug)]
pub struct Response<T> {
    pub status: u16,
    pub replay_nonce: Option<String>,
    pub location: Option<String>,
    pub retry_after: Option<u64>,
    pub body: T,
    pub elapsed: u64,
}

/// Extracts the payload and the `Replay-Nonce` header field from a response.
/// A response without the header is an `IncorrectResponse`.
pub fn extract_payload_and_nonce<T>(response: Response<T>) -> (out: Result<(Nonce, T), Error>)
    ensures
        match response.replay_nonce {
            Some(nonce) => out == Ok::<(Nonce, T), Error>((nonce, response.body)),
            None => out == Err::<(Nonce, T), Error>(Error::IncorrectResponse),
        },
{
    match response.replay_nonce {
        Some(nonce) => Ok((nonce, response.body)),
        None => Err(Error::IncorrectResponse),
    }
}

/// Extracts the `Location` and `Replay-Nonce` header fields as well as the
/// payload from a response. A response without either header is an
/// `IncorrectResponse`.
pub fn extract_payload_location_and_nonce<T>(response: Response<T>) -> (out: Result<
    (String, Nonce, T),
    Error,
>)
    ensures
        match (response.replay_nonce, response.location) {
            (Some(nonce), Some(location)) => out == Ok::<(String, Nonce, T), Error>(
                (location, nonce, response.body),
            ),
            _ => out == Err::<(String, Nonce, T), Error>(Error::IncorrectResponse),
        },
{
    match (response.replay_nonce, response.location) {
        (Some(nonce), Some(location)) => Ok((location, nonce, response.body)),
        _ => Err(Error::IncorrectResponse),
    }
}

} // verus!
