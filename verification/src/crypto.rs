//! RSA keys, SHA-256 and RS256 signatures. The cryptography itself is
//! OpenSSL's: this module names what it computes and keeps the keys as PEM
//! bytes beside their public numbers.

use crate::error::Error;
use openssl::error::ErrorStack;
use openssl::hash::MessageDigest;
use openssl::nid::Nid;
use openssl::pkey::PKey;
use openssl::rsa::{Padding, Rsa};
use openssl::sign::Signer;
use openssl::x509::{X509NameBuilder, X509Req, X509ReqBuilder};
use vstd::prelude::*;
use vstd::utf8::encode_utf8;

verus! {

/// The width in bits of the keys that the client generates.
pub const KEY_WIDTH: u32 = 2048;

/// The most bytes that OpenSSL takes in one document or one name.
pub const MAX_INPUT: usize = 0x7fff_ffff;

/// The failure that OpenSSL reports.
#[verifier::external_type_specification]
#[verifier::external_body]
pub struct ExErrorStack(ErrorStack);

/// The SHA-256 digest of a byte string.
pub uninterp spec fn sha256_digest(data: Seq<u8>) -> Seq<u8>;

/// The RSASSA-PKCS1-v1_5 signature with SHA-256 that the RSA private key in
/// a PEM document gives to a message, or nothing where the document holds no
/// RSA private key that can sign.
pub uninterp spec fn rs256_signature(private_pem: Seq<u8>, message: Seq<u8>) -> Option<Seq<u8>>;

/// The modulus of the RSA private key in a PEM document, big-endian, or
/// nothing where the document holds no such key.
pub uninterp spec fn rsa_modulus(private_pem: Seq<u8>) -> Option<Seq<u8>>;

/// The public exponent of the RSA private key in a PEM document,
/// big-endian, or nothing where the document holds no such key.
pub uninterp spec fn rsa_exponent(private_pem: Seq<u8>) -> Option<Seq<u8>>;

/// The PEM document of the public half of the RSA private key in a PEM
/// document, or nothing where the document holds no such key.
pub uninterp spec fn rsa_public_pem(private_pem: Seq<u8>) -> Option<Seq<u8>>;

/// The DER encoding of the PKCS#10 request that names one common name,
/// carries the RSA public key of one document and is signed with SHA-256 by
/// the RSA private key of another, or nothing where OpenSSL builds none of
/// them.
pub uninterp spec fn csr_der(
    private_pem: Seq<u8>,
    public_pem: Seq<u8>,
    common_name: Seq<char>,
) -> Option<Seq<u8>>;

/// The modulus of the RSA public key that a PKCS#10 request carries,
/// big-endian, or nothing where the bytes hold no such request in DER.
pub uninterp spec fn csr_key_modulus(der: Seq<u8>) -> Option<Seq<u8>>;

/// The public exponent of the RSA public key that a PKCS#10 request
/// carries, big-endian, or nothing where the bytes hold no such request in
/// DER.
pub uninterp spec fn csr_key_exponent(der: Seq<u8>) -> Option<Seq<u8>>;

/// Whether a number, written big-endian, is without leading zero bytes.
pub open spec fn is_minimal(number: Seq<u8>) -> bool {
    number.len() == 0 || number[0] != 0
}

/// The word that marks a PEM document as encrypted, in its label or in its
/// header.
pub open spec fn encrypted_mark() -> Seq<u8> {
    seq![69u8, 78u8, 67u8, 82u8, 89u8, 80u8, 84u8, 69u8, 68u8]
}

/// Whether a document holds the word that marks it as encrypted.
pub open spec fn mentions_encryption(document: Seq<u8>) -> bool {
    exists|i: int|
        0 <= i && i + 9 <= document.len() && #[trigger] document.subrange(i, i + 9)
            == encrypted_mark()
}

/// Calls `openssl::sha::sha256`, which hands back the 32 bytes of the
/// SHA-256 digest of its input.
#[verifier::external_body]
fn openssl_sha256(data: &[u8]) -> (digest: Vec<u8>)
    ensures
        digest@ == sha256_digest(data@),
        digest@.len() == 32,
{
    openssl::sha::sha256(data).to_vec()
}

/// Calls `openssl::rsa::Rsa::generate` and `private_key_to_pem`. The key is
/// drawn at random, so nothing is claimed of which document comes back. The
/// crate documents that the key has the size asked for and the public
/// exponent 65537: where a document comes back, the key in it has a modulus
/// of that many bits and that exponent.
#[verifier::external_body]
fn openssl_generate_pem(bits: u32) -> (out: Result<Vec<u8>, ErrorStack>)
    requires
        bits >= 8,
        bits % 8 == 0,
    ensures
        out matches Ok(pem) ==> {
            &&& rsa_exponent(pem@) == Some(seq![1u8, 0u8, 1u8])
            &&& rsa_modulus(pem@) matches Some(n)
            &&& n.len() * 8 == bits
            &&& n[0] >= 128
        },
{
    Rsa::generate(bits)?.private_key_to_pem()
}

/// Calls `openssl::rsa::Rsa::private_key_from_pem_passphrase` with an empty
/// pass phrase, so that OpenSSL never asks for one, and `n`. Whether the
/// document holds an RSA private key is a matter of the document alone:
/// where it does, the result is the modulus of the key, which
/// `BigNumRef::to_vec` writes without leading zeros; where it does not, the
/// call fails. The crate panics on a document of more than `MAX_INPUT`
/// bytes.
#[verifier::external_body]
fn openssl_modulus(private_pem: &[u8]) -> (out: Result<Vec<u8>, ErrorStack>)
    requires
        private_pem@.len() <= MAX_INPUT,
    ensures
        match out {
            Ok(n) => rsa_modulus(private_pem@) == Some(n@) && is_minimal(n@),
            Err(_) => rsa_modulus(private_pem@) is None,
        },
{
    Ok(Rsa::private_key_from_pem_passphrase(private_pem, b"")?.n().to_vec())
}

/// Calls `openssl::rsa::Rsa::private_key_from_pem_passphrase` with an empty
/// pass phrase and `e`. Where the document holds an RSA private key, the
/// result is the public exponent of the key, which `BigNumRef::to_vec`
/// writes without leading zeros; where it does not, the call fails. The
/// crate panics on a document of more than `MAX_INPUT` bytes.
#[verifier::external_body]
fn openssl_exponent(private_pem: &[u8]) -> (out: Result<Vec<u8>, ErrorStack>)
    requires
        private_pem@.len() <= MAX_INPUT,
    ensures
        match out {
            Ok(e) => rsa_exponent(private_pem@) == Some(e@) && is_minimal(e@),
            Err(_) => rsa_exponent(private_pem@) is None,
        },
{
    Ok(Rsa::private_key_from_pem_passphrase(private_pem, b"")?.e().to_vec())
}

/// Calls `openssl::rsa::Rsa::private_key_from_pem_passphrase` with an empty
/// pass phrase and `public_key_to_pem`. Where the document holds an RSA
/// private key, the result is the PEM document of the public half of the
/// key; where it does not, the call fails. The crate panics on a document of
/// more than `MAX_INPUT` bytes.
#[verifier::external_body]
fn openssl_public_pem(private_pem: &[u8]) -> (out: Result<Vec<u8>, ErrorStack>)
    requires
        private_pem@.len() <= MAX_INPUT,
    ensures
        match out {
            Ok(pem) => rsa_public_pem(private_pem@) == Some(pem@),
            Err(_) => rsa_public_pem(private_pem@) is None,
        },
{
    Rsa::private_key_from_pem_passphrase(private_pem, b"")?.public_key_to_pem()
}

/// Calls `openssl::sign::Signer` with SHA-256 and PKCS#1 v1.5 padding on the
/// RSA key that `Rsa::private_key_from_pem_passphrase` reads with an empty
/// pass phrase. Only an RSA key signs, and that signature scheme is
/// deterministic: whether the call succeeds and what it returns are a matter
/// of the document and the message alone. The crate panics on a document of
/// more than `MAX_INPUT` bytes.
#[verifier::external_body]
fn openssl_sign_rs256(private_pem: &[u8], message: &[u8]) -> (out: Result<Vec<u8>, ErrorStack>)
    requires
        private_pem@.len() <= MAX_INPUT,
    ensures
        match out {
            Ok(signature) => rs256_signature(private_pem@, message@) == Some(signature@),
            Err(_) => rs256_signature(private_pem@, message@) is None,
        },
{
    let key = PKey::from_rsa(Rsa::private_key_from_pem_passphrase(private_pem, b"")?)?;
    let mut signer = Signer::new(MessageDigest::sha256(), &key)?;
    signer.set_rsa_padding(Padding::PKCS1)?;
    signer.update(message)?;
    signer.sign_to_vec()
}

/// Calls `openssl::x509::X509ReqBuilder`: a request whose subject is the one
/// common name, with the RSA public key that `Rsa::public_key_from_pem`
/// reads, signed with SHA-256 by the RSA private key that
/// `Rsa::private_key_from_pem_passphrase` reads with an empty pass phrase,
/// and written by `X509Req::to_der`. Only RSA keys are read, and an RSA key
/// signs with PKCS#1 v1.5, so every step is deterministic: whether the call
/// succeeds and what it returns are a matter of the two documents and the
/// name alone. The crate panics on a document or a name of more than
/// `MAX_INPUT` bytes, and OpenSSL asks its terminal for a pass phrase where
/// the public document is marked as encrypted.
#[verifier::external_body]
fn openssl_csr_der(private_pem: &[u8], public_pem: &[u8], common_name: &str) -> (out: Result<
    Vec<u8>,
    ErrorStack,
>)
    requires
        private_pem@.len() <= MAX_INPUT,
        public_pem@.len() <= MAX_INPUT,
        !mentions_encryption(public_pem@),
        encode_utf8(common_name@).len() <= MAX_INPUT,
    ensures
        match out {
            Ok(der) => csr_der(private_pem@, public_pem@, common_name@) == Some(der@),
            Err(_) => csr_der(private_pem@, public_pem@, common_name@) is None,
        },
{
    let private_key = PKey::from_rsa(Rsa::private_key_from_pem_passphrase(private_pem, b"")?)?;
    let public_key = PKey::from_rsa(Rsa::public_key_from_pem(public_pem)?)?;
    let mut request = X509ReqBuilder::new()?;
    let mut name = X509NameBuilder::new()?;
    name.append_entry_by_nid(Nid::COMMONNAME, common_name)?;
    request.set_pubkey(&public_key)?;
    request.set_subject_name(&name.build())?;
    request.sign(&private_key, MessageDigest::sha256())?;
    request.build().to_der()
}

/// Calls `openssl::x509::X509Req::from_der`, `public_key`, `PKeyRef::rsa`
/// and `n`. Whether the bytes hold a request with an RSA key is a matter of
/// the bytes alone: where they do, the result is the modulus of that key;
/// where they do not, the call fails.
#[verifier::external_body]
fn openssl_csr_modulus(der: &[u8]) -> (out: Result<Vec<u8>, ErrorStack>)
    ensures
        match out {
            Ok(n) => csr_key_modulus(der@) == Some(n@),
            Err(_) => csr_key_modulus(der@) is None,
        },
{
    Ok(X509Req::from_der(der)?.public_key()?.rsa()?.n().to_vec())
}

/// Calls `openssl::x509::X509Req::from_der`, `public_key`, `PKeyRef::rsa`
/// and `e`. Where the bytes hold a request with an RSA key, the result is
/// the public exponent of that key; where they do not, the call fails.
#[verifier::external_body]
fn openssl_csr_exponent(der: &[u8]) -> (out: Result<Vec<u8>, ErrorStack>)
    ensures
        match out {
            Ok(e) => csr_key_exponent(der@) == Some(e@),
            Err(_) => csr_key_exponent(der@) is None,
        },
{
    Ok(X509Req::from_der(der)?.public_key()?.rsa()?.e().to_vec())
}

/// Writes out what OpenSSL says of a failure, through its `Display`.
#[verifier::external_body]
fn error_stack_text(failure: &ErrorStack) -> (text: String) {
    failure.to_string()
}

/// The library's error for a failure of OpenSSL.
fn crypto_error(failure: ErrorStack) -> (error: Error)
    ensures
        error is FromRsaError,
{
    Error::FromRsaError(error_stack_text(&failure))
}

/// The library's error for what it does not hand to OpenSSL.
fn refused() -> (error: Error)
    ensures
        error is FromRsaError,
{
    Error::FromRsaError(String::from_str("more bytes than OpenSSL takes, or an encrypted document"))
}

/// The SHA-256 digest of a byte string.
pub fn sha256(data: &[u8]) -> (digest: Vec<u8>)
    ensures
        digest@ == sha256_digest(data@),
        digest@.len() == 32,
{
    openssl_sha256(data)
}

/// Whether two byte strings are the same.
pub fn same_bytes(a: &Vec<u8>, b: &Vec<u8>) -> (same: bool)
    ensures
        same == (a@ == b@),
{
    if a.len() != b.len() {
        return false;
    }
    let mut i: usize = 0;
    while i < a.len()
        invariant
            a.len() == b.len(),
            i <= a.len(),
            forall|k: int| 0 <= k < i ==> a@[k] == b@[k],
        decreases a.len() - i,
    {
        if a[i] != b[i] {
            return false;
        }
        i = i + 1;
    }
    assert(a@ =~= b@);
    true
}

/// Whether a document holds the word that marks it as encrypted.
pub fn is_marked_encrypted(document: &[u8]) -> (marked: bool)
    ensures
        marked == mentions_encryption(document@),
{
    let n = document.len();
    if n < 9 {
        return false;
    }
    let mut i: usize = 0;
    while i <= n - 9
        invariant
            n == document@.len(),
            n >= 9,
            i <= n - 9 + 1,
            forall|k: int| 0 <= k < i ==> #[trigger] document@.subrange(k, k + 9) != encrypted_mark(),
        decreases n - i,
    {
        let ghost window = document@.subrange(i as int, i + 9);
        if document[i] == 69 && document[i + 1] == 78 && document[i + 2] == 67 && document[i + 3]
            == 82 && document[i + 4] == 89 && document[i + 5] == 80 && document[i + 6] == 84
            && document[i + 7] == 69 && document[i + 8] == 68 {
            assert(window =~= encrypted_mark());
            return true;
        }
        assert(window != encrypted_mark()) by {
            if window == encrypted_mark() {
                assert(window[0] == 69 && window[1] == 78 && window[2] == 67 && window[3] == 82
                    && window[4] == 89 && window[5] == 80 && window[6] == 84 && window[7] == 69
                    && window[8] == 68);
            }
        }
        i = i + 1;
    }
    false
}

/// Whether a modulus has 2048 bits or more: it is without leading zero
/// bytes, and longer than 256 bytes or 256 bytes with the highest bit set.
pub open spec fn at_least_2048_bits(modulus: Seq<u8>) -> bool {
    is_minimal(modulus) && (modulus.len() > 256 || (modulus.len() == 256 && modulus[0] >= 128))
}

/// Whether a modulus and a public exponent can be those of a key of the
/// client: the modulus has 2048 bits or more, and the exponent is not zero
/// and without leading zero bytes.
pub open spec fn acceptable_numbers(n: Seq<u8>, e: Seq<u8>) -> bool {
    at_least_2048_bits(n) && e.len() > 0 && is_minimal(e)
}

/// The modulus that OpenSSL finds in a document that the library hands to
/// it: nothing for a document of more than `MAX_INPUT` bytes.
pub open spec fn modulus_in(private_pem: Seq<u8>) -> Option<Seq<u8>> {
    if private_pem.len() <= MAX_INPUT {
        rsa_modulus(private_pem)
    } else {
        None
    }
}

/// The public exponent that OpenSSL finds in a document that the library
/// hands to it: nothing for a document of more than `MAX_INPUT` bytes.
pub open spec fn exponent_in(private_pem: Seq<u8>) -> Option<Seq<u8>> {
    if private_pem.len() <= MAX_INPUT {
        rsa_exponent(private_pem)
    } else {
        None
    }
}

/// The public document that OpenSSL writes for a private document that the
/// library hands to it: nothing for a document of more than `MAX_INPUT`
/// bytes.
pub open spec fn public_pem_in(private_pem: Seq<u8>) -> Option<Seq<u8>> {
    if private_pem.len() <= MAX_INPUT {
        rsa_public_pem(private_pem)
    } else {
        None
    }
}

/// The RS256 signature of a message under the key of a document that the
/// library hands to OpenSSL: nothing for a document of more than
/// `MAX_INPUT` bytes.
pub open spec fn signature_by(private_pem: Seq<u8>, message: Seq<u8>) -> Option<Seq<u8>> {
    if private_pem.len() <= MAX_INPUT {
        rs256_signature(private_pem, message)
    } else {
        None
    }
}

/// The certificate signing request for a common name under two documents
/// that the library hands to OpenSSL: nothing for a document or a name of
/// more than `MAX_INPUT` bytes, or for a public document that is marked as
/// encrypted.
pub open spec fn csr_by(private_pem: Seq<u8>, public_pem: Seq<u8>, common_name: Seq<char>) -> Option<
    Seq<u8>,
> {
    if private_pem.len() <= MAX_INPUT && public_pem.len() <= MAX_INPUT && encode_utf8(
        common_name,
    ).len() <= MAX_INPUT && !mentions_encryption(public_pem) {
        csr_der(private_pem, public_pem, common_name)
    } else {
        None
    }
}

/// Whether a certificate signing request, DER encoded, carries the public
/// key of a key: an RSA key with the same modulus and public exponent.
pub open spec fn carries_key(der: Seq<u8>, key: RsaKeyView) -> bool {
    csr_key_modulus(der) == Some(key.n) && csr_key_exponent(der) == Some(key.e)
}

/// What an RSA key holds: the PEM document of the private key, and the
/// modulus and public exponent as big-endian bytes.
pub struct RsaKeyView {
    pub pem: Seq<u8>,
    pub n: Seq<u8>,
    pub e: Seq<u8>,
}

/// An RSA private key of 2048 bits or more, with its public numbers, which
/// are written without leading zero bytes.
pub struct RsaKey {
    pem: Vec<u8>,
    n: Vec<u8>,
    e: Vec<u8>,
}

impl View for RsaKey {
    type V = RsaKeyView;

    closed spec fn view(&self) -> RsaKeyView {
        RsaKeyView { pem: self.pem@, n: self.n@, e: self.e@ }
    }
}

impl RsaKey {
    #[verifier::type_invariant]
    spec fn acceptable(self) -> bool {
        acceptable_numbers(self.n@, self.e@)
    }

    /// Makes a key of a PEM document and the public numbers that belong to
    /// it. A modulus of fewer than 2048 bits, an exponent of zero, and a
    /// number with a leading zero byte are refused with `BadPublicKey`.
    pub fn from_parts(pem: Vec<u8>, n: Vec<u8>, e: Vec<u8>) -> (out: Result<RsaKey, Error>)
        ensures
            match out {
                Ok(key) => acceptable_numbers(n@, e@) && key@ == (RsaKeyView {
                    pem: pem@,
                    n: n@,
                    e: e@,
                }),
                Err(error) => !acceptable_numbers(n@, e@) && error == Error::BadPublicKey,
            },
    {
        if n.len() >= 256 && n[0] != 0 && (n.len() > 256 || n[0] >= 128) && e.len() > 0 && e[0]
            != 0 {
            Ok(RsaKey { pem, n, e })
        } else {
            Err(Error::BadPublicKey)
        }
    }

    /// Reads a key from the PEM document of an RSA private key. The public
    /// numbers are those that OpenSSL finds in the document. A document of
    /// more than `MAX_INPUT` bytes, and one in which OpenSSL finds no RSA
    /// private key, give `FromRsaError`; a key whose numbers `from_parts`
    /// refuses gives `BadPublicKey`.
    pub fn from_pem(pem: Vec<u8>) -> (out: Result<RsaKey, Error>)
        ensures
            match (modulus_in(pem@), exponent_in(pem@)) {
                (Some(n), Some(e)) => if acceptable_numbers(n, e) {
                    out matches Ok(key) && key@ == (RsaKeyView { pem: pem@, n, e })
                } else {
                    out matches Err(error) && error == Error::BadPublicKey
                },
                _ => out matches Err(error) && error is FromRsaError,
            },
    {
        if pem.len() > MAX_INPUT {
            return Err(refused());
        }
        let n = match openssl_modulus(pem.as_slice()) {
            Ok(n) => n,
            Err(failure) => {
                return Err(crypto_error(failure));
            },
        };
        let e = match openssl_exponent(pem.as_slice()) {
            Ok(e) => e,
            Err(failure) => {
                return Err(crypto_error(failure));
            },
        };
        RsaKey::from_parts(pem, n, e)
    }

    /// Generates a key of `KEY_WIDTH` bits. Which key it is, chance decides,
    /// and whether OpenSSL makes one is for OpenSSL to say. Where it does,
    /// the key is the one that `from_pem` reads from the document that came
    /// back, with the public exponent 65537 and a modulus of `KEY_WIDTH`
    /// bits.
    pub fn generate() -> (out: Result<RsaKey, Error>)
        ensures
            match out {
                Ok(key) => {
                    &&& modulus_in(key@.pem) == Some(key@.n)
                    &&& exponent_in(key@.pem) == Some(key@.e)
                    &&& key@.n.len() * 8 == KEY_WIDTH
                    &&& key@.e == seq![1u8, 0u8, 1u8]
                    &&& acceptable_numbers(key@.n, key@.e)
                },
                Err(error) => error is FromRsaError,
            },
    {
        match openssl_generate_pem(KEY_WIDTH) {
            Ok(pem) => RsaKey::from_pem(pem),
            Err(failure) => Err(crypto_error(failure)),
        }
    }

    /// The PEM document of the private key.
    pub fn private_pem(&self) -> (pem: &Vec<u8>)
        ensures
            pem@ == self@.pem,
    {
        &self.pem
    }

    /// The modulus: big-endian, without leading zero bytes, 2048 bits or
    /// more.
    pub fn modulus(&self) -> (n: &Vec<u8>)
        ensures
            n@ == self@.n,
            at_least_2048_bits(n@),
    {
        proof {
            use_type_invariant(self);
        }
        &self.n
    }

    /// The public exponent: big-endian, without leading zero bytes, not
    /// zero.
    pub fn exponent(&self) -> (e: &Vec<u8>)
        ensures
            e@ == self@.e,
            e@.len() > 0,
            is_minimal(e@),
    {
        proof {
            use_type_invariant(self);
        }
        &self.e
    }

    /// Whether a certificate signing request, DER encoded, carries the
    /// public key of this key.
    pub fn is_key_of(&self, csr: &[u8]) -> (is: bool)
        ensures
            is == carries_key(csr@, self@),
    {
        match (openssl_csr_modulus(csr), openssl_csr_exponent(csr)) {
            (Ok(n), Ok(e)) => same_bytes(&n, &self.n) && same_bytes(&e, &self.e),
            _ => false,
        }
    }

    /// Signs a message with RS256. The signature is the one that the key in
    /// the document gives to the message; where the document is longer than
    /// `MAX_INPUT` or OpenSSL finds no RSA key in it that signs, the result
    /// is `FromRsaError`.
    pub fn sign(&self, message: &[u8]) -> (out: Result<Vec<u8>, Error>)
        ensures
            match out {
                Ok(signature) => signature_by(self@.pem, message@) == Some(signature@),
                Err(error) => error is FromRsaError && signature_by(self@.pem, message@) is None,
            },
    {
        if self.pem.len() > MAX_INPUT {
            return Err(refused());
        }
        match openssl_sign_rs256(self.pem.as_slice(), message) {
            Ok(signature) => Ok(signature),
            Err(failure) => Err(crypto_error(failure)),
        }
    }
}

/// What a subject key pair holds.
pub struct KeyPairView {
    pub private: RsaKeyView,
    pub public_pem: Seq<u8>,
}

/// The key pair that a certificate is issued for: the private key, and the
/// PEM document of the public key.
pub struct KeyPair {
    private: RsaKey,
    public_pem: Vec<u8>,
}

impl View for KeyPair {
    type V = KeyPairView;

    closed spec fn view(&self) -> KeyPairView {
        KeyPairView { private: self.private@, public_pem: self.public_pem@ }
    }
}

impl KeyPair {
    /// Makes a key pair of a private key and the PEM document of a public
    /// key.
    pub fn new(private: RsaKey, public_pem: Vec<u8>) -> (pair: KeyPair)
        ensures
            pair@ == (KeyPairView { private: private@, public_pem: public_pem@ }),
    {
        KeyPair { private, public_pem }
    }

    /// Makes the key pair of a private key: the public document is the one
    /// that OpenSSL writes for the key. Where the private document is longer
    /// than `MAX_INPUT` or OpenSSL finds no RSA key in it, the result is
    /// `FromRsaError`.
    pub fn of_private(private: RsaKey) -> (out: Result<KeyPair, Error>)
        ensures
            match out {
                Ok(pair) => public_pem_in(private@.pem) == Some(pair@.public_pem) && pair@.private
                    == private@,
                Err(error) => error is FromRsaError && public_pem_in(private@.pem) is None,
            },
    {
        if private.private_pem().len() > MAX_INPUT {
            return Err(refused());
        }
        match openssl_public_pem(private.private_pem().as_slice()) {
            Ok(public_pem) => Ok(KeyPair::new(private, public_pem)),
            Err(failure) => Err(crypto_error(failure)),
        }
    }

    /// The private key.
    pub fn private(&self) -> (key: &RsaKey)
        ensures
            key@ == self@.private,
    {
        &self.private
    }

    /// The PEM document of the public key.
    pub fn public_pem(&self) -> (pem: &Vec<u8>)
        ensures
            pem@ == self@.public_pem,
    {
        &self.public_pem
    }

    /// Builds the certificate signing request for one DNS name, DER encoded:
    /// the subject is the common name, the key is the public key, and the
    /// private key signs it. Where a document or the name is longer than
    /// `MAX_INPUT`, the public document is marked as encrypted, or OpenSSL
    /// builds no request of them, the result is `FromRsaError`.
    pub fn csr(&self, common_name: &str) -> (out: Result<Vec<u8>, Error>)
        ensures
            match out {
                Ok(der) => csr_by(self@.private.pem, self@.public_pem, common_name@) == Some(der@),
                Err(error) => error is FromRsaError && csr_by(
                    self@.private.pem,
                    self@.public_pem,
                    common_name@,
                ) is None,
            },
    {
        if self.private.private_pem().len() > MAX_INPUT || self.public_pem.len() > MAX_INPUT
            || common_name.as_bytes().len() > MAX_INPUT || is_marked_encrypted(
            self.public_pem.as_slice(),
        ) {
            return Err(refused());
        }
        match openssl_csr_der(
            self.private.private_pem().as_slice(),
            self.public_pem.as_slice(),
            common_name,
        ) {
            Ok(der) => Ok(der),
            Err(failure) => Err(crypto_error(failure)),
        }
    }
}

} // verus!
