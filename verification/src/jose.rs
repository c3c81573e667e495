//! The JOSE layer: JSON Web Keys, their thumbprints, protected headers and
//! flattened JSON Web Signatures with RS256.

use crate::base64url::{b64, base64url, is_whitespace, lemma_base64url_has_no_padding};
use crate::crypto::{signature_by, sha256, sha256_digest, RsaKey, RsaKeyView};
use crate::error::Error;
use crate::json::{
    json_string, json_string_text, lemma_base64url_is_plain, lemma_plain_text_is_quoted,
};
use vstd::prelude::*;
use vstd::utf8::encode_utf8;

verus! {

/// The public numbers of an RSA key, big-endian without leading zeros.
pub struct JwkView {
    pub e: Seq<u8>,
    pub n: Seq<u8>,
}

/// A JSON Web Key for an RSA public key.
#[derive(Debug)]
pub struct Jwk {
    pub e: Vec<u8>,
    pub n: Vec<u8>,
}

impl View for Jwk {
    type V = JwkView;

    open spec fn view(&self) -> JwkView {
        JwkView { e: self.e@, n: self.n@ }
    }
}

/// The JSON Web Key of a key: its public numbers.
pub open spec fn jwk_of(key: RsaKeyView) -> JwkView {
    JwkView { e: key.e, n: key.n }
}

/// The JSON text of a key as a request carries it.
pub open spec fn jwk_json(jwk: JwkView) -> Seq<char> {
    "{\"kty\":\"RSA\",\"e\":\""@ + base64url(jwk.e) + "\",\"n\":\""@ + base64url(jwk.n) + "\"}"@
}

/// The canonical JSON text of a key: the members `e`, `kty`, `n` in that
/// order, with no whitespace.
pub open spec fn canonical_jwk_json(jwk: JwkView) -> Seq<char> {
    "{\"e\":\""@ + base64url(jwk.e) + "\",\"kty\":\"RSA\",\"n\":\""@ + base64url(jwk.n) + "\"}"@
}

/// The thumbprint of a key: the base64url text of the SHA-256 digest of its
/// canonical JSON text.
pub open spec fn jwk_thumbprint(jwk: JwkView) -> Seq<char> {
    base64url(sha256_digest(encode_utf8(canonical_jwk_json(jwk))))
}

/// The key authorization of a challenge token under an account key.
pub open spec fn key_authorization_text(token: Seq<char>, jwk: JwkView) -> Seq<char> {
    token + "."@ + jwk_thumbprint(jwk)
}

/// The key authorization of a token is the token, a dot, and the base64url
/// text of the SHA-256 digest of the canonical JSON text of the account key:
/// the members `e`, `kty` and `n` in that order.
pub proof fn lemma_key_authorization(token: Seq<char>, jwk: JwkView)
    ensures
        key_authorization_text(token, jwk) == token + "."@ + base64url(
            sha256_digest(
                encode_utf8(
                    "{\"e\":\""@ + base64url(jwk.e) + "\",\"kty\":\"RSA\",\"n\":\""@ + base64url(jwk.n)
                        + "\"}"@,
                ),
            ),
        ),
{
}

/// The canonical JSON text of a key holds no white space.
pub proof fn lemma_canonical_json_has_no_whitespace(jwk: JwkView)
    ensures
        forall|i: int|
            0 <= i < canonical_jwk_json(jwk).len() ==> !is_whitespace(
                #[trigger] canonical_jwk_json(jwk)[i],
            ),
{
    let e = base64url(jwk.e);
    let n = base64url(jwk.n);
    let a = "{\"e\":\""@;
    let b = "\",\"kty\":\"RSA\",\"n\":\""@;
    let c = "\"}"@;
    reveal_strlit("{\"e\":\"");
    reveal_strlit("\",\"kty\":\"RSA\",\"n\":\"");
    reveal_strlit("\"}");
    lemma_base64url_has_no_padding(jwk.e);
    lemma_base64url_has_no_padding(jwk.n);
    let text = canonical_jwk_json(jwk);
    assert(text == a + e + b + n + c);
    assert forall|i: int| 0 <= i < text.len() implies !is_whitespace(#[trigger] text[i]) by {
        if i < a.len() {
            assert(text[i] == a[i]);
        } else if i < a.len() + e.len() {
            assert(text[i] == e[i - a.len()]);
        } else if i < a.len() + e.len() + b.len() {
            assert(text[i] == b[i - a.len() - e.len()]);
        } else if i < a.len() + e.len() + b.len() + n.len() {
            assert(text[i] == n[i - a.len() - e.len() - b.len()]);
        } else {
            assert(text[i] == c[i - a.len() - e.len() - b.len() - n.len()]);
        }
    }
}

/// A base64url text between two quotes is the JSON string literal of the
/// text.
proof fn lemma_quoted_base64url(bytes: Seq<u8>)
    ensures
        json_string_text(base64url(bytes)) == seq!['"'] + base64url(bytes) + seq!['"'],
{
    lemma_base64url_is_plain(bytes);
    lemma_plain_text_is_quoted(base64url(bytes));
}

/// The JSON text of a key is well formed: the two numbers stand in it as
/// JSON string literals, which for base64url texts are the texts between
/// quotes.
pub proof fn lemma_jwk_json_is_well_quoted(jwk: JwkView)
    ensures
        jwk_json(jwk) == "{\"kty\":\"RSA\",\"e\":"@ + json_string_text(base64url(jwk.e))
            + ",\"n\":"@ + json_string_text(base64url(jwk.n)) + "}"@,
        canonical_jwk_json(jwk) == "{\"e\":"@ + json_string_text(base64url(jwk.e))
            + ",\"kty\":\"RSA\",\"n\":"@ + json_string_text(base64url(jwk.n)) + "}"@,
{
    lemma_quoted_base64url(jwk.e);
    lemma_quoted_base64url(jwk.n);
    reveal_strlit("{\"kty\":\"RSA\",\"e\":\"");
    reveal_strlit("{\"kty\":\"RSA\",\"e\":");
    reveal_strlit("\",\"n\":\"");
    reveal_strlit(",\"n\":");
    reveal_strlit("\"}");
    reveal_strlit("}");
    reveal_strlit("{\"e\":\"");
    reveal_strlit("{\"e\":");
    reveal_strlit("\",\"kty\":\"RSA\",\"n\":\"");
    reveal_strlit(",\"kty\":\"RSA\",\"n\":");
    let quote = seq!['"'];
    let e = base64url(jwk.e);
    let n = base64url(jwk.n);
    assert("{\"kty\":\"RSA\",\"e\":\""@ =~= "{\"kty\":\"RSA\",\"e\":"@ + quote);
    assert("\",\"n\":\""@ =~= quote + ",\"n\":"@ + quote);
    assert("\"}"@ =~= quote + "}"@);
    assert("{\"e\":\""@ =~= "{\"e\":"@ + quote);
    assert("\",\"kty\":\"RSA\",\"n\":\""@ =~= quote + ",\"kty\":\"RSA\",\"n\":"@ + quote);
    assert(jwk_json(jwk) =~= "{\"kty\":\"RSA\",\"e\":"@ + (quote + e + quote) + ",\"n\":"@ + (quote
        + n + quote) + "}"@);
    assert(canonical_jwk_json(jwk) =~= "{\"e\":"@ + (quote + e + quote)
        + ",\"kty\":\"RSA\",\"n\":"@ + (quote + n + quote) + "}"@);
}

/// The JSON text of a signature that was put together from a header, a
/// payload and signature bytes is well formed: its three members stand in it
/// as JSON string literals.
pub proof fn lemma_jws_json_is_well_quoted(
    header: ProtectedHeaderView,
    payload: PayloadView,
    signature: Seq<u8>,
)
    ensures
        ({
            let jws = assembled(header, payload, signature);
            jws_json(jws) == "{\"protected\":"@ + json_string_text(jws.protected)
                + ",\"payload\":"@ + json_string_text(jws.payload) + ",\"signature\":"@
                + json_string_text(jws.signature) + "}"@
        }),
{
    let jws = assembled(header, payload, signature);
    lemma_quoted_base64url(encode_utf8(protected_header_json(header)));
    lemma_quoted_base64url(signature);
    match payload {
        PayloadView::Json(text) => {
            lemma_quoted_base64url(encode_utf8(text));
        },
        PayloadView::Empty => {
            lemma_plain_text_is_quoted(Seq::<char>::empty());
        },
    }
    reveal_strlit("{\"protected\":\"");
    reveal_strlit("{\"protected\":");
    reveal_strlit("\",\"payload\":\"");
    reveal_strlit(",\"payload\":");
    reveal_strlit("\",\"signature\":\"");
    reveal_strlit(",\"signature\":");
    reveal_strlit("\"}");
    reveal_strlit("}");
    let quote = seq!['"'];
    assert("{\"protected\":\""@ =~= "{\"protected\":"@ + quote);
    assert("\",\"payload\":\""@ =~= quote + ",\"payload\":"@ + quote);
    assert("\",\"signature\":\""@ =~= quote + ",\"signature\":"@ + quote);
    assert("\"}"@ =~= quote + "}"@);
    assert(jws_json(jws) =~= "{\"protected\":"@ + (quote + jws.protected + quote)
        + ",\"payload\":"@ + (quote + jws.payload + quote) + ",\"signature\":"@ + (quote
        + jws.signature + quote) + "}"@);
}

/// The thumbprint of a key, and with it every key authorization, depends on
/// the public numbers of the key alone: two keys with the same modulus and
/// exponent have the same thumbprint, however the keys were written down.
pub proof fn lemma_thumbprint_is_stable(a: RsaKeyView, b: RsaKeyView, token: Seq<char>)
    requires
        a.n == b.n,
        a.e == b.e,
    ensures
        jwk_thumbprint(jwk_of(a)) == jwk_thumbprint(jwk_of(b)),
        key_authorization_text(token, jwk_of(a)) == key_authorization_text(token, jwk_of(b)),
{
}

/// The signature of a request is over its signing input: the three members
/// of a flattened signature are the base64url text of the header, the
/// payload member, and the base64url text of the RS256 signature of the
/// UTF-8 bytes of the first, a dot and the second.
pub proof fn lemma_signature_is_over_the_signing_input(
    header: ProtectedHeaderView,
    payload: PayloadView,
    private_pem: Seq<u8>,
)
    ensures
        signed(header, payload, private_pem) matches Some(jws) ==> {
            &&& jws.protected == base64url(encode_utf8(protected_header_json(header)))
            &&& jws.payload == match payload {
                PayloadView::Json(text) => base64url(encode_utf8(text)),
                PayloadView::Empty => Seq::empty(),
            }
            &&& signature_by(private_pem, encode_utf8(jws.protected + "."@ + jws.payload))
                matches Some(signature)
            &&& jws.signature == base64url(signature)
        },
{
}

/// The signing input of a POST-as-GET ends in the dot: the payload member
/// is empty, and the dot before it stays.
pub proof fn lemma_post_as_get_signing_input(header: ProtectedHeaderView)
    ensures
        payload_segment(PayloadView::Empty).len() == 0,
        signing_input(header, PayloadView::Empty) == protected_segment(header) + "."@,
        signing_input(header, PayloadView::Empty).last() == '.',
{
    reveal_strlit(".");
    assert(protected_segment(header) + "."@ + Seq::<char>::empty() =~= protected_segment(header)
        + "."@);
}

impl Jwk {
    /// The JSON text of the key, as the protected header of `newAccount`
    /// carries it.
    pub fn to_json(&self) -> (out: String)
        ensures
            out@ == jwk_json(self@),
    {
        let mut out = String::from_str("{\"kty\":\"RSA\",\"e\":\"");
        out.append(b64(self.e.as_slice()).as_str());
        out.append("\",\"n\":\"");
        out.append(b64(self.n.as_slice()).as_str());
        out.append("\"}");
        out
    }

    /// The canonical JSON text of the key.
    pub fn canonical_json(&self) -> (out: String)
        ensures
            out@ == canonical_jwk_json(self@),
    {
        let mut out = String::from_str("{\"e\":\"");
        out.append(b64(self.e.as_slice()).as_str());
        out.append("\",\"kty\":\"RSA\",\"n\":\"");
        out.append(b64(self.n.as_slice()).as_str());
        out.append("\"}");
        out
    }

    /// The thumbprint of the key.
    pub fn thumbprint(&self) -> (out: String)
        ensures
            out@ == jwk_thumbprint(self@),
    {
        let canonical = self.canonical_json();
        let digest = sha256(canonical.as_str().as_bytes());
        b64(digest.as_slice())
    }

    /// The key authorization of a challenge token under this key.
    pub fn key_authorization(&self, token: &str) -> (out: String)
        ensures
            out@ == key_authorization_text(token@, self@),
    {
        let mut out = String::from_str(token);
        out.append(".");
        out.append(self.thumbprint().as_str());
        out
    }
}

/// How a request names the account key: the key itself, for `newAccount`
/// only, or the account URL.
#[derive(Debug)]
pub enum KeyId {
    Jwk(Jwk),
    Kid(String),
}

pub enum KeyIdView {
    Jwk(JwkView),
    Kid(Seq<char>),
}

impl View for KeyId {
    type V = KeyIdView;

    open spec fn view(&self) -> KeyIdView {
        match self {
            KeyId::Jwk(jwk) => KeyIdView::Jwk(jwk@),
            KeyId::Kid(kid) => KeyIdView::Kid(kid@),
        }
    }
}

/// The protected header of a request. The algorithm is always RS256.
#[derive(Debug)]
pub struct ProtectedHeader {
    pub nonce: String,
    pub url: String,
    pub key: KeyId,
}

pub struct ProtectedHeaderView {
    pub nonce: Seq<char>,
    pub url: Seq<char>,
    pub key: KeyIdView,
}

impl View for ProtectedHeader {
    type V = ProtectedHeaderView;

    open spec fn view(&self) -> ProtectedHeaderView {
        ProtectedHeaderView { nonce: self.nonce@, url: self.url@, key: self.key@ }
    }
}

/// The member of a protected header that names the key.
pub open spec fn key_member_json(key: KeyIdView) -> Seq<char> {
    match key {
        KeyIdView::Jwk(jwk) => ",\"jwk\":"@ + jwk_json(jwk),
        KeyIdView::Kid(kid) => ",\"kid\":"@ + json_string_text(kid),
    }
}

/// The JSON text of a protected header: `alg`, `nonce`, `url`, and one of
/// `jwk` and `kid`.
pub open spec fn protected_header_json(header: ProtectedHeaderView) -> Seq<char> {
    "{\"alg\":\"RS256\",\"nonce\":"@ + json_string_text(header.nonce) + ",\"url\":"@
        + json_string_text(header.url) + key_member_json(header.key) + "}"@
}

impl KeyId {
    /// The member of a protected header that names the key.
    pub fn member_json(&self) -> (out: String)
        ensures
            out@ == key_member_json(self@),
    {
        match self {
            KeyId::Jwk(jwk) => String::from_str(",\"jwk\":").concat(jwk.to_json().as_str()),
            KeyId::Kid(kid) => String::from_str(",\"kid\":").concat(
                json_string(kid.as_str()).as_str(),
            ),
        }
    }
}

impl ProtectedHeader {
    /// The JSON text of the header.
    pub fn to_json(&self) -> (out: String)
        ensures
            out@ == protected_header_json(self@),
    {
        let mut out = String::from_str("{\"alg\":\"RS256\",\"nonce\":");
        out.append(json_string(self.nonce.as_str()).as_str());
        out.append(",\"url\":");
        out.append(json_string(self.url.as_str()).as_str());
        out.append(self.key.member_json().as_str());
        out.append("}");
        out
    }
}

/// The payload of a request: a JSON text, or nothing at all for a
/// POST-as-GET.
#[derive(Debug)]
pub enum Payload {
    Json(String),
    Empty,
}

pub enum PayloadView {
    Json(Seq<char>),
    Empty,
}

impl View for Payload {
    type V = PayloadView;

    open spec fn view(&self) -> PayloadView {
        match self {
            Payload::Json(text) => PayloadView::Json(text@),
            Payload::Empty => PayloadView::Empty,
        }
    }
}

/// The payload member of a signature: the base64url text of the JSON text,
/// or the empty text for a POST-as-GET.
pub open spec fn payload_segment(payload: PayloadView) -> Seq<char> {
    match payload {
        PayloadView::Json(text) => base64url(encode_utf8(text)),
        PayloadView::Empty => Seq::empty(),
    }
}

/// The protected member of a signature: the base64url text of the header's
/// JSON text.
pub open spec fn protected_segment(header: ProtectedHeaderView) -> Seq<char> {
    base64url(encode_utf8(protected_header_json(header)))
}

/// What is signed: the protected member, a dot, and the payload member. For
/// a POST-as-GET the dot is the last character.
pub open spec fn signing_input(header: ProtectedHeaderView, payload: PayloadView) -> Seq<char> {
    protected_segment(header) + "."@ + payload_segment(payload)
}

/// A flattened JSON Web Signature.
#[derive(Debug)]
pub struct Jws {
    pub protected: String,
    pub payload: String,
    pub signature: String,
}

pub struct JwsView {
    pub protected: Seq<char>,
    pub payload: Seq<char>,
    pub signature: Seq<char>,
}

impl View for Jws {
    type V = JwsView;

    open spec fn view(&self) -> JwsView {
        JwsView { protected: self.protected@, payload: self.payload@, signature: self.signature@ }
    }
}

/// The flattened signature of a header and a payload, given the signature
/// bytes.
pub open spec fn assembled(
    header: ProtectedHeaderView,
    payload: PayloadView,
    signature: Seq<u8>,
) -> JwsView {
    JwsView {
        protected: protected_segment(header),
        payload: payload_segment(payload),
        signature: base64url(signature),
    }
}

/// The flattened signature that a key gives to a header and a payload: the
/// signature is RS256 over the UTF-8 bytes of the signing input. There is
/// none where the key gives no signature.
pub open spec fn signed(
    header: ProtectedHeaderView,
    payload: PayloadView,
    private_pem: Seq<u8>,
) -> Option<JwsView> {
    match signature_by(private_pem, encode_utf8(signing_input(header, payload))) {
        Some(signature) => Some(assembled(header, payload, signature)),
        None => None,
    }
}

/// The JSON text of a flattened signature, the body of a request.
pub open spec fn jws_json(jws: JwsView) -> Seq<char> {
    "{\"protected\":\""@ + jws.protected + "\",\"payload\":\""@ + jws.payload
        + "\",\"signature\":\""@ + jws.signature + "\"}"@
}

impl Payload {
    /// The payload member of a signature.
    pub fn segment(&self) -> (out: String)
        ensures
            out@ == payload_segment(self@),
    {
        match self {
            Payload::Json(text) => b64(text.as_str().as_bytes()),
            Payload::Empty => String::new(),
        }
    }
}

/// The text that is signed for a header and a payload.
pub fn signing_input_text(header: &ProtectedHeader, payload: &Payload) -> (out: String)
    ensures
        out@ == signing_input(header@, payload@),
{
    let mut out = b64(header.to_json().as_str().as_bytes());
    out.append(".");
    out.append(payload.segment().as_str());
    out
}

impl Jws {
    /// Puts a flattened signature together from the signature bytes.
    pub fn assemble(header: &ProtectedHeader, payload: &Payload, signature: &[u8]) -> (out: Jws)
        ensures
            out@ == assembled(header@, payload@, signature@),
    {
        Jws {
            protected: b64(header.to_json().as_str().as_bytes()),
            payload: payload.segment(),
            signature: b64(signature),
        }
    }

    /// The JSON text of the signature, the body of a request.
    pub fn to_json(&self) -> (out: String)
        ensures
            out@ == jws_json(self@),
    {
        let mut out = String::from_str("{\"protected\":\"");
        out.append(self.protected.as_str());
        out.append("\",\"payload\":\"");
        out.append(self.payload.as_str());
        out.append("\",\"signature\":\"");
        out.append(self.signature.as_str());
        out.append("\"}");
        out
    }
}

/// The bytes that an RS256 signer is given: the encoded header, a dot, and
/// the encoded payload.
pub open spec fn mac_input(encoded_protected_header: Seq<u8>, encoded_payload: Seq<u8>) -> Seq<u8> {
    encoded_protected_header + seq![46u8] + encoded_payload
}

/// Signs with RS256 under the key it holds.
pub struct RS256Signer {
    key: RsaKey,
}

impl RS256Signer {
    /// The key that the signer signs with.
    pub closed spec fn key(self) -> RsaKeyView {
        self.key@
    }

    pub fn new(key: RsaKey) -> (signer: Self)
        ensures
            signer.key() == key@,
    {
        Self { key }
    }

    /// Signs an encoded header and an encoded payload: the signature is over
    /// the header, a dot and the payload. Where the key gives no signature,
    /// the result is `FromRsaError`.
    pub fn compute_mac(&self, encoded_protected_header: &[u8], encoded_payload: &[u8]) -> (out:
        Result<Vec<u8>, Error>)
        ensures
            match out {
                Ok(signature) => signature_by(
                    self.key().pem,
                    mac_input(encoded_protected_header@, encoded_payload@),
                ) == Some(signature@),
                Err(error) => error is FromRsaError && signature_by(
                    self.key().pem,
                    mac_input(encoded_protected_header@, encoded_payload@),
                ) is None,
            },
    {
        let mut full: Vec<u8> = Vec::new();
        full.extend_from_slice(encoded_protected_header);
        full.push(46u8);
        full.extend_from_slice(encoded_payload);
        assert(full@ =~= mac_input(encoded_protected_header@, encoded_payload@));
        self.key.sign(full.as_slice())
    }
}

} // verus!
