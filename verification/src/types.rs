//! The objects of the ACME protocol, and the signed request that each step
//! of an issuance sends.

use crate::base64url::{b64, base64url, in_alphabet, is_in_alphabet};
use crate::crypto::{csr_by, KeyPair, RsaKey};
use crate::error::Error;
use crate::jose::{
    jwk_of, jws_json, key_authorization_text, signed, Jwk, KeyId, KeyIdView, Payload, PayloadView,
    ProtectedHeader, ProtectedHeaderView,
};
use crate::json::{json_string, json_string_text};
use crate::text::{is_prefix, same_text, starts_with};
use crate::util::{jwk, jws, Nonce, Response};
use vstd::prelude::*;

verus! {

/// The status of an account, an order, an authorization or a challenge, as
/// the server reports it.
#[derive(Clone, Copy, Debug, PartialEq, Eq, Structural)]
pub enum StatusType {
    Valid,
    Pending,
    Invalid,
    Ready,
    Processing,
    Deactivated,
    Expired,
    Revoked,
}

/// The word that the protocol has for a status.
pub open spec fn status_text(status: StatusType) -> Seq<char> {
    match status {
        StatusType::Valid => "valid"@,
        StatusType::Pending => "pending"@,
        StatusType::Invalid => "invalid"@,
        StatusType::Ready => "ready"@,
        StatusType::Processing => "processing"@,
        StatusType::Deactivated => "deactivated"@,
        StatusType::Expired => "expired"@,
        StatusType::Revoked => "revoked"@,
    }
}

/// The status that a word of the protocol stands for.
pub open spec fn status_of_text(text: Seq<char>) -> Option<StatusType> {
    if text == "valid"@ {
        Some(StatusType::Valid)
    } else if text == "pending"@ {
        Some(StatusType::Pending)
    } else if text == "invalid"@ {
        Some(StatusType::Invalid)
    } else if text == "ready"@ {
        Some(StatusType::Ready)
    } else if text == "processing"@ {
        Some(StatusType::Processing)
    } else if text == "deactivated"@ {
        Some(StatusType::Deactivated)
    } else if text == "expired"@ {
        Some(StatusType::Expired)
    } else if text == "revoked"@ {
        Some(StatusType::Revoked)
    } else {
        None
    }
}

impl StatusType {
    /// Reads a status from the word that a response carries.
    pub fn parse(text: &str) -> (out: Option<StatusType>)
        ensures
            out == status_of_text(text@),
    {
        if same_text(text, "valid") {
            Some(StatusType::Valid)
        } else if same_text(text, "pending") {
            Some(StatusType::Pending)
        } else if same_text(text, "invalid") {
            Some(StatusType::Invalid)
        } else if same_text(text, "ready") {
            Some(StatusType::Ready)
        } else if same_text(text, "processing") {
            Some(StatusType::Processing)
        } else if same_text(text, "deactivated") {
            Some(StatusType::Deactivated)
        } else if same_text(text, "expired") {
            Some(StatusType::Expired)
        } else if same_text(text, "revoked") {
            Some(StatusType::Revoked)
        } else {
            None
        }
    }

    /// The word that the protocol has for the status.
    pub fn as_str(&self) -> (out: &'static str)
        ensures
            out@ == status_text(*self),
    {
        match self {
            StatusType::Valid => "valid",
            StatusType::Pending => "pending",
            StatusType::Invalid => "invalid",
            StatusType::Ready => "ready",
            StatusType::Processing => "processing",
            StatusType::Deactivated => "deactivated",
            StatusType::Expired => "expired",
            StatusType::Revoked => "revoked",
        }
    }
}

/// Every status is read back from its own word.
pub proof fn lemma_status_round_trip(status: StatusType)
    ensures
        status_of_text(status_text(status)) == Some(status),
{
    reveal_strlit("valid");
    reveal_strlit("pending");
    reveal_strlit("invalid");
    reveal_strlit("ready");
    reveal_strlit("processing");
    reveal_strlit("deactivated");
    reveal_strlit("expired");
    reveal_strlit("revoked");
    assert("valid"@.len() == 5 && "pending"@.len() == 7 && "invalid"@.len() == 7 && "ready"@.len()
        == 5 && "processing"@.len() == 10 && "deactivated"@.len() == 11 && "expired"@.len() == 7
        && "revoked"@.len() == 7);
    assert("valid"@[0] == 'v' && "ready"@[0] == 'r');
    assert("pending"@[0] == 'p' && "invalid"@[0] == 'i' && "expired"@[0] == 'e' && "revoked"@[0]
        == 'r');
}

/// The media type of every signed request.
pub open spec fn jose_content_type() -> Seq<char> {
    "application/jose+json"@
}

/// The media type that a certificate download accepts.
pub open spec fn pem_chain_media_type() -> Seq<char> {
    "application/pem-certificate-chain"@
}

pub struct SignedRequestView {
    pub url: Seq<char>,
    pub content_type: Seq<char>,
    pub accept: Option<Seq<char>>,
    pub body: Seq<char>,
}

/// A signed POST, ready to be sent: where to, with which media types, and
/// the flattened signature as the body.
#[derive(Debug)]
pub struct SignedRequest {
    pub url: String,
    pub content_type: String,
    pub accept: Option<String>,
    pub body: String,
}

impl View for SignedRequest {
    type V = SignedRequestView;

    open spec fn view(&self) -> SignedRequestView {
        SignedRequestView {
            url: self.url@,
            content_type: self.content_type@,
            accept: self.accept.deep_view(),
            body: self.body@,
        }
    }
}

/// The signed POST to a URL: the protected header names that URL, the nonce
/// and the key, and the body is the flattened signature under the account
/// key. There is none where the account key gives no signature.
pub open spec fn post_request(
    url: Seq<char>,
    nonce: Seq<char>,
    key: KeyIdView,
    payload: PayloadView,
    private_pem: Seq<u8>,
    accept: Option<Seq<char>>,
) -> Option<SignedRequestView> {
    match signed(ProtectedHeaderView { nonce, url, key }, payload, private_pem) {
        Some(jws) => Some(
            SignedRequestView { url, content_type: jose_content_type(), accept, body: jws_json(jws) },
        ),
        None => None,
    }
}

/// Builds the signed POST to a URL: the request that `post_request` states.
/// Where the account key gives no signature, the result is `FromRsaError`.
pub fn signed_post(
    url: &str,
    nonce: Nonce,
    key: KeyId,
    payload: Payload,
    p_key: &RsaKey,
    accept: Option<String>,
) -> (out: Result<SignedRequest, Error>)
    ensures
        match out {
            Ok(request) => post_request(
                url@,
                nonce@,
                key@,
                payload@,
                p_key@.pem,
                accept.deep_view(),
            ) == Some(request@),
            Err(error) => error is FromRsaError && post_request(
                url@,
                nonce@,
                key@,
                payload@,
                p_key@.pem,
                accept.deep_view(),
            ) is None,
        },
{
    let header = ProtectedHeader { nonce, url: String::from_str(url), key };
    match jws(payload, header, p_key) {
        Ok(signature) => Ok(
            SignedRequest {
                url: String::from_str(url),
                content_type: String::from_str("application/jose+json"),
                accept,
                body: signature.to_json(),
            },
        ),
        Err(error) => Err(error),
    }
}

/// The payload of `newAccount`: the terms are agreed to, and the contact is
/// the mail address.
pub open spec fn new_account_payload(email: Seq<char>) -> Seq<char> {
    "{\"termsOfServiceAgreed\":true,\"contact\":["@ + json_string_text("mailto:"@ + email) + "]}"@
}

/// The payload of `newOrder`: one DNS identifier.
pub open spec fn new_order_payload(domain: Seq<char>) -> Seq<char> {
    "{\"identifiers\":[{\"type\":\"dns\",\"value\":"@ + json_string_text(domain) + "}]}"@
}

/// The payload of a finalization: the request, DER encoded, as base64url
/// text.
pub open spec fn finalize_payload(csr: Seq<u8>) -> Seq<char> {
    "{\"csr\":\""@ + base64url(csr) + "\"}"@
}

/// The payload that tells the server that a challenge is ready: the empty
/// object.
pub open spec fn ready_payload() -> Seq<char> {
    "{}"@
}

/// Whether a URL is absolute and of the scheme `https`.
pub open spec fn is_https_url(url: Seq<char>) -> bool {
    is_prefix(url, "https://"@) && url.len() > "https://"@.len()
}

/// Whether a URL is absolute and of the scheme `https`.
pub fn check_https_url(url: &str) -> (ok: bool)
    ensures
        ok == is_https_url(url@),
{
    let scheme = "https://";
    starts_with(url, scheme) && url.unicode_len() > scheme.unicode_len()
}

/// The signed POST-as-GET to a URL under an account: the payload is empty.
pub open spec fn post_as_get_request(
    url: Seq<char>,
    nonce: Seq<char>,
    account_url: Seq<char>,
    private_pem: Seq<u8>,
    accept: Option<Seq<char>>,
) -> Option<SignedRequestView> {
    post_request(url, nonce, KeyIdView::Kid(account_url), PayloadView::Empty, private_pem, accept)
}

/// Builds the signed POST-as-GET to a URL under an account.
pub fn post_as_get(
    url: &str,
    nonce: Nonce,
    account_url: &str,
    p_key: &RsaKey,
    accept: Option<String>,
) -> (out: Result<SignedRequest, Error>)
    ensures
        match out {
            Ok(request) => post_as_get_request(
                url@,
                nonce@,
                account_url@,
                p_key@.pem,
                accept.deep_view(),
            ) == Some(request@),
            Err(error) => error is FromRsaError && post_as_get_request(
                url@,
                nonce@,
                account_url@,
                p_key@.pem,
                accept.deep_view(),
            ) is None,
        },
{
    signed_post(
        url,
        nonce,
        KeyId::Kid(String::from_str(account_url)),
        Payload::Empty,
        p_key,
        accept,
    )
}

/// What a directory says of its server beside the endpoints.
#[derive(Debug)]
pub struct DirectoryMeta {
    pub terms_of_service: Option<String>,
    pub website: Option<String>,
    pub caa_identities: Vec<String>,
    pub external_account_required: Option<bool>,
}

/// The directory of a server: the URLs of its endpoints, and what it says
/// of itself.
#[derive(Debug)]
pub struct Directory {
    pub new_nonce: String,
    pub new_account: String,
    pub new_order: String,
    pub revoke_cert: String,
    pub key_change: String,
    pub meta: Option<DirectoryMeta>,
}

pub struct DirectoryMetaView {
    pub terms_of_service: Option<Seq<char>>,
    pub website: Option<Seq<char>>,
    pub caa_identities: Seq<Seq<char>>,
    pub external_account_required: Option<bool>,
}

impl View for DirectoryMeta {
    type V = DirectoryMetaView;

    open spec fn view(&self) -> DirectoryMetaView {
        DirectoryMetaView {
            terms_of_service: self.terms_of_service.deep_view(),
            website: self.website.deep_view(),
            caa_identities: self.caa_identities.deep_view(),
            external_account_required: self.external_account_required,
        }
    }
}

pub struct DirectoryView {
    pub new_nonce: Seq<char>,
    pub new_account: Seq<char>,
    pub new_order: Seq<char>,
    pub revoke_cert: Seq<char>,
    pub key_change: Seq<char>,
    pub meta: Option<DirectoryMetaView>,
}

impl View for Directory {
    type V = DirectoryView;

    open spec fn view(&self) -> DirectoryView {
        DirectoryView {
            new_nonce: self.new_nonce@,
            new_account: self.new_account@,
            new_order: self.new_order@,
            revoke_cert: self.revoke_cert@,
            key_change: self.key_change@,
            meta: match self.meta {
                Some(meta) => Some(meta@),
                None => None,
            },
        }
    }
}

impl Directory {
    /// Whether every URL of the directory is absolute and `https`.
    pub open spec fn wf(&self) -> bool {
        &&& is_https_url(self.new_nonce@)
        &&& is_https_url(self.new_account@)
        &&& is_https_url(self.new_order@)
        &&& is_https_url(self.revoke_cert@)
        &&& is_https_url(self.key_change@)
    }

    /// Whether every URL of the directory is absolute and `https`.
    pub fn is_valid(&self) -> (ok: bool)
        ensures
            ok == self.wf(),
    {
        check_https_url(self.new_nonce.as_str()) && check_https_url(self.new_account.as_str())
            && check_https_url(self.new_order.as_str()) && check_https_url(
            self.revoke_cert.as_str(),
        ) && check_https_url(self.key_change.as_str())
    }

    /// Takes the directory out of the response to the first request. A
    /// response that is no success, or a directory with a URL that is not
    /// absolute `https`, is an `IncorrectResponse`.
    pub fn fetch_dir(response: Response<Directory>) -> (out: Result<Directory, Error>)
        ensures
            match out {
                Ok(directory) => response.status == 200 && response.body.wf() && directory
                    == response.body,
                Err(error) => error == Error::IncorrectResponse && !(response.status == 200
                    && response.body.wf()),
            },
    {
        if response.status == 200 && response.body.is_valid() {
            Ok(response.body)
        } else {
            Err(Error::IncorrectResponse)
        }
    }

    /// Takes the first nonce out of the response to the `newNonce` request.
    /// A response without the header is a `BadNonce`.
    pub fn first_nonce(response: Response<()>) -> (out: Result<Nonce, Error>)
        ensures
            match response.replay_nonce {
                Some(nonce) => out == Ok::<Nonce, Error>(nonce),
                None => out == Err::<Nonce, Error>(Error::BadNonce),
            },
    {
        match response.replay_nonce {
            Some(nonce) => Ok(nonce),
            None => Err(Error::BadNonce),
        }
    }

    /// Builds the request that creates a new account, or finds the one that
    /// the key already has: signed with the key itself in the header.
    pub fn create_account(&self, nonce: Nonce, p_key: &RsaKey, email: &str) -> (out: Result<
        SignedRequest,
        Error,
    >)
        ensures
            match out {
                Ok(request) => post_request(
                    self.new_account@,
                    nonce@,
                    KeyIdView::Jwk(jwk_of(p_key@)),
                    PayloadView::Json(new_account_payload(email@)),
                    p_key@.pem,
                    None,
                ) == Some(request@),
                Err(error) => error is FromRsaError && post_request(
                    self.new_account@,
                    nonce@,
                    KeyIdView::Jwk(jwk_of(p_key@)),
                    PayloadView::Json(new_account_payload(email@)),
                    p_key@.pem,
                    None,
                ) is None,
            },
    {
        let key = match jwk(p_key) {
            Ok(key) => key,
            Err(error) => {
                return Err(error);
            },
        };
        let contact = String::from_str("mailto:").concat(email);
        let mut payload = String::from_str("{\"termsOfServiceAgreed\":true,\"contact\":[");
        payload.append(json_string(contact.as_str()).as_str());
        payload.append("]}");
        signed_post(
            self.new_account.as_str(),
            nonce,
            KeyId::Jwk(key),
            Payload::Json(payload),
            p_key,
            None,
        )
    }
}

/// Whether a status is one that an account can have.
pub open spec fn is_account_status(status: StatusType) -> bool {
    status == StatusType::Valid || status == StatusType::Deactivated || status
        == StatusType::Revoked
}

/// An account at the server. The account URL is the `kid` of every later
/// request.
#[derive(Debug)]
pub struct Account {
    pub status: StatusType,
    pub contact: Vec<String>,
    pub orders: Option<String>,
    pub account_location: String,
}

pub struct AccountView {
    pub status: StatusType,
    pub contact: Seq<Seq<char>>,
    pub orders: Option<Seq<char>>,
    pub account_location: Seq<char>,
}

impl View for Account {
    type V = AccountView;

    open spec fn view(&self) -> AccountView {
        AccountView {
            status: self.status,
            contact: self.contact.deep_view(),
            orders: self.orders.deep_view(),
            account_location: self.account_location@,
        }
    }
}

impl Account {
    /// Takes the account out of the response to `newAccount`. Status 201, a
    /// new account, and status 200, an account that existed, are accepted
    /// alike; the account URL is the `Location` header. Any other status, a
    /// missing header or a status word that no account has is an
    /// `IncorrectResponse`.
    pub fn from_response(response: Response<Account>) -> (out: Result<(Account, Nonce), Error>)
        ensures
            match out {
                Ok((account, nonce)) => {
                    &&& response.status == 200 || response.status == 201
                    &&& is_account_status(response.body.status)
                    &&& response.location == Some(account.account_location)
                    &&& response.replay_nonce == Some(nonce)
                    &&& account.status == response.body.status
                    &&& account.contact == response.body.contact
                    &&& account.orders == response.body.orders
                },
                Err(error) => {
                    &&& error == Error::IncorrectResponse
                    &&& !((response.status == 200 || response.status == 201) && is_account_status(
                        response.body.status,
                    ) && response.location is Some && response.replay_nonce is Some)
                },
            },
    {
        if response.status != 200 && response.status != 201 {
            return Err(Error::IncorrectResponse);
        }
        match response.body.status {
            StatusType::Valid | StatusType::Deactivated | StatusType::Revoked => {},
            _ => {
                return Err(Error::IncorrectResponse);
            },
        }
        match (response.location, response.replay_nonce) {
            (Some(location), Some(nonce)) => {
                let body = response.body;
                Ok(
                    (
                        Account {
                            status: body.status,
                            contact: body.contact,
                            orders: body.orders,
                            account_location: location,
                        },
                        nonce,
                    ),
                )
            },
            _ => Err(Error::IncorrectResponse),
        }
    }

    /// Builds the request that creates a new order for a certificate for one
    /// domain.
    pub fn create_new_order(
        &self,
        nonce: Nonce,
        new_order_url: &str,
        p_key: &RsaKey,
        domain: &str,
    ) -> (out: Result<SignedRequest, Error>)
        ensures
            match out {
                Ok(request) => post_request(
                    new_order_url@,
                    nonce@,
                    KeyIdView::Kid(self.account_location@),
                    PayloadView::Json(new_order_payload(domain@)),
                    p_key@.pem,
                    None,
                ) == Some(request@),
                Err(error) => error is FromRsaError && post_request(
                    new_order_url@,
                    nonce@,
                    KeyIdView::Kid(self.account_location@),
                    PayloadView::Json(new_order_payload(domain@)),
                    p_key@.pem,
                    None,
                ) is None,
            },
    {
        let mut payload = String::from_str("{\"identifiers\":[{\"type\":\"dns\",\"value\":");
        payload.append(json_string(domain).as_str());
        payload.append("}]}");
        signed_post(
            new_order_url,
            nonce,
            KeyId::Kid(self.account_location.clone()),
            Payload::Json(payload),
            p_key,
            None,
        )
    }
}

/// Whether a status is one that an order can have.
pub open spec fn is_order_status(status: StatusType) -> bool {
    status == StatusType::Pending || status == StatusType::Ready || status
        == StatusType::Processing || status == StatusType::Valid || status == StatusType::Invalid
}

/// What has to hold of an order: its status is one of an order, and it
/// names a certificate exactly when it is valid.
pub open spec fn order_is_consistent(status: StatusType, has_certificate: bool) -> bool {
    is_order_status(status) && (has_certificate <==> status == StatusType::Valid)
}

pub struct OrderView {
    pub status: StatusType,
    pub expires: Seq<char>,
    pub identifiers: Seq<Seq<char>>,
    pub authorizations: Seq<Seq<char>>,
    pub finalize: Seq<char>,
    pub certificate: Option<Seq<char>>,
}

/// An order for a certificate. It names its certificate if and only if its
/// status is `valid`.
#[derive(Debug)]
pub struct Order {
    status: StatusType,
    expires: String,
    identifiers: Vec<String>,
    authorizations: Vec<String>,
    finalize: String,
    certificate: Option<String>,
}

impl View for Order {
    type V = OrderView;

    closed spec fn view(&self) -> OrderView {
        OrderView {
            status: self.status,
            expires: self.expires@,
            identifiers: self.identifiers.deep_view(),
            authorizations: self.authorizations.deep_view(),
            finalize: self.finalize@,
            certificate: self.certificate.deep_view(),
        }
    }
}

/// The request that finalizes an order with a certificate signing request.
pub open spec fn finalize_request(
    order: OrderView,
    account_url: Seq<char>,
    nonce: Seq<char>,
    private_pem: Seq<u8>,
    csr: Seq<u8>,
) -> Option<SignedRequestView> {
    post_request(
        order.finalize,
        nonce,
        KeyIdView::Kid(account_url),
        PayloadView::Json(finalize_payload(csr)),
        private_pem,
        None,
    )
}

/// The request that finalizes an order with the certificate signing request
/// for a domain under a key pair. There is none where OpenSSL builds no
/// signing request, or where the account key gives no signature.
pub open spec fn finalize_order_request(
    order: OrderView,
    account_url: Seq<char>,
    nonce: Seq<char>,
    private_pem: Seq<u8>,
    cert_keypair: crate::crypto::KeyPairView,
    domain: Seq<char>,
) -> Option<SignedRequestView> {
    match csr_by(cert_keypair.private.pem, cert_keypair.public_pem, domain) {
        Some(csr) => finalize_request(order, account_url, nonce, private_pem, csr),
        None => None,
    }
}

impl Order {
    #[verifier::type_invariant]
    spec fn consistent(self) -> bool {
        order_is_consistent(self.status, self.certificate is Some)
    }

    /// Makes an order of what a response says of it. An order whose status
    /// no order has, or that names a certificate without being valid, or is
    /// valid without naming one, is an `IncorrectResponse`.
    pub fn new(
        status: StatusType,
        expires: String,
        identifiers: Vec<String>,
        authorizations: Vec<String>,
        finalize: String,
        certificate: Option<String>,
    ) -> (out: Result<Order, Error>)
        ensures
            match out {
                Ok(order) => order_is_consistent(status, certificate is Some) && order@ == (
                OrderView {
                    status,
                    expires: expires@,
                    identifiers: identifiers.deep_view(),
                    authorizations: authorizations.deep_view(),
                    finalize: finalize@,
                    certificate: certificate.deep_view(),
                }),
                Err(error) => !order_is_consistent(status, certificate is Some) && error
                    == Error::IncorrectResponse,
            },
    {
        let known = match status {
            StatusType::Pending | StatusType::Ready | StatusType::Processing | StatusType::Valid | StatusType::Invalid => true,
            _ => false,
        };
        let valid = match status {
            StatusType::Valid => true,
            _ => false,
        };
        if known && certificate.is_some() == valid {
            Ok(Order { status, expires, identifiers, authorizations, finalize, certificate })
        } else {
            Err(Error::IncorrectResponse)
        }
    }

    /// The status of the order: one that an order can have.
    pub fn status(&self) -> (status: StatusType)
        ensures
            status == self@.status,
            order_is_consistent(self@.status, self@.certificate is Some),
    {
        proof {
            use_type_invariant(self);
        }
        self.status
    }

    /// The URL of the certificate, which is there if and only if the order
    /// is valid.
    pub fn certificate(&self) -> (certificate: Option<&String>)
        ensures
            certificate.deep_view() == self@.certificate,
            certificate is Some <==> self@.status == StatusType::Valid,
    {
        proof {
            use_type_invariant(self);
        }
        self.certificate.as_ref()
    }

    /// The URLs of the authorizations of the order.
    pub fn authorizations(&self) -> (urls: &Vec<String>)
        ensures
            urls.deep_view() == self@.authorizations,
    {
        &self.authorizations
    }

    /// The URL that finalizes the order.
    pub fn finalize(&self) -> (url: &String)
        ensures
            url@ == self@.finalize,
    {
        &self.finalize
    }

    /// The time at which the order expires, as the server wrote it.
    pub fn expires(&self) -> (time: &String)
        ensures
            time@ == self@.expires,
    {
        &self.expires
    }

    /// The names that the order is for.
    pub fn identifiers(&self) -> (names: &Vec<String>)
        ensures
            names.deep_view() == self@.identifiers,
    {
        &self.identifiers
    }

    /// Builds the request that fetches the first authorization of the order
    /// with its challenges: a POST-as-GET. An order without an authorization
    /// gives `NoHttpChallengePresent`; where the account key gives no
    /// signature, the result is `FromRsaError`.
    pub fn fetch_auth_challenges(&self, nonce: Nonce, account_url: &str, p_key: &RsaKey) -> (out:
        Result<SignedRequest, Error>)
        ensures
            match out {
                Ok(request) => self@.authorizations.len() > 0 && post_as_get_request(
                    self@.authorizations[0],
                    nonce@,
                    account_url@,
                    p_key@.pem,
                    None,
                ) == Some(request@),
                Err(error) => if self@.authorizations.len() == 0 {
                    error == Error::NoHttpChallengePresent
                } else {
                    error is FromRsaError && post_as_get_request(
                        self@.authorizations[0],
                        nonce@,
                        account_url@,
                        p_key@.pem,
                        None,
                    ) is None
                },
            },
    {
        if self.authorizations.len() == 0 {
            return Err(Error::NoHttpChallengePresent);
        }
        post_as_get(self.authorizations[0].as_str(), nonce, account_url, p_key, None)
    }

    /// Builds the request that finalizes the order with a certificate signing
    /// request that is at hand, DER encoded.
    pub fn finalize_with_csr(&self, account_url: &str, new_nonce: Nonce, p_key: &RsaKey, csr: &[u8])
        -> (out: Result<SignedRequest, Error>)
        ensures
            match out {
                Ok(request) => finalize_request(
                    self@,
                    account_url@,
                    new_nonce@,
                    p_key@.pem,
                    csr@,
                ) == Some(request@),
                Err(error) => error is FromRsaError && finalize_request(
                    self@,
                    account_url@,
                    new_nonce@,
                    p_key@.pem,
                    csr@,
                ) is None,
            },
    {
        let mut payload = String::from_str("{\"csr\":\"");
        payload.append(b64(csr).as_str());
        payload.append("\"}");
        signed_post(
            self.finalize.as_str(),
            new_nonce,
            KeyId::Kid(String::from_str(account_url)),
            Payload::Json(payload),
            p_key,
            None,
        )
    }

    /// Builds the request that finalizes an order whose challenge was
    /// completed: the certificate signing request for the domain, signed with
    /// the key pair of the certificate, goes to the `finalize` URL. Where
    /// OpenSSL builds no signing request of the key pair, or the account key
    /// gives no signature, the result is `FromRsaError`.
    pub fn finalize_order(
        &self,
        account_url: &str,
        new_nonce: Nonce,
        p_key: &RsaKey,
        cert_keypair: &KeyPair,
        domain: &str,
    ) -> (out: Result<SignedRequest, Error>)
        ensures
            match out {
                Ok(request) => finalize_order_request(
                    self@,
                    account_url@,
                    new_nonce@,
                    p_key@.pem,
                    cert_keypair@,
                    domain@,
                ) == Some(request@),
                Err(error) => error is FromRsaError && finalize_order_request(
                    self@,
                    account_url@,
                    new_nonce@,
                    p_key@.pem,
                    cert_keypair@,
                    domain@,
                ) is None,
            },
    {
        match Order::request_csr(cert_keypair, String::from_str(domain)) {
            Ok(csr) => self.finalize_with_csr(account_url, new_nonce, p_key, csr.as_slice()),
            Err(error) => Err(error),
        }
    }

    /// Builds the certificate signing request that is sent during
    /// finalization, DER encoded.
    pub fn request_csr(keypair: &KeyPair, common_name: String) -> (out: Result<Vec<u8>, Error>)
        ensures
            match out {
                Ok(der) => csr_by(keypair@.private.pem, keypair@.public_pem, common_name@) == Some(
                    der@,
                ),
                Err(error) => error is FromRsaError && csr_by(
                    keypair@.private.pem,
                    keypair@.public_pem,
                    common_name@,
                ) is None,
            },
    {
        keypair.csr(common_name.as_str())
    }
}

pub struct ChallengeView {
    pub status: StatusType,
    pub token: Seq<char>,
    pub challenge_type: Seq<char>,
    pub url: Seq<char>,
}

/// A challenge of an authorization.
#[derive(Debug, Clone)]
pub struct Challenge {
    pub status: StatusType,
    pub token: String,
    pub challenge_type: String,
    pub url: String,
}

impl View for Challenge {
    type V = ChallengeView;

    open spec fn view(&self) -> ChallengeView {
        ChallengeView {
            status: self.status,
            token: self.token@,
            challenge_type: self.challenge_type@,
            url: self.url@,
        }
    }
}

impl DeepView for Challenge {
    type V = ChallengeView;

    open spec fn deep_view(&self) -> ChallengeView {
        self@
    }
}

/// The type of the one challenge that the client answers.
pub open spec fn http01() -> Seq<char> {
    "http-01"@
}

/// Whether a token can stand in a URL path and a key authorization: it is
/// not empty and of the URL-safe alphabet.
pub open spec fn is_token(token: Seq<char>) -> bool {
    token.len() > 0 && in_alphabet(token)
}

/// The place of the first challenge of the type `http-01`, if there is
/// one.
pub open spec fn first_http01(challenges: Seq<ChallengeView>) -> Option<int>
    decreases challenges.len(),
{
    if challenges.len() == 0 {
        None
    } else if challenges[0].challenge_type == http01() {
        Some(0)
    } else {
        match first_http01(challenges.skip(1)) {
            Some(i) => Some(i + 1),
            None => None,
        }
    }
}

/// Where `first_http01` finds a challenge, it is of the type `http-01` and
/// none before it is; where it finds none, there is none.
pub proof fn lemma_first_http01(challenges: Seq<ChallengeView>)
    ensures
        match first_http01(challenges) {
            Some(i) => 0 <= i < challenges.len() && challenges[i].challenge_type == http01()
                && forall|j: int| 0 <= j < i ==> (#[trigger] challenges[j]).challenge_type != http01(),
            None => forall|j: int| 0 <= j < challenges.len() ==> (#[trigger] challenges[j]).challenge_type
                != http01(),
        },
    decreases challenges.len(),
{
    if challenges.len() > 0 && challenges[0].challenge_type != http01() {
        let rest = challenges.skip(1);
        lemma_first_http01(rest);
        match first_http01(rest) {
            Some(i) => {
                assert forall|j: int| 0 <= j < i + 1 implies (#[trigger] challenges[j]).challenge_type
                    != http01() by {
                    if j > 0 {
                        assert(challenges[j] == rest[j - 1]);
                    }
                }
            },
            None => {
                assert forall|j: int| 0 <= j < challenges.len() implies (
                #[trigger] challenges[j]).challenge_type != http01() by {
                    if j > 0 {
                        assert(challenges[j] == rest[j - 1]);
                    }
                }
            },
        }
    }
}

/// The request that tells the server that a challenge is ready to be
/// validated.
pub open spec fn ready_request(
    challenge: ChallengeView,
    nonce: Seq<char>,
    account_url: Seq<char>,
    private_pem: Seq<u8>,
) -> Option<SignedRequestView> {
    post_request(
        challenge.url,
        nonce,
        KeyIdView::Kid(account_url),
        PayloadView::Json(ready_payload()),
        private_pem,
        None,
    )
}

impl Challenge {
    /// A copy of the challenge.
    pub fn duplicate(&self) -> (copy: Challenge)
        ensures
            copy@ == self@,
    {
        Challenge {
            status: self.status,
            token: self.token.clone(),
            challenge_type: self.challenge_type.clone(),
            url: self.url.clone(),
        }
    }

    /// Whether the challenge is of the type `http-01`.
    pub fn is_http01(&self) -> (is: bool)
        ensures
            is == (self@.challenge_type == http01()),
    {
        same_text(self.challenge_type.as_str(), "http-01")
    }

    /// Whether the token of the challenge is not empty and of the URL-safe
    /// alphabet.
    pub fn has_token(&self) -> (has: bool)
        ensures
            has == is_token(self@.token),
    {
        self.token.as_str().unicode_len() > 0 && is_in_alphabet(self.token.as_str())
    }
}

pub struct ChallengeAuthorisationView {
    pub identifier: Seq<char>,
    pub status: StatusType,
    pub expires: Seq<char>,
    pub challenges: Seq<ChallengeView>,
    pub wildcard: Option<bool>,
}

/// An authorization for one identifier, with the challenges that the server
/// offers for it.
#[derive(Debug)]
pub struct ChallengeAuthorisation {
    pub identifier: String,
    pub status: StatusType,
    pub expires: String,
    pub challenges: Vec<Challenge>,
    pub wildcard: Option<bool>,
}

impl View for ChallengeAuthorisation {
    type V = ChallengeAuthorisationView;

    open spec fn view(&self) -> ChallengeAuthorisationView {
        ChallengeAuthorisationView {
            identifier: self.identifier@,
            status: self.status,
            expires: self.expires@,
            challenges: self.challenges.deep_view(),
            wildcard: self.wildcard,
        }
    }
}

pub struct HttpChallengeView {
    pub token: Seq<char>,
    pub key_authorization: Seq<char>,
    pub ready: SignedRequestView,
}

/// What completing the HTTP challenge takes: the token and the key
/// authorization that the responder serves, and the request that tells the
/// server to validate.
#[derive(Debug)]
pub struct HttpChallenge {
    pub token: String,
    pub key_authorization: String,
    pub ready: SignedRequest,
}

impl View for HttpChallenge {
    type V = HttpChallengeView;

    open spec fn view(&self) -> HttpChallengeView {
        HttpChallengeView {
            token: self.token@,
            key_authorization: self.key_authorization@,
            ready: self.ready@,
        }
    }
}

/// The challenge that the client answers: the first of the type `http-01`.
/// An authorization that offers none gives `NoHttpChallengePresent`; a
/// token that is empty or not of the URL-safe alphabet gives
/// `IncorrectResponse`.
pub open spec fn chosen_challenge(authorization: ChallengeAuthorisationView) -> Result<
    ChallengeView,
    Error,
> {
    match first_http01(authorization.challenges) {
        Some(i) => if is_token(authorization.challenges[i].token) {
            Ok(authorization.challenges[i])
        } else {
            Err(Error::IncorrectResponse)
        },
        None => Err(Error::NoHttpChallengePresent),
    }
}

/// What completing a challenge takes under an account key: the token, the
/// key authorization, and the request that asks for validation. There is
/// none where the account key gives no signature.
pub open spec fn http_challenge_plan(
    challenge: ChallengeView,
    nonce: Seq<char>,
    account_url: Seq<char>,
    key: crate::crypto::RsaKeyView,
) -> Option<HttpChallengeView> {
    match ready_request(challenge, nonce, account_url, key.pem) {
        Some(ready) => Some(
            HttpChallengeView {
                token: challenge.token,
                key_authorization: key_authorization_text(challenge.token, jwk_of(key)),
                ready,
            },
        ),
        None => None,
    }
}

impl ChallengeAuthorisation {
    /// Picks the challenge of the type `http-01`: the first one. Where the
    /// authorization offers none, the result is `NoHttpChallengePresent`;
    /// where its token is empty or not of the URL-safe alphabet,
    /// `IncorrectResponse`.
    pub fn http_challenge(&self) -> (out: Result<Challenge, Error>)
        ensures
            match chosen_challenge(self@) {
                Ok(chosen) => out matches Ok(challenge) && challenge@ == chosen,
                Err(error) => out == Err::<Challenge, Error>(error),
            },
    {
        let ghost all = self@.challenges;
        let mut i: usize = 0;
        assert(all.skip(0) =~= all);
        while i < self.challenges.len()
            invariant
                i <= self.challenges.len(),
                all == self@.challenges,
                all.len() == self.challenges.len(),
                match first_http01(all.skip(i as int)) {
                    Some(k) => first_http01(all) == Some(k + i),
                    None => first_http01(all) is None,
                },
            decreases self.challenges.len() - i,
        {
            assert(all.skip(i as int)[0] == self.challenges[i as int]@);
            assert(all.skip(i as int).skip(1) =~= all.skip(i + 1));
            if self.challenges[i].is_http01() {
                if self.challenges[i].has_token() {
                    return Ok(self.challenges[i].duplicate());
                } else {
                    return Err(Error::IncorrectResponse);
                }
            }
            i = i + 1;
        }
        Err(Error::NoHttpChallengePresent)
    }

    /// Builds the request that asks the server to validate a challenge: the
    /// payload is the empty object.
    pub fn kick_off_http_challenge(
        challenge_infos: &Challenge,
        nonce: Nonce,
        acc_url: &str,
        private_key: &RsaKey,
    ) -> (out: Result<SignedRequest, Error>)
        ensures
            match out {
                Ok(request) => ready_request(
                    challenge_infos@,
                    nonce@,
                    acc_url@,
                    private_key@.pem,
                ) == Some(request@),
                Err(error) => error is FromRsaError && ready_request(
                    challenge_infos@,
                    nonce@,
                    acc_url@,
                    private_key@.pem,
                ) is None,
            },
    {
        signed_post(
            challenge_infos.url.as_str(),
            nonce,
            KeyId::Kid(String::from_str(acc_url)),
            Payload::Json(String::from_str("{}")),
            private_key,
            None,
        )
    }

    /// Prepares the completion of the HTTP challenge: picks the challenge,
    /// derives the key authorization that the responder has to serve under
    /// the token, and builds the request that asks the server to validate.
    /// Where the account key gives no signature, the result is
    /// `FromRsaError`.
    pub fn complete_http_challenge(self, nonce: Nonce, account_url: &str, p_key: &RsaKey) -> (out:
        Result<HttpChallenge, Error>)
        ensures
            match chosen_challenge(self@) {
                Ok(chosen) => match http_challenge_plan(chosen, nonce@, account_url@, p_key@) {
                    Some(plan) => out matches Ok(challenge) && challenge@ == plan,
                    None => out matches Err(error) && error is FromRsaError,
                },
                Err(error) => out == Err::<HttpChallenge, Error>(error),
            },
    {
        let http_challenge = match self.http_challenge() {
            Ok(challenge) => challenge,
            Err(error) => {
                return Err(error);
            },
        };
        let key = match jwk(p_key) {
            Ok(key) => key,
            Err(error) => {
                return Err(error);
            },
        };
        let key_authorization = key.key_authorization(http_challenge.token.as_str());
        match ChallengeAuthorisation::kick_off_http_challenge(
            &http_challenge,
            nonce,
            account_url,
            p_key,
        ) {
            Ok(ready) => Ok(
                HttpChallenge { token: http_challenge.token, key_authorization, ready },
            ),
            Err(error) => Err(error),
        }
    }
}

/// An order as the server reports it once finalization was asked for.
#[derive(Debug)]
pub struct UpdatedOrder {
    order: Order,
}

impl View for UpdatedOrder {
    type V = OrderView;

    closed spec fn view(&self) -> OrderView {
        self.order@
    }
}

impl UpdatedOrder {
    /// Makes an updated order of the order that a response reports.
    pub fn new(order: Order) -> (updated: UpdatedOrder)
        ensures
            updated@ == order@,
    {
        UpdatedOrder { order }
    }

    /// The order itself.
    pub fn order(&self) -> (order: &Order)
        ensures
            order@ == self@,
    {
        &self.order
    }

    /// Builds the request that downloads the issued certificate: a
    /// POST-as-GET to the certificate URL that accepts a PEM chain. An order
    /// that is not valid has no certificate yet, which is `OrderNotReady`;
    /// where the account key gives no signature, the result is
    /// `FromRsaError`.
    pub fn download_certificate(&self, nonce: Nonce, account_url: &str, p_key: &RsaKey) -> (out:
        Result<SignedRequest, Error>)
        ensures
            match self@.certificate {
                Some(url) => self@.status == StatusType::Valid && match post_as_get_request(
                    url,
                    nonce@,
                    account_url@,
                    p_key@.pem,
                    Some(pem_chain_media_type()),
                ) {
                    Some(request) => out matches Ok(built) && built@ == request,
                    None => out matches Err(error) && error is FromRsaError,
                },
                None => self@.status != StatusType::Valid && out == Err::<SignedRequest, Error>(
                    Error::OrderNotReady,
                ),
            },
    {
        match self.order.certificate() {
            Some(url) => post_as_get(
                url.as_str(),
                nonce,
                account_url,
                p_key,
                Some(String::from_str("application/pem-certificate-chain")),
            ),
            None => Err(Error::OrderNotReady),
        }
    }
}

} // verus!
