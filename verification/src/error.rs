//! The error kinds of the client, and how a problem document names them.

use crate::text::{chars_of, ends_with, is_suffix};
use vstd::prelude::*;

verus! {

/// An enumeration of all possible errors. The first group are the problem
/// kinds that an ACME server reports; the second are failures that the client
/// finds itself; the third wrap the message of a failure underneath.
#[derive(Debug, Clone, PartialEq, Eq)]
pub enum Error {
    AccountDoesNotExist,
    AlreadyRevoked,
    BadCSR,
    BadNonce,
    BadPublicKey,
    BadRevocationReason,
    BadSignatureAlgorithm,
    CAA,
    Compound,
    Connection,
    DNS,
    ExternalAccountRequired,
    IncorrectResponse,
    InvalidContact,
    Malformed,
    OrderNotReady,
    RateLimited,
    RejectedIdentifier,
    ServerInternal,
    TLS,
    Unauthorized,
    UnsupportedContact,
    UnsupportedIdentifier,
    UserActionRequired,
    NoHttpChallengePresent,
    PortUnavailable,
    ValidationTimeout,
    /// Wraps the message of text that is not valid UTF-8.
    FromUtf8Error(String),
    /// Wraps the message of a failure of the HTTP transport.
    FromReqwestError(String),
    /// Wraps the message of a failure of the cryptographic library.
    FromRsaError(String),
    /// Wraps the message of a JSON document that could not be read or written.
    FromSerdeError(String),
    /// Wraps the message of a header value that is not visible ASCII.
    FromToStrError(String),
    /// Wraps the message of a failure of file or socket I/O.
    FromIoError(String),
}

/// The error kind that a problem document's `type` names: the kind whose
/// token the type ends in, if it ends in one.
pub open spec fn problem_kind(problem_type: Seq<char>) -> Option<Error> {
    if is_suffix(problem_type, "accountDoesNotExist"@) {
        Some(Error::AccountDoesNotExist)
    } else if is_suffix(problem_type, "alreadyRevoked"@) {
        Some(Error::AlreadyRevoked)
    } else if is_suffix(problem_type, "badCSR"@) {
        Some(Error::BadCSR)
    } else if is_suffix(problem_type, "badNonce"@) {
        Some(Error::BadNonce)
    } else if is_suffix(problem_type, "badPublicKey"@) {
        Some(Error::BadPublicKey)
    } else if is_suffix(problem_type, "badRevocationReason"@) {
        Some(Error::BadRevocationReason)
    } else if is_suffix(problem_type, "badSignatureAlgorithm"@) {
        Some(Error::BadSignatureAlgorithm)
    } else if is_suffix(problem_type, "caa"@) {
        Some(Error::CAA)
    } else if is_suffix(problem_type, "compound"@) {
        Some(Error::Compound)
    } else if is_suffix(problem_type, "connection"@) {
        Some(Error::Connection)
    } else if is_suffix(problem_type, "dns"@) {
        Some(Error::DNS)
    } else if is_suffix(problem_type, "externalAccountRequired"@) {
        Some(Error::ExternalAccountRequired)
    } else if is_suffix(problem_type, "incorrectResponse"@) {
        Some(Error::IncorrectResponse)
    } else if is_suffix(problem_type, "invalidContact"@) {
        Some(Error::InvalidContact)
    } else if is_suffix(problem_type, "malformed"@) {
        Some(Error::Malformed)
    } else if is_suffix(problem_type, "orderNotReady"@) {
        Some(Error::OrderNotReady)
    } else if is_suffix(problem_type, "rateLimited"@) {
        Some(Error::RateLimited)
    } else if is_suffix(problem_type, "rejectedIdentifier"@) {
        Some(Error::RejectedIdentifier)
    } else if is_suffix(problem_type, "serverInternal"@) {
        Some(Error::ServerInternal)
    } else if is_suffix(problem_type, "tls"@) {
        Some(Error::TLS)
    } else if is_suffix(problem_type, "unauthorized"@) {
        Some(Error::Unauthorized)
    } else if is_suffix(problem_type, "unsupportedContact"@) {
        Some(Error::UnsupportedContact)
    } else if is_suffix(problem_type, "unsupportedIdentifier"@) {
        Some(Error::UnsupportedIdentifier)
    } else if is_suffix(problem_type, "userActionRequired"@) {
        Some(Error::UserActionRequired)
    } else {
        None
    }
}

/// The name of an error kind, as a diagnostic line shows it.
pub open spec fn kind_name(error: Error) -> Seq<char> {
    match error {
        Error::AccountDoesNotExist => "AccountDoesNotExist"@,
        Error::AlreadyRevoked => "AlreadyRevoked"@,
        Error::BadCSR => "BadCSR"@,
        Error::BadNonce => "BadNonce"@,
        Error::BadPublicKey => "BadPublicKey"@,
        Error::BadRevocationReason => "BadRevocationReason"@,
        Error::BadSignatureAlgorithm => "BadSignatureAlgorithm"@,
        Error::CAA => "CAA"@,
        Error::Compound => "Compound"@,
        Error::Connection => "Connection"@,
        Error::DNS => "DNS"@,
        Error::ExternalAccountRequired => "ExternalAccountRequired"@,
        Error::IncorrectResponse => "IncorrectResponse"@,
        Error::InvalidContact => "InvalidContact"@,
        Error::Malformed => "Malformed"@,
        Error::OrderNotReady => "OrderNotReady"@,
        Error::RateLimited => "RateLimited"@,
        Error::RejectedIdentifier => "RejectedIdentifier"@,
        Error::ServerInternal => "ServerInternal"@,
        Error::TLS => "TLS"@,
        Error::Unauthorized => "Unauthorized"@,
        Error::UnsupportedContact => "UnsupportedContact"@,
        Error::UnsupportedIdentifier => "UnsupportedIdentifier"@,
        Error::UserActionRequired => "UserActionRequired"@,
        Error::NoHttpChallengePresent => "NoHttpChallengePresent"@,
        Error::PortUnavailable => "PortUnavailable"@,
        Error::ValidationTimeout => "ValidationTimeout"@,
        Error::FromUtf8Error(_) => "FromUtf8Error"@,
        Error::FromReqwestError(_) => "FromReqwestError"@,
        Error::FromRsaError(_) => "FromRsaError"@,
        Error::FromSerdeError(_) => "FromSerdeError"@,
        Error::FromToStrError(_) => "FromToStrError"@,
        Error::FromIoError(_) => "FromIoError"@,
    }
}

/// The sentence that describes an error.
pub open spec fn message(error: Error) -> Seq<char> {
    match error {
        Error::AccountDoesNotExist => "The request specified an account that does not exist"@,
        Error::AlreadyRevoked => "The request specified a certificate to be revoked that has already been revoked"@,
        Error::BadCSR => "The CSR is unacceptable (e.g., due to a short key)"@,
        Error::BadNonce => "The client sent an unacceptable anti-replay nonce"@,
        Error::BadPublicKey => "The JWS was signed by a public key the server does not support"@,
        Error::BadRevocationReason => "The revocation reason provided is not allowed by the server"@,
        Error::BadSignatureAlgorithm => "The JWS was signed with an algorithm the server does not support"@,
        Error::CAA => "Certification Authority Authorization (CAA) records forbid the CA from issuing a certificate"@,
        Error::Compound => "Specific error conditions are indicated in the \"subproblems\" array"@,
        Error::Connection => "The server could not connect to validation target"@,
        Error::DNS => "There was a problem with a DNS query during identifier validation"@,
        Error::ExternalAccountRequired => "The request must include a value for the \"externalAccountBinding\" field"@,
        Error::IncorrectResponse => "Response received didn't match the challenge's requirements"@,
        Error::InvalidContact => "A contact URL for an account was invalid"@,
        Error::Malformed => "The request message was malformed"@,
        Error::OrderNotReady => "The request attempted to finalize an order that is not ready to be finalized"@,
        Error::RateLimited => "The request exceeds a rate limit"@,
        Error::RejectedIdentifier => "The server will not issue certificates for the identifier"@,
        Error::ServerInternal => "The server experienced an internal error"@,
        Error::TLS => "The server received a TLS error during validation"@,
        Error::Unauthorized => "The client lacks sufficient authorization"@,
        Error::UnsupportedContact => "A contact URL for an account used an unsupported protocol scheme"@,
        Error::UnsupportedIdentifier => "An identifier is of an unsupported type"@,
        Error::UserActionRequired => "Visit the \"instance\" URL and take actions specified there"@,
        Error::NoHttpChallengePresent => "Currently just http challenges are allowed, so this error is raised if no http challenge is present"@,
        Error::PortUnavailable => "Port 80 is already in use, so the challenge responder cannot listen on it"@,
        Error::ValidationTimeout => "The server did not finish validation before the deadline"@,
        Error::FromUtf8Error(inner) => "Error reading the string: "@ + inner@,
        Error::FromReqwestError(inner) => "Error in reqwest: "@ + inner@,
        Error::FromRsaError(inner) => "Error in openssl: "@ + inner@,
        Error::FromSerdeError(inner) => "Error while de/encoding json: "@ + inner@,
        Error::FromToStrError(inner) => "Error writing header value: "@ + inner@,
        Error::FromIoError(inner) => "IO error "@ + inner@,
    }
}

/// The line that reports a failure: the stage, the kind, and the detail
/// that came with it.
pub open spec fn failure_line(stage: Seq<char>, error: Error, detail: Seq<char>) -> Seq<char> {
    stage + ": "@ + kind_name(error) + " \u{2014} "@ + detail
}

impl Error {
    /// Maps the `type` of a problem document to the error kind it names.
    pub fn from_problem_type(problem_type: &str) -> (out: Option<Error>)
        ensures
            out == problem_kind(problem_type@),
    {
        let t = chars_of(problem_type);
        if ends_with(&t, "accountDoesNotExist") {
            Some(Error::AccountDoesNotExist)
        } else if ends_with(&t, "alreadyRevoked") {
            Some(Error::AlreadyRevoked)
        } else if ends_with(&t, "badCSR") {
            Some(Error::BadCSR)
        } else if ends_with(&t, "badNonce") {
            Some(Error::BadNonce)
        } else if ends_with(&t, "badPublicKey") {
            Some(Error::BadPublicKey)
        } else if ends_with(&t, "badRevocationReason") {
            Some(Error::BadRevocationReason)
        } else if ends_with(&t, "badSignatureAlgorithm") {
            Some(Error::BadSignatureAlgorithm)
        } else if ends_with(&t, "caa") {
            Some(Error::CAA)
        } else if ends_with(&t, "compound") {
            Some(Error::Compound)
        } else if ends_with(&t, "connection") {
            Some(Error::Connection)
        } else if ends_with(&t, "dns") {
            Some(Error::DNS)
        } else if ends_with(&t, "externalAccountRequired") {
            Some(Error::ExternalAccountRequired)
        } else if ends_with(&t, "incorrectResponse") {
            Some(Error::IncorrectResponse)
        } else if ends_with(&t, "invalidContact") {
            Some(Error::InvalidContact)
        } else if ends_with(&t, "malformed") {
            Some(Error::Malformed)
        } else if ends_with(&t, "orderNotReady") {
            Some(Error::OrderNotReady)
        } else if ends_with(&t, "rateLimited") {
            Some(Error::RateLimited)
        } else if ends_with(&t, "rejectedIdentifier") {
            Some(Error::RejectedIdentifier)
        } else if ends_with(&t, "serverInternal") {
            Some(Error::ServerInternal)
        } else if ends_with(&t, "tls") {
            Some(Error::TLS)
        } else if ends_with(&t, "unauthorized") {
            Some(Error::Unauthorized)
        } else if ends_with(&t, "unsupportedContact") {
            Some(Error::UnsupportedContact)
        } else if ends_with(&t, "unsupportedIdentifier") {
            Some(Error::UnsupportedIdentifier)
        } else if ends_with(&t, "userActionRequired") {
            Some(Error::UserActionRequired)
        } else {
            None
        }
    }

    /// Whether the error is one of the problem kinds that a server reports.
    pub open spec fn is_problem(self) -> bool {
        match self {
            Error::AccountDoesNotExist => true,
            Error::AlreadyRevoked => true,
            Error::BadCSR => true,
            Error::BadNonce => true,
            Error::BadPublicKey => true,
            Error::BadRevocationReason => true,
            Error::BadSignatureAlgorithm => true,
            Error::CAA => true,
            Error::Compound => true,
            Error::Connection => true,
            Error::DNS => true,
            Error::ExternalAccountRequired => true,
            Error::IncorrectResponse => true,
            Error::InvalidContact => true,
            Error::Malformed => true,
            Error::OrderNotReady => true,
            Error::RateLimited => true,
            Error::RejectedIdentifier => true,
            Error::ServerInternal => true,
            Error::TLS => true,
            Error::Unauthorized => true,
            Error::UnsupportedContact => true,
            Error::UnsupportedIdentifier => true,
            Error::UserActionRequired => true,
            _ => false,
        }
    }

    /// The name of the error kind.
    pub fn name(&self) -> (out: String)
        ensures
            out@ == kind_name(*self),
    {
        match self {
            Error::AccountDoesNotExist => String::from_str("AccountDoesNotExist"),
            Error::AlreadyRevoked => String::from_str("AlreadyRevoked"),
            Error::BadCSR => String::from_str("BadCSR"),
            Error::BadNonce => String::from_str("BadNonce"),
            Error::BadPublicKey => String::from_str("BadPublicKey"),
            Error::BadRevocationReason => String::from_str("BadRevocationReason"),
            Error::BadSignatureAlgorithm => String::from_str("BadSignatureAlgorithm"),
            Error::CAA => String::from_str("CAA"),
            Error::Compound => String::from_str("Compound"),
            Error::Connection => String::from_str("Connection"),
            Error::DNS => String::from_str("DNS"),
            Error::ExternalAccountRequired => String::from_str("ExternalAccountRequired"),
            Error::IncorrectResponse => String::from_str("IncorrectResponse"),
            Error::InvalidContact => String::from_str("InvalidContact"),
            Error::Malformed => String::from_str("Malformed"),
            Error::OrderNotReady => String::from_str("OrderNotReady"),
            Error::RateLimited => String::from_str("RateLimited"),
            Error::RejectedIdentifier => String::from_str("RejectedIdentifier"),
            Error::ServerInternal => String::from_str("ServerInternal"),
            Error::TLS => String::from_str("TLS"),
            Error::Unauthorized => String::from_str("Unauthorized"),
            Error::UnsupportedContact => String::from_str("UnsupportedContact"),
            Error::UnsupportedIdentifier => String::from_str("UnsupportedIdentifier"),
            Error::UserActionRequired => String::from_str("UserActionRequired"),
            Error::NoHttpChallengePresent => String::from_str("NoHttpChallengePresent"),
            Error::PortUnavailable => String::from_str("PortUnavailable"),
            Error::ValidationTimeout => String::from_str("ValidationTimeout"),
            Error::FromUtf8Error(_) => String::from_str("FromUtf8Error"),
            Error::FromReqwestError(_) => String::from_str("FromReqwestError"),
            Error::FromRsaError(_) => String::from_str("FromRsaError"),
            Error::FromSerdeError(_) => String::from_str("FromSerdeError"),
            Error::FromToStrError(_) => String::from_str("FromToStrError"),
            Error::FromIoError(_) => String::from_str("FromIoError"),
        }
    }

    /// The sentence that describes the error.
    pub fn to_string(&self) -> (out: String)
        ensures
            out@ == message(*self),
    {
        match self {
            Error::AccountDoesNotExist => String::from_str("The request specified an account that does not exist"),
            Error::AlreadyRevoked => String::from_str("The request specified a certificate to be revoked that has already been revoked"),
            Error::BadCSR => String::from_str("The CSR is unacceptable (e.g., due to a short key)"),
            Error::BadNonce => String::from_str("The client sent an unacceptable anti-replay nonce"),
            Error::BadPublicKey => String::from_str("The JWS was signed by a public key the server does not support"),
            Error::BadRevocationReason => String::from_str("The revocation reason provided is not allowed by the server"),
            Error::BadSignatureAlgorithm => String::from_str("The JWS was signed with an algorithm the server does not support"),
            Error::CAA => String::from_str("Certification Authority Authorization (CAA) records forbid the CA from issuing a certificate"),
            Error::Compound => String::from_str("Specific error conditions are indicated in the \"subproblems\" array"),
            Error::Connection => String::from_str("The server could not connect to validation target"),
            Error::DNS => String::from_str("There was a problem with a DNS query during identifier validation"),
            Error::ExternalAccountRequired => String::from_str("The request must include a value for the \"externalAccountBinding\" field"),
            Error::IncorrectResponse => String::from_str("Response received didn't match the challenge's requirements"),
            Error::InvalidContact => String::from_str("A contact URL for an account was invalid"),
            Error::Malformed => String::from_str("The request message was malformed"),
            Error::OrderNotReady => String::from_str("The request attempted to finalize an order that is not ready to be finalized"),
            Error::RateLimited => String::from_str("The request exceeds a rate limit"),
            Error::RejectedIdentifier => String::from_str("The server will not issue certificates for the identifier"),
            Error::ServerInternal => String::from_str("The server experienced an internal error"),
            Error::TLS => String::from_str("The server received a TLS error during validation"),
            Error::Unauthorized => String::from_str("The client lacks sufficient authorization"),
            Error::UnsupportedContact => String::from_str("A contact URL for an account used an unsupported protocol scheme"),
            Error::UnsupportedIdentifier => String::from_str("An identifier is of an unsupported type"),
            Error::UserActionRequired => String::from_str("Visit the \"instance\" URL and take actions specified there"),
            Error::NoHttpChallengePresent => String::from_str("Currently just http challenges are allowed, so this error is raised if no http challenge is present"),
            Error::PortUnavailable => String::from_str("Port 80 is already in use, so the challenge responder cannot listen on it"),
            Error::ValidationTimeout => String::from_str("The server did not finish validation before the deadline"),
            Error::FromUtf8Error(inner) => String::from_str("Error reading the string: ").concat(inner.as_str()),
            Error::FromReqwestError(inner) => String::from_str("Error in reqwest: ").concat(inner.as_str()),
            Error::FromRsaError(inner) => String::from_str("Error in openssl: ").concat(inner.as_str()),
            Error::FromSerdeError(inner) => String::from_str("Error while de/encoding json: ").concat(inner.as_str()),
            Error::FromToStrError(inner) => String::from_str("Error writing header value: ").concat(inner.as_str()),
            Error::FromIoError(inner) => String::from_str("IO error ").concat(inner.as_str()),
        }
    }

    /// The line that reports this error for a stage of the issuance, with the
    /// detail that came with it.
    pub fn report(&self, stage: &str, detail: &str) -> (out: String)
        ensures
            out@ == failure_line(stage@, *self, detail@),
    {
        let mut line = String::from_str(stage);
        line.append(": ");
        line.append(self.name().as_str());
        line.append(" \u{2014} ");
        line.append(detail);
        line
    }
}

} // verus!
