use acme_rs::error::Error;

fn kind(token: &str) -> Option<Error> {
    Error::from_problem_type(&format!("urn:ietf:params:acme:error:{}", token))
}

#[test]
fn problem_types_name_their_kinds() {
    assert_eq!(kind("accountDoesNotExist"), Some(Error::AccountDoesNotExist));
    assert_eq!(kind("alreadyRevoked"), Some(Error::AlreadyRevoked));
    assert_eq!(kind("badCSR"), Some(Error::BadCSR));
    assert_eq!(kind("badNonce"), Some(Error::BadNonce));
    assert_eq!(kind("badPublicKey"), Some(Error::BadPublicKey));
    assert_eq!(kind("badRevocationReason"), Some(Error::BadRevocationReason));
    assert_eq!(kind("badSignatureAlgorithm"), Some(Error::BadSignatureAlgorithm));
    assert_eq!(kind("caa"), Some(Error::CAA));
    assert_eq!(kind("compound"), Some(Error::Compound));
    assert_eq!(kind("connection"), Some(Error::Connection));
    assert_eq!(kind("dns"), Some(Error::DNS));
    assert_eq!(kind("externalAccountRequired"), Some(Error::ExternalAccountRequired));
    assert_eq!(kind("incorrectResponse"), Some(Error::IncorrectResponse));
    assert_eq!(kind("invalidContact"), Some(Error::InvalidContact));
    assert_eq!(kind("malformed"), Some(Error::Malformed));
    assert_eq!(kind("orderNotReady"), Some(Error::OrderNotReady));
    assert_eq!(kind("rateLimited"), Some(Error::RateLimited));
    assert_eq!(kind("rejectedIdentifier"), Some(Error::RejectedIdentifier));
    assert_eq!(kind("serverInternal"), Some(Error::ServerInternal));
    assert_eq!(kind("tls"), Some(Error::TLS));
    assert_eq!(kind("unauthorized"), Some(Error::Unauthorized));
    assert_eq!(kind("unsupportedContact"), Some(Error::UnsupportedContact));
    assert_eq!(kind("unsupportedIdentifier"), Some(Error::UnsupportedIdentifier));
    assert_eq!(kind("userActionRequired"), Some(Error::UserActionRequired));
}

#[test]
fn unknown_problem_types_name_no_kind() {
    assert_eq!(kind("somethingElse"), None);
    assert_eq!(kind("BADNONCE"), None);
    assert_eq!(kind("badNonce "), None);
    assert_eq!(Error::from_problem_type(""), None);
    assert_eq!(Error::from_problem_type("about:blank"), None);
}

#[test]
fn a_problem_type_is_read_by_its_ending() {
    assert_eq!(Error::from_problem_type("badNonce"), Some(Error::BadNonce));
    assert_eq!(Error::from_problem_type("urn:acme:error:rateLimited"), Some(Error::RateLimited));
    assert_eq!(Error::from_problem_type("\u{e9}:tls"), Some(Error::TLS));
}

#[test]
fn errors_have_their_sentences() {
    assert_eq!(
        Error::BadNonce.to_string(),
        "The client sent an unacceptable anti-replay nonce"
    );
    assert_eq!(Error::RateLimited.to_string(), "The request exceeds a rate limit");
    assert_eq!(
        Error::Compound.to_string(),
        "Specific error conditions are indicated in the \"subproblems\" array"
    );
    assert_eq!(
        Error::NoHttpChallengePresent.to_string(),
        "Currently just http challenges are allowed, so this error is raised if no http challenge is present"
    );
    assert_eq!(
        Error::FromRsaError("bad key".to_string()).to_string(),
        "Error in openssl: bad key"
    );
    assert_eq!(Error::FromIoError("gone".to_string()).to_string(), "IO error gone");
    assert_eq!(
        Error::FromReqwestError("refused".to_string()).to_string(),
        "Error in reqwest: refused"
    );
    assert_eq!(
        Error::FromSerdeError("eof".to_string()).to_string(),
        "Error while de/encoding json: eof"
    );
    assert_eq!(
        Error::FromUtf8Error("bytes".to_string()).to_string(),
        "Error reading the string: bytes"
    );
    assert_eq!(
        Error::FromToStrError("header".to_string()).to_string(),
        "Error writing header value: header"
    );
}

#[test]
fn errors_have_their_names() {
    assert_eq!(Error::BadCSR.name(), "BadCSR");
    assert_eq!(Error::CAA.name(), "CAA");
    assert_eq!(Error::PortUnavailable.name(), "PortUnavailable");
    assert_eq!(Error::ValidationTimeout.name(), "ValidationTimeout");
    assert_eq!(Error::FromIoError("x".to_string()).name(), "FromIoError");
}

#[test]
fn a_failure_is_reported_in_one_line() {
    assert_eq!(
        Error::BadCSR.report("finalize", "public key too short"),
        "finalize: BadCSR \u{2014} public key too short"
    );
    assert_eq!(Error::RateLimited.report("newOrder", ""), "newOrder: RateLimited \u{2014} ");
}
