use acme_rs::base64url::b64_decode;
use acme_rs::crypto::{KeyPair, RsaKey};
use acme_rs::driver::{
    classify, failure, retry_after_seconds, Action, Body, Driver, Event, Expect, Failure, Problem,
};
use acme_rs::error::Error;
use acme_rs::machine::{Answer, Cause, Control, Offer, Phase, Seen, Step};
use acme_rs::persist::leaf_certificate;
use acme_rs::types::{
    Account, Challenge, ChallengeAuthorisation, Directory, Order, SignedRequest, StatusType,
};
use acme_rs::util::{generate_rsa_key, generate_rsa_keypair, jwk, Response};
use serde_json::Value;

const SERVER: &str = "https://ca.test/directory";
const KID: &str = "https://ca.test/acme/acct/1";
const CHAIN: &str = "-----BEGIN CERTIFICATE-----\nleaf\n-----END CERTIFICATE-----\n\n-----BEGIN CERTIFICATE-----\nissuer\n-----END CERTIFICATE-----\n";

/// A driver that is stepped in place.
struct Run(Option<Driver>);

impl Run {
    fn step(&mut self, event: Event) -> Action {
        let (next, action) = self.0.take().unwrap().step(event);
        self.0 = Some(next);
        action
    }

    fn control(&self) -> Control {
        self.0.as_ref().unwrap().control()
    }

    fn is_finished(&self) -> bool {
        self.0.as_ref().unwrap().is_finished()
    }
}

fn driver(standalone: bool) -> Run {
    Run(Some(
        Driver::new(
            SERVER.to_string(),
            "a@example.test".to_string(),
            "example.test".to_string(),
            standalone,
            None,
            generate_rsa_key().unwrap(),
            generate_rsa_keypair().unwrap(),
        )
        .unwrap(),
    ))
}

fn answer(status: u16, nonce: Option<&str>, body: Body) -> Event {
    Event::Response(Response {
        status,
        replay_nonce: nonce.map(|text| text.to_string()),
        location: None,
        retry_after: None,
        body,
        elapsed: 0,
    })
}

fn located(status: u16, nonce: &str, location: &str, body: Body) -> Event {
    Event::Response(Response {
        status,
        replay_nonce: Some(nonce.to_string()),
        location: Some(location.to_string()),
        retry_after: None,
        body,
        elapsed: 0,
    })
}

fn directory_body() -> Body {
    Body::Directory(Directory {
        new_nonce: "https://ca.test/acme/new-nonce".to_string(),
        new_account: "https://ca.test/acme/new-acct".to_string(),
        new_order: "https://ca.test/acme/new-order".to_string(),
        revoke_cert: "https://ca.test/acme/revoke-cert".to_string(),
        key_change: "https://ca.test/acme/key-change".to_string(),
        meta: None,
    })
}

fn account_body() -> Body {
    Body::Account(Account {
        status: StatusType::Valid,
        contact: vec!["mailto:a@example.test".to_string()],
        orders: None,
        account_location: String::new(),
    })
}

fn order_body(status: StatusType) -> Body {
    let certificate = if status == StatusType::Valid {
        Some("https://ca.test/acme/cert/1".to_string())
    } else {
        None
    };
    Body::Order(
        Order::new(
            status,
            "2030-01-01T00:00:00Z".to_string(),
            vec!["example.test".to_string()],
            vec!["https://ca.test/acme/authz/1".to_string()],
            "https://ca.test/acme/order/1/finalize".to_string(),
            certificate,
        )
        .unwrap(),
    )
}

fn authorization_body(status: StatusType, kinds: &[&str]) -> Body {
    Body::Authorization(ChallengeAuthorisation {
        identifier: "example.test".to_string(),
        status,
        expires: "2030-01-01T00:00:00Z".to_string(),
        challenges: kinds
            .iter()
            .map(|kind| Challenge {
                status: StatusType::Pending,
                token: format!("token-{}", kind),
                challenge_type: kind.to_string(),
                url: format!("https://ca.test/acme/chall/{}", kind),
            })
            .collect(),
        wildcard: None,
    })
}

fn problem(kind: &str, detail: &str) -> Body {
    Body::Problem(Problem {
        problem_type: format!("urn:ietf:params:acme:error:{}", kind),
        detail: detail.to_string(),
    })
}

fn decoded(segment: &Value) -> String {
    String::from_utf8(b64_decode(segment.as_str().unwrap()).unwrap()).unwrap()
}

fn header_and_payload(request: &SignedRequest) -> (Value, String) {
    let body: Value = serde_json::from_str(&request.body).unwrap();
    let header: Value = serde_json::from_str(&decoded(&body["protected"])).unwrap();
    assert_eq!(header["url"], request.url.as_str());
    (header, decoded(&body["payload"]))
}

fn posted(action: Action, url: &str, nonce: &str, expect: Expect) -> (Value, String) {
    match action {
        Action::Post { request, nonce: used, expect: expected } => {
            assert_eq!(request.url, url);
            assert_eq!(used, nonce);
            assert_eq!(expected, expect);
            let (header, payload) = header_and_payload(&request);
            assert_eq!(header["nonce"], nonce);
            (header, payload)
        }
        other => panic!("no request: {}", shown(&other)),
    }
}

fn shown(action: &Action) -> String {
    match action {
        Action::ProbePort => "ProbePort".to_string(),
        Action::Get { url } => format!("Get {}", url),
        Action::Head { url } => format!("Head {}", url),
        Action::Post { request, .. } => format!("Post {}", request.url),
        Action::StartResponder { token, .. } => format!("StartResponder {}", token),
        Action::StopResponder => "StopResponder".to_string(),
        Action::Sleep { seconds } => format!("Sleep {}", seconds),
        Action::Done { .. } => "Done".to_string(),
        Action::Fail(failure) => failure.line(),
    }
}

fn failed(action: Action) -> Failure {
    match action {
        Action::Fail(failure) => failure,
        other => panic!("no failure: {}", shown(&other)),
    }
}

fn with_order(standalone: bool) -> Run {
    let mut driver = driver(standalone);
    if standalone {
        assert_eq!(shown(&driver.step(Event::Start)), "ProbePort");
        assert_eq!(shown(&driver.step(Event::PortAvailable)), format!("Get {}", SERVER));
    } else {
        assert_eq!(shown(&driver.step(Event::Start)), format!("Get {}", SERVER));
    }
    assert_eq!(
        shown(&driver.step(answer(200, None, directory_body()))),
        "Head https://ca.test/acme/new-nonce"
    );
    posted(
        driver.step(answer(200, Some("n1"), Body::Empty)),
        "https://ca.test/acme/new-acct",
        "n1",
        Expect::Account,
    );
    posted(
        driver.step(located(201, "n2", KID, account_body())),
        "https://ca.test/acme/new-order",
        "n2",
        Expect::Order,
    );
    driver
}

fn with_authorization(standalone: bool) -> Run {
    let mut driver = with_order(standalone);
    posted(
        driver.step(located(201, "n3", "https://ca.test/acme/order/1", order_body(StatusType::Pending))),
        "https://ca.test/acme/authz/1",
        "n3",
        Expect::Authorization,
    );
    driver
}

fn polling(standalone: bool) -> Run {
    let mut driver = with_authorization(standalone);
    let action =
        driver.step(answer(200, Some("n4"), authorization_body(StatusType::Pending, &["http-01"])));
    if standalone {
        assert_eq!(shown(&action), "StartResponder token-http-01");
        posted(
            driver.step(Event::ResponderReady),
            "https://ca.test/acme/chall/http-01",
            "n4",
            Expect::Nothing,
        );
    } else {
        posted(action, "https://ca.test/acme/chall/http-01", "n4", Expect::Nothing);
    }
    assert_eq!(shown(&driver.step(answer(200, Some("n5"), Body::Empty))), "Sleep 2");
    posted(driver.step(Event::Woke), "https://ca.test/acme/authz/1", "n5", Expect::Authorization);
    driver
}

#[test]
fn the_two_keys_have_to_differ() {
    let key = generate_rsa_key().unwrap();
    let same = RsaKey::from_pem(key.private_pem().clone()).unwrap();
    let pair = KeyPair::of_private(same).unwrap();
    let made = Driver::new(
        SERVER.to_string(),
        "a@example.test".to_string(),
        "example.test".to_string(),
        false,
        None,
        key,
        pair,
    );
    assert_eq!(made.map(|_| ()), Err(Error::BadPublicKey));
}

#[test]
fn happy_path_with_responder() {
    let mut driver = driver(true);
    assert_eq!(driver.control().step, Step::Directory);
    assert_eq!(shown(&driver.step(Event::Start)), "ProbePort");
    assert_eq!(shown(&driver.step(Event::PortAvailable)), format!("Get {}", SERVER));
    assert_eq!(
        shown(&driver.step(answer(200, None, directory_body()))),
        "Head https://ca.test/acme/new-nonce"
    );
    let (header, payload) = posted(
        driver.step(answer(200, Some("n1"), Body::Empty)),
        "https://ca.test/acme/new-acct",
        "n1",
        Expect::Account,
    );
    assert!(header.get("jwk").is_some() && header.get("kid").is_none());
    assert_eq!(payload, "{\"termsOfServiceAgreed\":true,\"contact\":[\"mailto:a@example.test\"]}");
    let (header, payload) = posted(
        driver.step(located(201, "n2", KID, account_body())),
        "https://ca.test/acme/new-order",
        "n2",
        Expect::Order,
    );
    assert_eq!(header["kid"], KID);
    assert!(header.get("jwk").is_none());
    assert_eq!(payload, "{\"identifiers\":[{\"type\":\"dns\",\"value\":\"example.test\"}]}");
    let (header, payload) = posted(
        driver.step(located(201, "n3", "https://ca.test/acme/order/1", order_body(StatusType::Pending))),
        "https://ca.test/acme/authz/1",
        "n3",
        Expect::Authorization,
    );
    assert_eq!(header["kid"], KID);
    assert_eq!(payload, "");
    match driver
        .step(answer(200, Some("n4"), authorization_body(StatusType::Pending, &["dns-01", "http-01"])))
    {
        Action::StartResponder { token, key_authorization } => {
            assert_eq!(token, "token-http-01");
            assert!(key_authorization.starts_with("token-http-01."));
            assert_eq!(key_authorization.len(), "token-http-01.".len() + 43);
        }
        other => panic!("unexpected: {}", shown(&other)),
    }
    assert!(!driver.control().responder_running);
    let (_, payload) = posted(
        driver.step(Event::ResponderReady),
        "https://ca.test/acme/chall/http-01",
        "n4",
        Expect::Nothing,
    );
    assert_eq!(payload, "{}");
    assert!(driver.control().responder_running);
    assert_eq!(shown(&driver.step(answer(200, Some("n5"), Body::Empty))), "Sleep 2");
    posted(driver.step(Event::Woke), "https://ca.test/acme/authz/1", "n5", Expect::Authorization);
    let pending = Event::Response(Response {
        status: 200,
        replay_nonce: Some("n6".to_string()),
        location: None,
        retry_after: Some(3),
        body: authorization_body(StatusType::Pending, &["http-01"]),
        elapsed: 0,
    });
    assert_eq!(shown(&driver.step(pending)), "Sleep 3");
    posted(driver.step(Event::Woke), "https://ca.test/acme/authz/1", "n6", Expect::Authorization);
    assert_eq!(
        shown(&driver.step(answer(200, Some("n7"), authorization_body(StatusType::Valid, &["http-01"])))),
        "StopResponder"
    );
    let (_, payload) = posted(
        driver.step(Event::ResponderStopped),
        "https://ca.test/acme/order/1/finalize",
        "n7",
        Expect::Order,
    );
    assert!(!driver.control().responder_running);
    let payload: Value = serde_json::from_str(&payload).unwrap();
    let csr = b64_decode(payload["csr"].as_str().unwrap()).unwrap();
    assert!(openssl::x509::X509Req::from_der(&csr).is_ok());
    assert_eq!(
        shown(&driver.step(answer(200, Some("n8"), order_body(StatusType::Processing)))),
        "Sleep 2"
    );
    posted(driver.step(Event::Woke), "https://ca.test/acme/order/1", "n8", Expect::Order);
    match driver.step(answer(200, Some("n9"), order_body(StatusType::Valid))) {
        Action::Post { request, nonce, expect } => {
            assert_eq!(request.url, "https://ca.test/acme/cert/1");
            assert_eq!(request.accept.as_deref(), Some("application/pem-certificate-chain"));
            assert_eq!(request.content_type, "application/jose+json");
            assert_eq!(nonce, "n9");
            assert_eq!(expect, Expect::Certificate);
            assert_eq!(header_and_payload(&request).1, "");
        }
        other => panic!("unexpected: {}", shown(&other)),
    }
    assert!(!driver.is_finished());
    match driver.step(answer(200, Some("n10"), Body::Certificate(CHAIN.to_string()))) {
        Action::Done { certificate_chain } => {
            assert_eq!(certificate_chain, CHAIN);
            assert_eq!(leaf_certificate(&certificate_chain).matches("BEGIN").count(), 1);
            assert!(certificate_chain.matches("BEGIN").count() >= 2);
        }
        other => panic!("unexpected: {}", shown(&other)),
    }
    assert!(driver.is_finished());
    assert_eq!(driver.control().phase, Phase::Finished);
    assert_eq!(failed(driver.step(Event::Woke)).error, Error::IncorrectResponse);
}

#[test]
fn happy_path_without_responder() {
    let mut driver = polling(false);
    posted(
        driver.step(answer(200, Some("n6"), authorization_body(StatusType::Valid, &["http-01"]))),
        "https://ca.test/acme/order/1/finalize",
        "n6",
        Expect::Order,
    );
    posted(
        driver.step(answer(200, Some("n7"), order_body(StatusType::Valid))),
        "https://ca.test/acme/cert/1",
        "n7",
        Expect::Certificate,
    );
    match driver.step(answer(200, None, Body::Certificate(CHAIN.to_string()))) {
        Action::Done { certificate_chain } => assert_eq!(certificate_chain, CHAIN),
        other => panic!("unexpected: {}", shown(&other)),
    }
}

#[test]
fn a_supplied_csr_is_sent_as_it_is() {
    let subject = generate_rsa_keypair().unwrap();
    let csr = subject.csr("other.example.test").unwrap();
    let mut driver = Run(Some(
        Driver::new(
            SERVER.to_string(),
            "a@example.test".to_string(),
            "example.test".to_string(),
            false,
            Some(csr.clone()),
            generate_rsa_key().unwrap(),
            subject,
        )
        .unwrap(),
    ));
    driver.step(Event::Start);
    driver.step(answer(200, Some("n0"), directory_body()));
    driver.step(located(201, "n2", KID, account_body()));
    driver.step(located(201, "n3", "https://ca.test/acme/order/1", order_body(StatusType::Ready)));
    let (_, payload) = posted(
        driver.step(answer(200, Some("n4"), authorization_body(StatusType::Valid, &[]))),
        "https://ca.test/acme/order/1/finalize",
        "n4",
        Expect::Order,
    );
    let payload: Value = serde_json::from_str(&payload).unwrap();
    assert_eq!(b64_decode(payload["csr"].as_str().unwrap()).unwrap(), csr);
}

#[test]
fn a_supplied_csr_has_to_carry_the_subject_key() {
    let other = generate_rsa_keypair().unwrap().csr("example.test").unwrap();
    let made = |csr: Vec<u8>| {
        Driver::new(
            SERVER.to_string(),
            "a@example.test".to_string(),
            "example.test".to_string(),
            false,
            Some(csr),
            generate_rsa_key().unwrap(),
            generate_rsa_keypair().unwrap(),
        )
        .map(|_| ())
    };
    assert_eq!(made(other), Err(Error::BadCSR));
    assert_eq!(made(vec![0xfb, 0xff, 0xbf]), Err(Error::BadCSR));
    assert_eq!(made(Vec::new()), Err(Error::BadCSR));
}

#[test]
fn the_built_csr_carries_the_subject_key() {
    let subject = generate_rsa_keypair().unwrap();
    let csr = subject.csr("example.test").unwrap();
    assert!(subject.private().is_key_of(&csr));
    assert!(!generate_rsa_key().unwrap().is_key_of(&csr));
    assert!(!subject.private().is_key_of(b"no request"));
}

#[test]
fn a_nonce_that_came_with_the_directory_is_used() {
    let mut driver = driver(false);
    driver.step(Event::Start);
    posted(
        driver.step(answer(200, Some("n0"), directory_body())),
        "https://ca.test/acme/new-acct",
        "n0",
        Expect::Account,
    );
}

#[test]
fn an_existing_account_is_used_like_a_new_one() {
    let mut driver = driver(false);
    driver.step(Event::Start);
    driver.step(answer(200, Some("n0"), directory_body()));
    let (header, _) = posted(
        driver.step(located(200, "n2", KID, account_body())),
        "https://ca.test/acme/new-order",
        "n2",
        Expect::Order,
    );
    assert_eq!(header["kid"], KID);
    assert_eq!(driver.control().step, Step::NewOrder);
}

#[test]
fn the_key_authorization_is_that_of_the_account_key() {
    let account_key = generate_rsa_key().unwrap();
    let thumbprint = jwk(&account_key).unwrap().thumbprint();
    let mut driver = Run(Some(
        Driver::new(
        SERVER.to_string(),
        "a@example.test".to_string(),
        "example.test".to_string(),
        true,
        None,
        account_key,
        generate_rsa_keypair().unwrap(),
    )
        .unwrap(),
    ));
    driver.step(Event::Start);
    driver.step(Event::PortAvailable);
    driver.step(answer(200, Some("n0"), directory_body()));
    driver.step(located(201, "n2", KID, account_body()));
    driver.step(located(201, "n3", "https://ca.test/acme/order/1", order_body(StatusType::Pending)));
    match driver.step(answer(200, Some("n4"), authorization_body(StatusType::Pending, &["http-01"]))) {
        Action::StartResponder { token, key_authorization } => {
            assert_eq!(key_authorization, format!("{}.{}", token, thumbprint));
        }
        other => panic!("unexpected: {}", shown(&other)),
    }
}

#[test]
fn bad_nonce_recovery_on_new_order() {
    let mut driver = with_order(false);
    assert_eq!(
        shown(&driver.step(answer(400, Some("stale"), problem("badNonce", "JWS has an invalid anti-replay nonce")))),
        "Head https://ca.test/acme/new-nonce"
    );
    assert_eq!(driver.control().step, Step::NewOrder);
    posted(
        driver.step(answer(200, Some("fresh"), Body::Empty)),
        "https://ca.test/acme/new-order",
        "fresh",
        Expect::Order,
    );
    posted(
        driver.step(located(201, "n3", "https://ca.test/acme/order/1", order_body(StatusType::Pending))),
        "https://ca.test/acme/authz/1",
        "n3",
        Expect::Authorization,
    );
}

#[test]
fn a_second_bad_nonce_is_surfaced() {
    let mut driver = with_order(false);
    driver.step(answer(400, Some("stale"), problem("badNonce", "first")));
    driver.step(answer(200, Some("fresh"), Body::Empty));
    let failure = failed(driver.step(answer(400, Some("x"), problem("badNonce", "second"))));
    assert_eq!(failure.error, Error::BadNonce);
    assert_eq!(failure.stage, Step::NewOrder);
    assert_eq!(failure.detail, "second");
    assert_eq!(failure.line(), "newOrder: BadNonce \u{2014} second");
}

#[test]
fn missing_http_challenge_fails_before_the_responder_starts() {
    let mut driver = with_authorization(true);
    let failure =
        failed(driver.step(answer(200, Some("n4"), authorization_body(StatusType::Pending, &["dns-01"]))));
    assert_eq!(failure.error, Error::NoHttpChallengePresent);
    assert_eq!(failure.stage, Step::FetchAuthorization);
    assert!(!driver.control().responder_running);
    assert!(driver.is_finished());
}

#[test]
fn port_80_occupied_fails_before_any_account_is_created() {
    let mut driver = driver(true);
    assert_eq!(shown(&driver.step(Event::Start)), "ProbePort");
    let failure = failed(driver.step(Event::PortUnavailable));
    assert_eq!(failure.error, Error::PortUnavailable);
    assert_eq!(failure.stage, Step::Directory);
    assert_eq!(failure.line(), "directory: PortUnavailable \u{2014} ");
    assert!(driver.is_finished());
}

#[test]
fn a_port_that_is_taken_later_fails_the_challenge() {
    let mut driver = with_authorization(true);
    driver.step(answer(200, Some("n4"), authorization_body(StatusType::Pending, &["http-01"])));
    let failure = failed(driver.step(Event::PortUnavailable));
    assert_eq!(failure.error, Error::PortUnavailable);
    assert_eq!(failure.stage, Step::ServeChallenge);
}

#[test]
fn rate_limited_is_surfaced_without_retry() {
    let mut driver = with_order(false);
    let failure = failed(driver.step(answer(
        429,
        Some("n3"),
        problem("rateLimited", "too many certificates already issued"),
    )));
    assert_eq!(failure.error, Error::RateLimited);
    assert_eq!(failure.detail, "too many certificates already issued");
    assert_eq!(failure.stage, Step::NewOrder);
    assert_eq!(
        failure.line(),
        "newOrder: RateLimited \u{2014} too many certificates already issued"
    );
    assert!(driver.is_finished());
}

#[test]
fn a_problem_of_unknown_type_is_an_incorrect_response() {
    let mut driver = with_order(false);
    let failure = failed(driver.step(answer(
        400,
        Some("n3"),
        Body::Problem(Problem { problem_type: "about:blank".to_string(), detail: "no".to_string() }),
    )));
    assert_eq!(failure.error, Error::IncorrectResponse);
    assert_eq!(failure.detail, "no");
}

#[test]
fn a_server_error_is_retried_once() {
    let mut driver = with_order(false);
    assert_eq!(
        shown(&driver.step(answer(503, Some("n3"), problem("serverInternal", "busy")))),
        "Sleep 1"
    );
    posted(driver.step(Event::Woke), "https://ca.test/acme/new-order", "n3", Expect::Order);
    let failure = failed(driver.step(answer(503, Some("n4"), problem("serverInternal", "busy"))));
    assert_eq!(failure.error, Error::ServerInternal);
    assert_eq!(failure.detail, "busy");
}

#[test]
fn a_server_error_without_problem_is_server_internal() {
    let mut driver = with_order(false);
    driver.step(answer(500, None, Body::Empty));
    assert_eq!(shown(&driver.step(Event::Woke)), "Head https://ca.test/acme/new-nonce");
    posted(
        driver.step(answer(200, Some("n3"), Body::Empty)),
        "https://ca.test/acme/new-order",
        "n3",
        Expect::Order,
    );
    let failure = failed(driver.step(answer(500, None, Body::Empty)));
    assert_eq!(failure.error, Error::ServerInternal);
    assert_eq!(failure.detail, "");
}

#[test]
fn a_transport_failure_is_retried_once() {
    let mut driver = driver(false);
    driver.step(Event::Start);
    assert_eq!(shown(&driver.step(Event::TransportFailure { reason: "refused".to_string(), elapsed: 30 })), "Sleep 1");
    assert_eq!(shown(&driver.step(Event::Woke)), format!("Get {}", SERVER));
    let failure = failed(driver.step(Event::TransportFailure { reason: "refused again".to_string(), elapsed: 30 }));
    assert_eq!(failure.error, Error::FromReqwestError("refused again".to_string()));
    assert_eq!(failure.stage, Step::Directory);
}

#[test]
fn an_unreadable_body_is_retried_once() {
    let mut driver = with_order(false);
    assert_eq!(
        shown(&driver.step(answer(201, Some("n3"), Body::Unreadable("eof".to_string())))),
        "Sleep 1"
    );
    posted(driver.step(Event::Woke), "https://ca.test/acme/new-order", "n3", Expect::Order);
    let failure = failed(driver.step(answer(201, Some("n4"), Body::Unreadable("eof".to_string()))));
    assert_eq!(failure.error, Error::FromSerdeError("eof".to_string()));
}

#[test]
fn a_missing_first_nonce_is_a_bad_nonce() {
    let mut driver = driver(false);
    driver.step(Event::Start);
    driver.step(answer(200, None, directory_body()));
    let failure = failed(driver.step(answer(200, None, Body::Empty)));
    assert_eq!(failure.error, Error::BadNonce);
    assert_eq!(failure.stage, Step::NewAccount);
}

#[test]
fn a_directory_with_a_plain_http_url_is_refused() {
    let mut driver = driver(false);
    driver.step(Event::Start);
    let body = Body::Directory(Directory {
        new_nonce: "http://ca.test/acme/new-nonce".to_string(),
        new_account: "https://ca.test/acme/new-acct".to_string(),
        new_order: "https://ca.test/acme/new-order".to_string(),
        revoke_cert: "https://ca.test/acme/revoke-cert".to_string(),
        key_change: "https://ca.test/acme/key-change".to_string(),
        meta: None,
    });
    assert_eq!(failed(driver.step(answer(200, None, body))).error, Error::IncorrectResponse);
}

#[test]
fn a_response_without_nonce_is_followed_by_a_nonce_request() {
    let mut driver = with_order(false);
    let order = Event::Response(Response {
        status: 201,
        replay_nonce: None,
        location: Some("https://ca.test/acme/order/1".to_string()),
        retry_after: None,
        body: order_body(StatusType::Pending),
        elapsed: 0,
    });
    assert_eq!(shown(&driver.step(order)), "Head https://ca.test/acme/new-nonce");
    posted(
        driver.step(answer(200, Some("n9"), Body::Empty)),
        "https://ca.test/acme/authz/1",
        "n9",
        Expect::Authorization,
    );
}

#[test]
fn polling_times_out_and_stops_the_responder() {
    let mut driver = polling(true);
    let mut polls = 1;
    loop {
        let nonce = format!("p{}", polls);
        match driver.step(answer(200, Some(&nonce), authorization_body(StatusType::Pending, &["http-01"])))
        {
            Action::Sleep { seconds } => assert_eq!(seconds, 2),
            Action::StopResponder => break,
            other => panic!("unexpected: {}", shown(&other)),
        }
        posted(driver.step(Event::Woke), "https://ca.test/acme/authz/1", &nonce, Expect::Authorization);
        polls += 1;
        assert!(polls <= 30);
    }
    assert_eq!(polls, 30);
    assert!(driver.control().responder_running);
    let failure = failed(driver.step(Event::ResponderStopped));
    assert_eq!(failure.error, Error::ValidationTimeout);
    assert_eq!(failure.stage, Step::Poll);
    assert_eq!(failure.line(), "poll: ValidationTimeout \u{2014} ");
    assert!(!driver.control().responder_running);
    assert!(driver.is_finished());
}

#[test]
fn an_invalid_authorization_fails_after_the_responder_stopped() {
    let mut driver = polling(true);
    assert_eq!(
        shown(&driver.step(answer(200, Some("n6"), authorization_body(StatusType::Invalid, &["http-01"])))),
        "StopResponder"
    );
    let failure = failed(driver.step(Event::ResponderStopped));
    assert_eq!(failure.error, Error::IncorrectResponse);
    assert_eq!(failure.stage, Step::Poll);
}

#[test]
fn a_problem_during_finalization_names_the_stage() {
    let mut driver = polling(false);
    driver.step(answer(200, Some("n6"), authorization_body(StatusType::Valid, &["http-01"])));
    let failure =
        failed(driver.step(answer(400, Some("n7"), problem("badCSR", "public key too short"))));
    assert_eq!(failure.line(), "finalize: BadCSR \u{2014} public key too short");
}

#[test]
fn an_invalid_order_fails() {
    let mut driver = polling(false);
    driver.step(answer(200, Some("n6"), authorization_body(StatusType::Valid, &["http-01"])));
    let failure = failed(driver.step(answer(200, Some("n7"), order_body(StatusType::Invalid))));
    assert_eq!(failure.error, Error::IncorrectResponse);
    assert_eq!(failure.stage, Step::Finalize);
}

#[test]
fn a_key_that_cannot_sign_fails_the_issuance() {
    let broken = RsaKey::from_parts(b"no key".to_vec(), vec![0x81; 256], vec![1, 0, 1]).unwrap();
    let mut driver = Run(Some(
        Driver::new(
        SERVER.to_string(),
        "a@example.test".to_string(),
        "example.test".to_string(),
        false,
        None,
        broken,
        generate_rsa_keypair().unwrap(),
    )
        .unwrap(),
    ));
    driver.step(Event::Start);
    let failure = failed(driver.step(answer(200, Some("n0"), directory_body())));
    assert_eq!(failure.stage, Step::NewAccount);
    match failure.error {
        Error::FromRsaError(_) => {}
        other => panic!("unexpected: {:?}", other),
    }
    assert!(driver.is_finished());
}

#[test]
fn the_time_that_requests_take_counts_towards_the_deadline() {
    let mut driver = polling(false);
    let slow = |seconds: u64, nonce: &str| {
        Event::Response(Response {
            status: 200,
            replay_nonce: Some(nonce.to_string()),
            location: None,
            retry_after: None,
            body: authorization_body(StatusType::Pending, &["http-01"]),
            elapsed: seconds,
        })
    };
    assert_eq!(driver.control().waited, 2);
    assert_eq!(shown(&driver.step(slow(28, "a1"))), "Sleep 2");
    assert_eq!(driver.control().waited, 32);
    posted(driver.step(Event::Woke), "https://ca.test/acme/authz/1", "a1", Expect::Authorization);
    assert_eq!(shown(&driver.step(slow(86, "a2"))), "Sleep 2");
    assert_eq!(driver.control().waited, 120);
    posted(driver.step(Event::Woke), "https://ca.test/acme/authz/1", "a2", Expect::Authorization);
    let failure = failed(driver.step(slow(0, "a3")));
    assert_eq!(failure.error, Error::ValidationTimeout);
    assert_eq!(driver.control().attempts, 3);
}

#[test]
fn a_slow_request_uses_up_the_deadline() {
    let mut driver = polling(false);
    let late = Event::Response(Response {
        status: 200,
        replay_nonce: Some("a1".to_string()),
        location: None,
        retry_after: None,
        body: authorization_body(StatusType::Pending, &["http-01"]),
        elapsed: 117,
    });
    assert_eq!(failed(driver.step(late)).error, Error::ValidationTimeout);
    let mut driver = polling(false);
    let valid = Event::Response(Response {
        status: 200,
        replay_nonce: Some("a1".to_string()),
        location: None,
        retry_after: None,
        body: authorization_body(StatusType::Valid, &["http-01"]),
        elapsed: u64::MAX,
    });
    posted(
        driver.step(valid),
        "https://ca.test/acme/order/1/finalize",
        "a1",
        Expect::Order,
    );
}

fn said(status: u16, location: Option<&str>, body: Body) -> Answer {
    classify(&Response {
        status,
        replay_nonce: None,
        location: location.map(|text| text.to_string()),
        retry_after: None,
        body,
        elapsed: 0,
    })
}

#[test]
fn responses_are_told_apart_by_status_and_body() {
    assert_eq!(said(500, None, directory_body()), Answer::Transient);
    assert_eq!(said(599, None, problem("badNonce", "")), Answer::Transient);
    assert_eq!(said(200, None, Body::Unreadable("x".to_string())), Answer::Transient);
    assert_eq!(said(400, None, problem("badNonce", "")), Answer::BadNonce);
    assert_eq!(said(200, None, problem("badNonce", "")), Answer::BadNonce);
    assert_eq!(said(403, None, problem("unauthorized", "")), Answer::Problem);
    assert_eq!(said(400, None, problem("unheardOf", "")), Answer::Problem);
    assert_eq!(said(199, None, Body::Empty), Answer::Unexpected);
    assert_eq!(said(300, None, Body::Empty), Answer::Unexpected);
    assert_eq!(said(404, None, directory_body()), Answer::Unexpected);
    assert_eq!(said(200, None, Body::Empty), Answer::Accepted);
    assert_eq!(said(204, None, Body::Empty), Answer::Accepted);
    assert_eq!(said(200, None, directory_body()), Answer::Directory);
    assert_eq!(said(201, None, directory_body()), Answer::Unexpected);
    assert_eq!(said(200, Some(KID), account_body()), Answer::Account);
    assert_eq!(said(201, Some(KID), account_body()), Answer::Account);
    assert_eq!(said(202, Some(KID), account_body()), Answer::Unexpected);
    assert_eq!(said(201, None, account_body()), Answer::Unexpected);
    assert_eq!(said(200, None, Body::Certificate(CHAIN.to_string())), Answer::Certificate);
    assert_eq!(said(201, None, Body::Certificate(CHAIN.to_string())), Answer::Unexpected);
}

#[test]
fn orders_and_authorizations_are_summed_up() {
    assert_eq!(
        said(201, Some("l"), order_body(StatusType::Pending)),
        Answer::Order { status: StatusType::Pending, authorized: true, located: true }
    );
    assert_eq!(
        said(200, None, order_body(StatusType::Valid)),
        Answer::Order { status: StatusType::Valid, authorized: true, located: false }
    );
    assert_eq!(
        said(200, None, authorization_body(StatusType::Pending, &["dns-01", "http-01"])),
        Answer::Authorization { status: StatusType::Pending, offer: Offer::Http01 }
    );
    assert_eq!(
        said(200, None, authorization_body(StatusType::Valid, &["dns-01"])),
        Answer::Authorization { status: StatusType::Valid, offer: Offer::Missing }
    );
    let spaced = Body::Authorization(ChallengeAuthorisation {
        identifier: "example.test".to_string(),
        status: StatusType::Pending,
        expires: String::new(),
        challenges: vec![Challenge {
            status: StatusType::Pending,
            token: "to ken".to_string(),
            challenge_type: "http-01".to_string(),
            url: "https://ca.test/acme/chall/1".to_string(),
        }],
        wildcard: None,
    });
    assert_eq!(
        said(200, None, spaced),
        Answer::Authorization { status: StatusType::Pending, offer: Offer::BadToken }
    );
}

#[test]
fn events_are_summed_up() {
    assert_eq!(Event::Start.seen(), Seen::Start);
    assert_eq!(Event::Woke.seen(), Seen::Woke);
    assert_eq!(Event::PortAvailable.seen(), Seen::PortAvailable);
    assert_eq!(Event::PortUnavailable.seen(), Seen::PortUnavailable);
    assert_eq!(Event::ResponderReady.seen(), Seen::ResponderReady);
    assert_eq!(Event::ResponderStopped.seen(), Seen::ResponderStopped);
    let lost = Event::TransportFailure { reason: "x".to_string(), elapsed: 9 };
    assert_eq!(lost.seen(), Seen::TransportFailure);
    assert_eq!(lost.elapsed(), 9);
    assert_eq!(Event::Woke.elapsed(), 0);
    let event = Event::Response(Response {
        status: 200,
        replay_nonce: Some("n".to_string()),
        location: None,
        retry_after: Some(5),
        body: Body::Empty,
        elapsed: 3,
    });
    assert_eq!(
        event.seen(),
        Seen::Response { nonce: true, retry_after: Some(5), answer: Answer::Accepted }
    );
    assert_eq!(event.elapsed(), 3);
}

#[test]
fn causes_become_failures() {
    let made = |cause| failure(cause, Step::Poll, &Event::Woke);
    assert_eq!(made(Cause::Incorrect).error, Error::IncorrectResponse);
    assert_eq!(made(Cause::NoHttpChallenge).error, Error::NoHttpChallengePresent);
    assert_eq!(made(Cause::PortUnavailable).error, Error::PortUnavailable);
    assert_eq!(made(Cause::Timeout).error, Error::ValidationTimeout);
    assert_eq!(made(Cause::NoNonce).error, Error::BadNonce);
    assert_eq!(made(Cause::OutOfTurn).error, Error::IncorrectResponse);
    assert_eq!(made(Cause::Reported).error, Error::IncorrectResponse);
    assert_eq!(made(Cause::Timeout).stage, Step::Poll);
    assert_eq!(made(Cause::Timeout).detail, "");
    let reported = failure(
        Cause::Reported,
        Step::Finalize,
        &answer(403, None, problem("unauthorized", "not yours")),
    );
    assert_eq!(reported.error, Error::Unauthorized);
    assert_eq!(reported.detail, "not yours");
    assert_eq!(reported.line(), "finalize: Unauthorized \u{2014} not yours");
}

#[test]
fn retry_after_is_read_as_seconds() {
    assert_eq!(retry_after_seconds("0"), Some(0));
    assert_eq!(retry_after_seconds("7"), Some(7));
    assert_eq!(retry_after_seconds("120"), Some(120));
    assert_eq!(retry_after_seconds("007"), Some(7));
    assert_eq!(retry_after_seconds("18446744073709551615"), Some(u64::MAX));
    assert_eq!(retry_after_seconds("18446744073709551616"), None);
    assert_eq!(retry_after_seconds("99999999999999999999999"), None);
    assert_eq!(retry_after_seconds(""), None);
    assert_eq!(retry_after_seconds(" 7"), None);
    assert_eq!(retry_after_seconds("7 "), None);
    assert_eq!(retry_after_seconds("+7"), None);
    assert_eq!(retry_after_seconds("-7"), None);
    assert_eq!(retry_after_seconds("7s"), None);
    assert_eq!(retry_after_seconds("1.5"), None);
    assert_eq!(retry_after_seconds("\u{0667}"), None);
    assert_eq!(retry_after_seconds("Wed, 21 Oct 2015 07:28:00 GMT"), None);
}

#[test]
fn an_error_status_is_read_as_a_problem() {
    assert_eq!(Expect::Order.reading(200), Expect::Order);
    assert_eq!(Expect::Order.reading(201), Expect::Order);
    assert_eq!(Expect::Order.reading(399), Expect::Order);
    assert_eq!(Expect::Order.reading(400), Expect::Problem);
    assert_eq!(Expect::Certificate.reading(503), Expect::Problem);
    assert_eq!(Expect::Nothing.reading(204), Expect::Nothing);
    assert_eq!(Expect::Directory.reading(200), Expect::Directory);
}
