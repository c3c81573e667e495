use acme_rs::base64url::b64_decode;
use acme_rs::crypto::RsaKey;
use acme_rs::error::Error;
use acme_rs::types::{
    check_https_url, post_as_get, signed_post, Account, Challenge, ChallengeAuthorisation,
    Directory, Order, SignedRequest, StatusType, UpdatedOrder,
};
use acme_rs::jose::{KeyId, Payload};
use acme_rs::util::{
    extract_payload_and_nonce, extract_payload_location_and_nonce, generate_rsa_key,
    generate_rsa_keypair, jwk, Response,
};
use serde_json::Value;

fn directory() -> Directory {
    Directory {
        new_nonce: "https://ca.test/acme/new-nonce".to_string(),
        new_account: "https://ca.test/acme/new-acct".to_string(),
        new_order: "https://ca.test/acme/new-order".to_string(),
        revoke_cert: "https://ca.test/acme/revoke-cert".to_string(),
        key_change: "https://ca.test/acme/key-change".to_string(),
        meta: None,
    }
}

fn account() -> Account {
    Account {
        status: StatusType::Valid,
        contact: vec!["mailto:a@example.test".to_string()],
        orders: None,
        account_location: "https://ca.test/acme/acct/1".to_string(),
    }
}

fn order(status: StatusType, certificate: Option<&str>) -> Result<Order, Error> {
    Order::new(
        status,
        "2030-01-01T00:00:00Z".to_string(),
        vec!["example.test".to_string()],
        vec!["https://ca.test/acme/authz/1".to_string()],
        "https://ca.test/acme/order/1/finalize".to_string(),
        certificate.map(|url| url.to_string()),
    )
}

fn challenge(kind: &str, token: &str) -> Challenge {
    Challenge {
        status: StatusType::Pending,
        token: token.to_string(),
        challenge_type: kind.to_string(),
        url: format!("https://ca.test/acme/chall/{}", kind),
    }
}

fn authorization(challenges: Vec<Challenge>) -> ChallengeAuthorisation {
    ChallengeAuthorisation {
        identifier: "example.test".to_string(),
        status: StatusType::Pending,
        expires: "2030-01-01T00:00:00Z".to_string(),
        challenges,
        wildcard: None,
    }
}

fn response<T>(status: u16, nonce: Option<&str>, location: Option<&str>, body: T) -> Response<T> {
    Response {
        status,
        replay_nonce: nonce.map(|text| text.to_string()),
        location: location.map(|text| text.to_string()),
        retry_after: None,
        body,
        elapsed: 0,
    }
}

fn text_of(segment: &Value) -> String {
    String::from_utf8(b64_decode(segment.as_str().unwrap()).unwrap()).unwrap()
}

fn opened(request: &SignedRequest) -> (Value, String) {
    assert_eq!(request.content_type, "application/jose+json");
    let body: Value = serde_json::from_str(&request.body).unwrap();
    assert_eq!(body.as_object().unwrap().len(), 3);
    assert!(b64_decode(body["signature"].as_str().unwrap()).is_some());
    let header: Value = serde_json::from_str(&text_of(&body["protected"])).unwrap();
    assert_eq!(header["alg"], "RS256");
    assert_eq!(header["url"], request.url.as_str());
    assert!(header.get("jwk").is_some() != header.get("kid").is_some());
    (header, text_of(&body["payload"]))
}

#[test]
fn status_words_are_read_and_written() {
    for (word, status) in [
        ("valid", StatusType::Valid),
        ("pending", StatusType::Pending),
        ("invalid", StatusType::Invalid),
        ("ready", StatusType::Ready),
        ("processing", StatusType::Processing),
        ("deactivated", StatusType::Deactivated),
        ("expired", StatusType::Expired),
        ("revoked", StatusType::Revoked),
    ] {
        assert_eq!(StatusType::parse(word), Some(status));
        assert_eq!(status.as_str(), word);
    }
    assert_eq!(StatusType::parse("Valid"), None);
    assert_eq!(StatusType::parse(""), None);
    assert_eq!(StatusType::parse("valid "), None);
}

#[test]
fn https_urls_are_told_apart() {
    assert!(check_https_url("https://ca.test/dir"));
    assert!(check_https_url("https://x"));
    assert!(!check_https_url("https://"));
    assert!(!check_https_url("http://ca.test/dir"));
    assert!(!check_https_url("HTTPS://ca.test/dir"));
    assert!(!check_https_url("/dir"));
    assert!(!check_https_url(""));
    assert!(directory().is_valid());
    assert!(!Directory { key_change: "http://ca.test/key".to_string(), ..directory() }.is_valid());
    assert!(!Directory { new_nonce: String::new(), ..directory() }.is_valid());
}

#[test]
fn directory_is_taken_from_a_success() {
    assert!(Directory::fetch_dir(response(200, None, None, directory())).is_ok());
    assert_eq!(
        Directory::fetch_dir(response(404, None, None, directory())).map(|_| ()),
        Err(Error::IncorrectResponse)
    );
    let plain = Directory { new_order: "http://ca.test/acme/new-order".to_string(), ..directory() };
    assert_eq!(
        Directory::fetch_dir(response(200, None, None, plain)).map(|_| ()),
        Err(Error::IncorrectResponse)
    );
}

#[test]
fn first_nonce_is_the_replay_nonce_header() {
    assert_eq!(Directory::first_nonce(response(200, Some("n0"), None, ())), Ok("n0".to_string()));
    assert_eq!(Directory::first_nonce(response(200, None, None, ())), Err(Error::BadNonce));
}

#[test]
fn payload_and_nonce_are_extracted() {
    assert_eq!(
        extract_payload_and_nonce(response(200, Some("n1"), None, 7u8)),
        Ok(("n1".to_string(), 7u8))
    );
    assert_eq!(
        extract_payload_and_nonce(response(200, None, Some("l"), 7u8)),
        Err(Error::IncorrectResponse)
    );
}

#[test]
fn payload_location_and_nonce_are_extracted() {
    assert_eq!(
        extract_payload_location_and_nonce(response(201, Some("n1"), Some("l1"), 7u8)),
        Ok(("l1".to_string(), "n1".to_string(), 7u8))
    );
    assert_eq!(
        extract_payload_location_and_nonce(response(201, None, Some("l1"), 7u8)),
        Err(Error::IncorrectResponse)
    );
    assert_eq!(
        extract_payload_location_and_nonce(response(201, Some("n1"), None, 7u8)),
        Err(Error::IncorrectResponse)
    );
}

#[test]
fn new_account_request_carries_the_key_and_the_contact() {
    let key = generate_rsa_key().unwrap();
    let request = directory().create_account("n1".to_string(), &key, "a@example.test").unwrap();
    assert_eq!(request.url, "https://ca.test/acme/new-acct");
    assert_eq!(request.accept, None);
    let (header, payload) = opened(&request);
    assert_eq!(header["nonce"], "n1");
    let web_key: Value = serde_json::from_str(&jwk(&key).unwrap().to_json()).unwrap();
    assert_eq!(header["jwk"], web_key);
    assert_eq!(payload, "{\"termsOfServiceAgreed\":true,\"contact\":[\"mailto:a@example.test\"]}");
}

#[test]
fn new_account_request_escapes_the_contact() {
    let key = generate_rsa_key().unwrap();
    let request = directory().create_account("n\"1".to_string(), &key, "a\"b\\c@example.test").unwrap();
    let (header, payload) = opened(&request);
    assert_eq!(header["nonce"], "n\"1");
    let payload: Value = serde_json::from_str(&payload).unwrap();
    assert_eq!(payload["contact"][0], "mailto:a\"b\\c@example.test");
    assert_eq!(payload["termsOfServiceAgreed"], true);
}

#[test]
fn account_is_taken_from_created_and_from_existing() {
    let body = || Account { account_location: String::new(), ..account() };
    let (created, nonce) =
        Account::from_response(response(201, Some("n2"), Some("https://ca.test/acme/acct/1"), body()))
            .unwrap();
    assert_eq!(created.account_location, "https://ca.test/acme/acct/1");
    assert_eq!(nonce, "n2");
    let (found, _) =
        Account::from_response(response(200, Some("n3"), Some("https://ca.test/acme/acct/1"), body()))
            .unwrap();
    assert_eq!(found.account_location, created.account_location);
    assert_eq!(found.status, StatusType::Valid);
    assert_eq!(found.contact, vec!["mailto:a@example.test".to_string()]);
}

#[test]
fn account_needs_status_location_and_nonce() {
    let body = || Account { account_location: String::new(), ..account() };
    let refused = |r: Response<Account>| Account::from_response(r).map(|_| ()).unwrap_err();
    assert_eq!(refused(response(202, Some("n"), Some("l"), body())), Error::IncorrectResponse);
    assert_eq!(refused(response(400, Some("n"), Some("l"), body())), Error::IncorrectResponse);
    assert_eq!(refused(response(201, None, Some("l"), body())), Error::IncorrectResponse);
    assert_eq!(refused(response(201, Some("n"), None, body())), Error::IncorrectResponse);
    let pending = Account { status: StatusType::Pending, ..body() };
    assert_eq!(refused(response(201, Some("n"), Some("l"), pending)), Error::IncorrectResponse);
}

#[test]
fn new_order_request_names_the_domain() {
    let key = generate_rsa_key().unwrap();
    let request = account()
        .create_new_order("n2".to_string(), "https://ca.test/acme/new-order", &key, "example.test")
        .unwrap();
    assert_eq!(request.url, "https://ca.test/acme/new-order");
    let (header, payload) = opened(&request);
    assert_eq!(header["nonce"], "n2");
    assert_eq!(header["kid"], "https://ca.test/acme/acct/1");
    assert_eq!(payload, "{\"identifiers\":[{\"type\":\"dns\",\"value\":\"example.test\"}]}");
}

#[test]
fn order_names_its_certificate_if_and_only_if_it_is_valid() {
    for status in [
        StatusType::Pending,
        StatusType::Ready,
        StatusType::Processing,
        StatusType::Invalid,
    ] {
        let made = order(status, None).unwrap();
        assert_eq!(made.status(), status);
        assert!(made.certificate().is_none());
        assert_eq!(
            order(status, Some("https://ca.test/acme/cert/1")).map(|_| ()),
            Err(Error::IncorrectResponse)
        );
    }
    let valid = order(StatusType::Valid, Some("https://ca.test/acme/cert/1")).unwrap();
    assert_eq!(valid.status(), StatusType::Valid);
    assert_eq!(valid.certificate().map(|url| url.as_str()), Some("https://ca.test/acme/cert/1"));
    assert_eq!(order(StatusType::Valid, None).map(|_| ()), Err(Error::IncorrectResponse));
}

#[test]
fn order_has_a_status_of_an_order() {
    for status in [StatusType::Deactivated, StatusType::Expired, StatusType::Revoked] {
        assert_eq!(order(status, None).map(|_| ()), Err(Error::IncorrectResponse));
    }
    let made = order(StatusType::Pending, None).unwrap();
    assert_eq!(made.expires(), "2030-01-01T00:00:00Z");
    assert_eq!(made.identifiers(), &vec!["example.test".to_string()]);
    assert_eq!(made.authorizations(), &vec!["https://ca.test/acme/authz/1".to_string()]);
    assert_eq!(made.finalize(), "https://ca.test/acme/order/1/finalize");
}

#[test]
fn authorization_is_fetched_with_an_empty_payload() {
    let key = generate_rsa_key().unwrap();
    let request = order(StatusType::Pending, None)
        .unwrap()
        .fetch_auth_challenges("n3".to_string(), "https://ca.test/acme/acct/1", &key)
        .unwrap();
    assert_eq!(request.url, "https://ca.test/acme/authz/1");
    let body: Value = serde_json::from_str(&request.body).unwrap();
    assert_eq!(body["payload"], "");
    let (header, payload) = opened(&request);
    assert_eq!(header["kid"], "https://ca.test/acme/acct/1");
    assert_eq!(header["nonce"], "n3");
    assert_eq!(payload, "");
}

#[test]
fn an_order_without_authorization_offers_no_challenge() {
    let key = generate_rsa_key().unwrap();
    let empty = Order::new(
        StatusType::Pending,
        String::new(),
        Vec::new(),
        Vec::new(),
        "https://ca.test/f".to_string(),
        None,
    )
    .unwrap();
    assert_eq!(
        empty.fetch_auth_challenges("n".to_string(), "kid", &key).map(|_| ()),
        Err(Error::NoHttpChallengePresent)
    );
}

#[test]
fn the_first_http_challenge_is_picked() {
    let chosen = authorization(vec![
        challenge("dns-01", "tokenA"),
        challenge("http-01", "tokenB"),
        challenge("http-01", "tokenC"),
    ])
    .http_challenge()
    .unwrap();
    assert_eq!(chosen.token, "tokenB");
    assert_eq!(chosen.url, "https://ca.test/acme/chall/http-01");
    assert_eq!(chosen.challenge_type, "http-01");
    assert_eq!(chosen.status, StatusType::Pending);
}

#[test]
fn an_authorization_without_http_challenge_is_refused() {
    assert_eq!(
        authorization(vec![challenge("dns-01", "tokenA")]).http_challenge().map(|_| ()),
        Err(Error::NoHttpChallengePresent)
    );
    assert_eq!(
        authorization(Vec::new()).http_challenge().map(|_| ()),
        Err(Error::NoHttpChallengePresent)
    );
    assert_eq!(
        authorization(vec![challenge("HTTP-01", "tokenA"), challenge("http-010", "tokenA")])
            .http_challenge()
            .map(|_| ()),
        Err(Error::NoHttpChallengePresent)
    );
}

#[test]
fn a_token_outside_the_alphabet_is_refused() {
    for token in ["", "../etc", "a b", "a/b", "a.b", "t\u{e9}", "a=="] {
        assert_eq!(
            authorization(vec![challenge("http-01", token)]).http_challenge().map(|_| ()),
            Err(Error::IncorrectResponse),
            "{}",
            token
        );
        assert!(!challenge("http-01", token).has_token());
    }
    assert!(challenge("http-01", "AZaz09-_").has_token());
    assert!(challenge("http-01", "x").is_http01());
    assert!(!challenge("tls-alpn-01", "x").is_http01());
}

#[test]
fn completing_the_challenge_gives_the_key_authorization_and_the_request() {
    let key = generate_rsa_key().unwrap();
    let plan = authorization(vec![challenge("dns-01", "tokenA"), challenge("http-01", "tokenB")])
        .complete_http_challenge("n4".to_string(), "https://ca.test/acme/acct/1", &key)
        .unwrap();
    assert_eq!(plan.token, "tokenB");
    assert_eq!(plan.key_authorization, format!("tokenB.{}", jwk(&key).unwrap().thumbprint()));
    assert_eq!(plan.ready.url, "https://ca.test/acme/chall/http-01");
    let (header, payload) = opened(&plan.ready);
    assert_eq!(header["nonce"], "n4");
    assert_eq!(header["kid"], "https://ca.test/acme/acct/1");
    assert_eq!(payload, "{}");
}

#[test]
fn completing_a_missing_challenge_fails() {
    let key = generate_rsa_key().unwrap();
    assert_eq!(
        authorization(vec![challenge("dns-01", "tokenA")])
            .complete_http_challenge("n4".to_string(), "kid", &key)
            .map(|_| ()),
        Err(Error::NoHttpChallengePresent)
    );
}

#[test]
fn finalization_sends_the_csr() {
    let key = generate_rsa_key().unwrap();
    let pair = generate_rsa_keypair().unwrap();
    let request = order(StatusType::Ready, None)
        .unwrap()
        .finalize_order("https://ca.test/acme/acct/1", "n5".to_string(), &key, &pair, "example.test")
        .unwrap();
    assert_eq!(request.url, "https://ca.test/acme/order/1/finalize");
    assert_eq!(request.accept, None);
    let (header, payload) = opened(&request);
    assert_eq!(header["nonce"], "n5");
    assert_eq!(header["kid"], "https://ca.test/acme/acct/1");
    let payload: Value = serde_json::from_str(&payload).unwrap();
    assert_eq!(payload.as_object().unwrap().len(), 1);
    let der = b64_decode(payload["csr"].as_str().unwrap()).unwrap();
    assert_eq!(der, pair.csr("example.test").unwrap());
    assert!(openssl::x509::X509Req::from_der(&der).is_ok());
}

#[test]
fn finalization_sends_a_csr_that_is_at_hand() {
    let key = generate_rsa_key().unwrap();
    let request = order(StatusType::Ready, None)
        .unwrap()
        .finalize_with_csr("https://ca.test/acme/acct/1", "n5".to_string(), &key, &[0xfb, 0xff, 0xbf])
        .unwrap();
    let (_, payload) = opened(&request);
    assert_eq!(payload, "{\"csr\":\"-_-_\"}");
}

#[test]
fn certificate_is_downloaded_from_a_valid_order() {
    let key = generate_rsa_key().unwrap();
    let valid =
        UpdatedOrder::new(order(StatusType::Valid, Some("https://ca.test/acme/cert/1")).unwrap());
    let request =
        valid.download_certificate("n6".to_string(), "https://ca.test/acme/acct/1", &key).unwrap();
    assert_eq!(request.url, "https://ca.test/acme/cert/1");
    assert_eq!(request.accept.as_deref(), Some("application/pem-certificate-chain"));
    let body: Value = serde_json::from_str(&request.body).unwrap();
    assert_eq!(body["payload"], "");
    let (header, _) = opened(&request);
    assert_eq!(header["nonce"], "n6");
    assert_eq!(valid.order().status(), StatusType::Valid);
}

#[test]
fn certificate_of_an_order_that_is_not_valid_is_not_ready() {
    let key = generate_rsa_key().unwrap();
    let processing = UpdatedOrder::new(order(StatusType::Processing, None).unwrap());
    assert_eq!(
        processing.download_certificate("n6".to_string(), "kid", &key).map(|_| ()),
        Err(Error::OrderNotReady)
    );
}

#[test]
fn signing_with_a_broken_key_fails_the_request() {
    let broken = RsaKey::from_parts(b"no key".to_vec(), vec![0x80; 256], vec![1, 0, 1]).unwrap();
    match post_as_get("https://ca.test/x", "n".to_string(), "kid", &broken, None) {
        Err(Error::FromRsaError(_)) => {}
        other => panic!("unexpected: {:?}", other.map(|_| ())),
    }
    match signed_post(
        "https://ca.test/x",
        "n".to_string(),
        KeyId::Kid("kid".to_string()),
        Payload::Json("{}".to_string()),
        &broken,
        None,
    ) {
        Err(Error::FromRsaError(_)) => {}
        other => panic!("unexpected: {:?}", other.map(|_| ())),
    }
}
