use acme_rs::base64url::{b64, b64_decode};
use acme_rs::crypto::{sha256, RsaKey};
use acme_rs::jose::{
    signing_input_text, Jwk, Jws, KeyId, Payload, ProtectedHeader, RS256Signer,
};
use acme_rs::json::json_string;
use acme_rs::util::{generate_rsa_key, jwk, jws};
use openssl::hash::MessageDigest;
use openssl::pkey::PKey;
use openssl::rsa::Rsa;
use openssl::sign::Verifier;

const MODULUS: &str = "zGemnOSkmOZTw4OWQzT3e9gS2uAIncdBQtt0Afpadjjbcx3aq99drxaWoC1p5f8xjNM5Dr92a0pGd4fCN1FI_7QH1VZmSg2Vxk6NbowmzfCYAC2nyBzHs5_u6pyX9MgbJ-bAOiF3lLHC8gG87cPcuIxe7X_IWtbqdU0oJjBky0alfoW1kucWuQNudfMY8lHHY58n8j5X-ETSKZMi7XbyC5iQTNnRs7Kt4OzoDR6odwyWm_1QpIKvEkxS-MY5FTYfYzem5SGpMd-Oe43I6PdSjCfIGMewmTqmQMiFl-AoQLbqp26WkZenjrjf3EY_2XlZrskG0ODLbkRdWak8dSPGkQ";
const THUMBPRINT: &str = "9GIOrda_xuF2d30Z0tgtm4juW8xuNWMIOeFia_bUs7c";
const PROTECTED: &str = "eyJhbGciOiJSUzI1NiIsIm5vbmNlIjoibm9uY2UtMSIsInVybCI6Imh0dHBzOi8vY2EudGVzdC9hY21lL25ldy1vcmRlciIsImtpZCI6Imh0dHBzOi8vY2EudGVzdC9hY21lL2FjY3QvMSJ9";
const PAYLOAD: &str = "eyJpZGVudGlmaWVycyI6W3sidHlwZSI6ImRucyIsInZhbHVlIjoiZXhhbXBsZS50ZXN0In1dfQ";

fn known_key() -> Jwk {
    Jwk { e: vec![1, 0, 1], n: b64_decode(MODULUS).expect("the modulus is base64url") }
}

fn order_header() -> ProtectedHeader {
    ProtectedHeader {
        nonce: "nonce-1".to_string(),
        url: "https://ca.test/acme/new-order".to_string(),
        key: KeyId::Kid("https://ca.test/acme/acct/1".to_string()),
    }
}

fn order_payload() -> Payload {
    Payload::Json("{\"identifiers\":[{\"type\":\"dns\",\"value\":\"example.test\"}]}".to_string())
}

fn verifies(key: &RsaKey, input: &str, signature: &str) -> bool {
    let public = Rsa::private_key_from_pem(key.private_pem()).unwrap();
    let public = PKey::from_rsa(public).unwrap();
    let mut verifier = Verifier::new(MessageDigest::sha256(), &public).unwrap();
    verifier.update(input.as_bytes()).unwrap();
    verifier.verify(&b64_decode(signature).unwrap()).unwrap()
}

#[test]
fn json_string_quotes_and_escapes() {
    assert_eq!(json_string(""), "\"\"");
    assert_eq!(json_string("plain"), "\"plain\"");
    assert_eq!(json_string("a\"b"), "\"a\\\"b\"");
    assert_eq!(json_string("a\\b"), "\"a\\\\b\"");
    assert_eq!(json_string("\u{8}\t\n\u{c}\r"), "\"\\b\\t\\n\\f\\r\"");
    assert_eq!(json_string("\u{0}\u{1f}\u{b}"), "\"\\u0000\\u001f\\u000b\"");
    assert_eq!(json_string("/ \u{7f}\u{e9}\u{1f600}"), "\"/ \u{7f}\u{e9}\u{1f600}\"");
}

#[test]
fn jwk_json_has_the_members_in_both_orders() {
    let key = known_key();
    assert_eq!(
        key.to_json(),
        format!("{{\"kty\":\"RSA\",\"e\":\"AQAB\",\"n\":\"{}\"}}", MODULUS)
    );
    assert_eq!(
        key.canonical_json(),
        format!("{{\"e\":\"AQAB\",\"kty\":\"RSA\",\"n\":\"{}\"}}", MODULUS)
    );
    assert!(!key.canonical_json().contains(char::is_whitespace));
}

#[test]
fn thumbprint_of_a_known_key() {
    assert_eq!(known_key().thumbprint(), THUMBPRINT);
}

#[test]
fn thumbprint_is_the_digest_of_the_canonical_json() {
    let key = known_key();
    let digest = openssl::sha::sha256(key.canonical_json().as_bytes());
    assert_eq!(key.thumbprint(), base64::encode_config(digest, base64::URL_SAFE_NO_PAD));
    assert_eq!(sha256(key.canonical_json().as_bytes()), digest.to_vec());
}

#[test]
fn key_authorization_is_token_dot_thumbprint() {
    let key = known_key();
    assert_eq!(
        key.key_authorization("evaGxfADs6pSRb2LAv9IZf17Dt3juxGJ-PCt92wr-oA"),
        format!("evaGxfADs6pSRb2LAv9IZf17Dt3juxGJ-PCt92wr-oA.{}", THUMBPRINT)
    );
    assert_eq!(key.key_authorization(""), format!(".{}", THUMBPRINT));
}

#[test]
fn thumbprint_does_not_depend_on_how_the_key_was_written() {
    let pem = Rsa::generate(2048).unwrap();
    let pkcs1 = pem.private_key_to_pem().unwrap();
    let pkcs8 = PKey::from_rsa(pem).unwrap().private_key_to_pem_pkcs8().unwrap();
    assert_ne!(pkcs1, pkcs8);
    let first = jwk(&RsaKey::from_pem(pkcs1).unwrap()).unwrap();
    let second = jwk(&RsaKey::from_pem(pkcs8).unwrap()).unwrap();
    assert_eq!(first.thumbprint(), second.thumbprint());
    assert_eq!(first.key_authorization("token"), second.key_authorization("token"));
}

#[test]
fn jwk_holds_the_public_numbers_of_the_key() {
    let rsa = Rsa::generate(2048).unwrap();
    let key = RsaKey::from_pem(rsa.private_key_to_pem().unwrap()).unwrap();
    let web_key = jwk(&key).unwrap();
    assert_eq!(web_key.n, rsa.n().to_vec());
    assert_eq!(web_key.e, rsa.e().to_vec());
    assert_eq!(web_key.e, vec![1, 0, 1]);
    assert_eq!(web_key.n.len(), 256);
}

#[test]
fn protected_header_json_with_kid() {
    assert_eq!(
        order_header().to_json(),
        "{\"alg\":\"RS256\",\"nonce\":\"nonce-1\",\"url\":\"https://ca.test/acme/new-order\",\"kid\":\"https://ca.test/acme/acct/1\"}"
    );
}

#[test]
fn protected_header_json_with_jwk() {
    let header = ProtectedHeader {
        nonce: "n\"1".to_string(),
        url: "https://ca.test/acme/new-acct".to_string(),
        key: KeyId::Jwk(known_key()),
    };
    assert_eq!(
        header.to_json(),
        format!(
            "{{\"alg\":\"RS256\",\"nonce\":\"n\\\"1\",\"url\":\"https://ca.test/acme/new-acct\",\"jwk\":{{\"kty\":\"RSA\",\"e\":\"AQAB\",\"n\":\"{}\"}}}}",
            MODULUS
        )
    );
    let parsed: serde_json::Value = serde_json::from_str(&header.to_json()).unwrap();
    assert_eq!(parsed["nonce"], "n\"1");
    assert_eq!(parsed["jwk"]["kty"], "RSA");
    assert!(parsed.get("kid").is_none());
}

#[test]
fn signing_input_is_header_dot_payload() {
    assert_eq!(
        signing_input_text(&order_header(), &order_payload()),
        format!("{}.{}", PROTECTED, PAYLOAD)
    );
}

#[test]
fn signing_input_of_post_as_get_keeps_the_dot() {
    assert_eq!(signing_input_text(&order_header(), &Payload::Empty), format!("{}.", PROTECTED));
    assert_eq!(Payload::Empty.segment(), "");
    assert_eq!(Payload::Json(String::new()).segment(), "");
    assert_eq!(Payload::Json("{}".to_string()).segment(), "e30");
}

#[test]
fn jws_signs_the_signing_input() {
    let key = generate_rsa_key().unwrap();
    let signed = jws(order_payload(), order_header(), &key).unwrap();
    assert_eq!(signed.protected, PROTECTED);
    assert_eq!(signed.payload, PAYLOAD);
    assert!(verifies(&key, &format!("{}.{}", PROTECTED, PAYLOAD), &signed.signature));
    assert!(!verifies(&key, &format!("{}.", PROTECTED), &signed.signature));
    let again = jws(order_payload(), order_header(), &key).unwrap();
    assert_eq!(signed.signature, again.signature);
}

#[test]
fn jws_of_post_as_get_has_an_empty_payload() {
    let key = generate_rsa_key().unwrap();
    let signed = jws(Payload::Empty, order_header(), &key).unwrap();
    assert_eq!(signed.protected, PROTECTED);
    assert_eq!(signed.payload, "");
    assert!(verifies(&key, &format!("{}.", PROTECTED), &signed.signature));
    let body: serde_json::Value = serde_json::from_str(&signed.to_json()).unwrap();
    assert_eq!(body["payload"], "");
    assert_eq!(body["protected"], PROTECTED);
    assert_eq!(body["signature"], signed.signature.as_str());
}

#[test]
fn jws_signature_verifies_against_the_jwk() {
    let key = generate_rsa_key().unwrap();
    let web_key = jwk(&key).unwrap();
    let signed = jws(order_payload(), order_header(), &key).unwrap();
    let n = openssl::bn::BigNum::from_slice(&web_key.n).unwrap();
    let e = openssl::bn::BigNum::from_slice(&web_key.e).unwrap();
    let public = PKey::from_rsa(Rsa::from_public_components(n, e).unwrap()).unwrap();
    let mut verifier = Verifier::new(MessageDigest::sha256(), &public).unwrap();
    verifier.update(format!("{}.{}", signed.protected, signed.payload).as_bytes()).unwrap();
    assert!(verifier.verify(&b64_decode(&signed.signature).unwrap()).unwrap());
}

#[test]
fn jws_json_has_the_three_members() {
    let signed = Jws::assemble(&order_header(), &order_payload(), &[0xfb, 0xff, 0xbf]);
    assert_eq!(signed.signature, "-_-_");
    assert_eq!(
        signed.to_json(),
        format!(
            "{{\"protected\":\"{}\",\"payload\":\"{}\",\"signature\":\"-_-_\"}}",
            PROTECTED, PAYLOAD
        )
    );
}

#[test]
fn signer_signs_header_dot_payload() {
    let key = generate_rsa_key().unwrap();
    let pem = key.private_pem().clone();
    let signer = RS256Signer::new(key);
    let signature = signer.compute_mac(PROTECTED.as_bytes(), PAYLOAD.as_bytes()).unwrap();
    let key = RsaKey::from_pem(pem).unwrap();
    assert!(verifies(&key, &format!("{}.{}", PROTECTED, PAYLOAD), &b64(&signature)));
    assert_eq!(signature, key.sign(format!("{}.{}", PROTECTED, PAYLOAD).as_bytes()).unwrap());
    assert_eq!(signature.len(), 256);
}
