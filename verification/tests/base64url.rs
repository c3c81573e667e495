use acme_rs::base64url::{b64, b64_decode};

#[test]
fn encodes_the_rfc_4648_vectors_without_padding() {
    assert_eq!(b64(b""), "");
    assert_eq!(b64(b"f"), "Zg");
    assert_eq!(b64(b"fo"), "Zm8");
    assert_eq!(b64(b"foo"), "Zm9v");
    assert_eq!(b64(b"foob"), "Zm9vYg");
    assert_eq!(b64(b"fooba"), "Zm9vYmE");
    assert_eq!(b64(b"foobar"), "Zm9vYmFy");
}

#[test]
fn uses_the_url_safe_alphabet() {
    assert_eq!(b64(&[0xfb, 0xff, 0xbf]), "-_-_");
    assert_eq!(b64(&[0xff]), "_w");
}

#[test]
fn decodes_what_it_encodes() {
    let mut bytes: Vec<u8> = Vec::new();
    for round in 0..600u32 {
        let text = b64(&bytes);
        assert!(!text.contains('='));
        assert_eq!(b64_decode(&text), Some(bytes.clone()));
        bytes.push((round.wrapping_mul(167).wrapping_add(13) % 256) as u8);
    }
}

#[test]
fn refuses_what_is_no_encoding() {
    assert_eq!(b64_decode("Z"), None);
    assert_eq!(b64_decode("Zg=="), None);
    assert_eq!(b64_decode("Zh"), None);
    assert_eq!(b64_decode("Zm9"), None);
    assert_eq!(b64_decode("Zm+v"), None);
    assert_eq!(b64_decode("Zm/v"), None);
    assert_eq!(b64_decode("Zm9v Zg"), None);
    assert_eq!(b64_decode("Zm9\u{e9}"), None);
    assert_eq!(b64_decode("Zg"), Some(b"f".to_vec()));
    assert_eq!(b64_decode("-_-_"), Some(vec![0xfb, 0xff, 0xbf]));
}
