use arb_core::bitget::BitgetConnector;
use arb_core::bybit::BybitConnector;
use arb_core::codec::{b64_standard, bytes_eq, contains_bytes, hex_lower, hmac_sha256, u64_digits};
use arb_core::config::ExchangeConfig;
use arb_core::decimal::Decimal;
use hmac::Mac;

fn cfg(key: &str, secret: &str, passphrase: Option<&str>) -> ExchangeConfig {
    ExchangeConfig {
        enabled: true,
        api_key: key.to_string(),
        api_secret: secret.to_string(),
        passphrase: passphrase.map(|p| p.to_string()),
        fee_pct: Decimal::new(1, 1),
    }
}

fn reference_hmac(secret: &[u8], msg: &[u8]) -> Vec<u8> {
    let mut mac = <hmac::Hmac<sha2::Sha256> as hmac::KeyInit>::new_from_slice(secret).unwrap();
    mac.update(msg);
    mac.finalize().into_bytes().to_vec()
}

#[test]
fn u64_digits_renders_decimal() {
    assert_eq!(u64_digits(0), b"0".to_vec());
    assert_eq!(u64_digits(1700000000123), b"1700000000123".to_vec());
}

#[test]
fn hex_matches_the_crate() {
    let bytes = [0u8, 1, 15, 16, 171, 255];
    assert_eq!(hex_lower(&bytes), hex::encode(bytes));
    assert_eq!(hex_lower(&bytes), "00010f10abff");
}

#[test]
fn base64_matches_the_crate() {
    for input in [&b""[..], b"f", b"fo", b"foo", b"foob", b"fooba", b"foobar"] {
        assert_eq!(
            b64_standard(input),
            base64::Engine::encode(&base64::engine::general_purpose::STANDARD, input)
        );
    }
    assert_eq!(b64_standard(b"foobar"), "Zm9vYmFy");
    assert_eq!(b64_standard(b"fo"), "Zm8=");
}

#[test]
fn hmac_matches_the_crate() {
    let tag = hmac_sha256(b"key", b"The quick brown fox jumps over the lazy dog");
    assert_eq!(tag, reference_hmac(b"key", b"The quick brown fox jumps over the lazy dog"));
    assert_eq!(
        hex::encode(&tag),
        "f7bc83f430538424b13298e6aa6fb143ef4d59a14946175997479dbc2d1a3cd8"
    );
}

#[test]
fn bybit_signature_is_hmac_of_timestamp_key_and_query() {
    let c = BybitConnector::new(cfg("my-key", "test-signing-secret", None));
    let sig = c.sign_request(1700000000123, r#"{"symbol":"BTCUSDT"}"#);
    let payload = format!("{}{}{}", 1700000000123u64, "my-key", r#"{"symbol":"BTCUSDT"}"#);
    let expected = hex::encode(reference_hmac(b"test-signing-secret", payload.as_bytes()));
    assert_eq!(sig, expected);
}

#[test]
fn bitget_signature_is_base64_hmac_of_prehash() {
    let c = BitgetConnector::new(cfg("k", "test-signing-secret", Some("phrase")));
    let sig = c.sign_request(1700000000123, "post", "/api/v2/spot/trade/place-order", "{}");
    let prehash = format!(
        "{}{}{}{}",
        1700000000123u64, "POST", "/api/v2/spot/trade/place-order", "{}"
    );
    let expected = base64::Engine::encode(
        &base64::engine::general_purpose::STANDARD,
        reference_hmac(b"test-signing-secret", prehash.as_bytes()),
    );
    assert_eq!(sig, expected);
}

#[test]
fn contains_bytes_finds_substrings() {
    assert!(contains_bytes(b"hello world", b"o wo"));
    assert!(contains_bytes(b"hello", b""));
    assert!(!contains_bytes(b"hello", b"world"));
    assert!(!contains_bytes(b"ab", b"abc"));
}

#[test]
fn bytes_eq_is_exact() {
    assert!(bytes_eq(b"pong", b"pong"));
    assert!(!bytes_eq(b"pong", b"pongg"));
    assert!(!bytes_eq(b"pong", b"ping"));
}
