use faucet_client::decimal::append_decimal;
use faucet_client::endpoint::{build_request_url, normalize_url};
use faucet_client::faucet::mint_query_text;
use faucet_client::transaction::Ed25519PublicKey;

fn counting_key() -> Ed25519PublicKey {
    let mut bytes = [0u8; 32];
    for (i, byte) in bytes.iter_mut().enumerate() {
        *byte = i as u8;
    }
    Ed25519PublicKey::new(bytes)
}

fn decimal_of(n: u64) -> String {
    let mut text = String::new();
    append_decimal(&mut text, n);
    text
}

#[test]
fn decimal_of_zero_is_one_digit() {
    assert_eq!(decimal_of(0), "0");
}

#[test]
fn decimal_has_no_leading_zero() {
    assert_eq!(decimal_of(7), "7");
    assert_eq!(decimal_of(9), "9");
    assert_eq!(decimal_of(10), "10");
    assert_eq!(decimal_of(100), "100");
    assert_eq!(decimal_of(1_234_567_890), "1234567890");
}

#[test]
fn decimal_of_the_largest_number() {
    assert_eq!(decimal_of(u64::MAX), "18446744073709551615");
}

#[test]
fn decimal_is_appended_to_what_is_there() {
    let mut text = "amount=".to_string();
    append_decimal(&mut text, 305);
    assert_eq!(text, "amount=305");
}

#[test]
fn mint_query_names_key_amount_and_return_txns() {
    assert_eq!(
        mint_query_text(&counting_key(), 100),
        "pub_key=000102030405060708090a0b0c0d0e0f101112131415161718191a1b1c1d1e1f\
         &amount=100&return_txns=true"
    );
}

#[test]
fn mint_query_writes_the_key_in_lower_case() {
    assert_eq!(
        mint_query_text(&Ed25519PublicKey::new([0xAB; 32]), 0),
        "pub_key=abababababababababababababababababababababababababababababababab\
         &amount=0&return_txns=true"
    );
    assert_eq!(
        mint_query_text(&Ed25519PublicKey::new([0xF0; 32]), u64::MAX),
        "pub_key=f0f0f0f0f0f0f0f0f0f0f0f0f0f0f0f0f0f0f0f0f0f0f0f0f0f0f0f0f0f0f0f0\
         &amount=18446744073709551615&return_txns=true"
    );
}

#[test]
fn normalize_url_gives_the_parsed_form() {
    assert_eq!(normalize_url("http://localhost:8080"), Some("http://localhost:8080/".to_string()));
    assert_eq!(
        normalize_url("HTTP://Example.COM:80/a/../b"),
        Some("http://example.com/b".to_string())
    );
}

#[test]
fn normalize_url_refuses_what_is_no_address() {
    assert_eq!(normalize_url(""), None);
    assert_eq!(normalize_url("localhost"), None);
    assert_eq!(normalize_url("not an address"), None);
    assert_eq!(normalize_url("/only/a/path"), None);
    assert_eq!(normalize_url("http://"), None);
}

#[test]
fn request_url_sets_path_and_query() {
    assert_eq!(
        build_request_url("http://localhost:8081", "mint", "amount=1"),
        Some("http://localhost:8081/mint?amount=1".to_string())
    );
    assert_eq!(
        build_request_url("http://localhost:8081/", "mint", "amount=1"),
        Some("http://localhost:8081/mint?amount=1".to_string())
    );
}

#[test]
fn request_url_replaces_path_and_query() {
    assert_eq!(
        build_request_url("https://faucet.test/v1/old?x=1&y=2", "mint", "amount=1"),
        Some("https://faucet.test/mint?amount=1".to_string())
    );
}

#[test]
fn request_url_keeps_the_fragment() {
    assert_eq!(
        build_request_url("https://faucet.test/old#top", "mint", "a=b"),
        Some("https://faucet.test/mint?a=b#top".to_string())
    );
}

#[test]
fn request_url_of_a_malformed_endpoint_is_none() {
    assert_eq!(build_request_url("not an address", "mint", "amount=1"), None);
    assert_eq!(build_request_url("", "mint", "amount=1"), None);
}

#[test]
fn request_url_writes_path_and_query_in_percent_form() {
    assert_eq!(
        build_request_url("http://faucet.test", "a b", "q=\u{fc} x"),
        Some("http://faucet.test/a%20b?q=%C3%BC%20x".to_string())
    );
}

#[test]
fn request_url_depends_on_more_than_the_text_of_the_address() {
    assert_eq!(
        build_request_url("mailto:x", "a?b#c", "q"),
        Some("mailto:a?b#c?q".to_string())
    );
    assert_eq!(
        build_request_url("mailto:a?b#c", "a", "q"),
        Some("mailto:a?q#c".to_string())
    );
}

#[test]
fn request_url_of_an_address_without_hierarchy() {
    assert_eq!(
        build_request_url("mailto:someone@faucet.test", "mint", "amount=1"),
        Some("mailto:mint?amount=1".to_string())
    );
}
