//! Tokens and their URL-safe base64 text form.

use itty_core::util_token::{Token, TokenError};

#[test]
fn fresh_tokens_hold_64_random_bytes() {
    let a = Token::new().unwrap();
    let b = Token::new().unwrap();
    assert_eq!(a.as_bytes().len(), 64);
    assert_eq!(b.as_bytes().len(), 64);
    // Two draws from the randomness source coincide with probability 2^-512.
    assert_ne!(a.as_bytes(), b.as_bytes());
}

#[test]
fn encoding_is_unpadded_url_safe_base64() {
    let t = Token::decode("AQID").unwrap();
    assert_eq!(t.as_bytes(), &vec![1u8, 2, 3]);
    assert_eq!(t.encode(), "AQID");

    let hello = Token::decode("aGVsbG8").unwrap();
    assert_eq!(t.as_bytes().len(), 3);
    assert_eq!(hello.as_bytes(), &b"hello".to_vec());
    assert_eq!(hello.encode(), "aGVsbG8");
}

#[test]
fn encoding_round_trips_a_fresh_token() {
    let t = Token::new().unwrap();
    let text = t.encode();
    // 64 bytes make 86 base64 digits without padding.
    assert_eq!(text.len(), 86);
    let back = Token::decode(&text).unwrap();
    assert_eq!(back.as_bytes(), t.as_bytes());
}

#[test]
fn invalid_base64_is_rejected() {
    assert_eq!(Token::decode("!!!").err(), Some(TokenError::Decode));
    assert_eq!(Token::decode("AQID=").err(), Some(TokenError::Decode));
    assert!(Token::decode("").is_ok());
}
