//! Opaque random tokens and their URL-safe text form.
//!
//! A token is 64 bytes of operating-system randomness; on the wire and in
//! URLs it travels as unpadded URL-safe base64. Randomness and the base64
//! codec are entrusted to the `getrandom` and `base64-url` crates; what is
//! around them is verified.

use vstd::prelude::*;

verus! {

/// Why a token could not be produced or read.
#[derive(Clone, Copy, Debug, PartialEq, Eq, Structural)]
pub enum TokenError {
    /// The operating system's randomness source failed.
    Random,
    /// The text is not valid URL-safe base64.
    Decode,
}

#[verifier::external_type_specification]
#[verifier::external_body]
pub struct ExGetrandomError(getrandom::Error);

#[verifier::external_type_specification]
#[verifier::external_body]
pub struct ExBase64DecodeError(base64_url::base64::DecodeError);

/// The unpadded URL-safe base64 text of a byte sequence.
pub uninterp spec fn b64url_of(bytes: Seq<u8>) -> Seq<char>;

/// The bytes an unpadded URL-safe base64 text denotes, or nothing if the
/// text is not valid base64.
pub uninterp spec fn b64url_decode_of(s: Seq<char>) -> Option<Seq<u8>>;

/// Relies on `getrandom::getrandom`: fills the buffer with randomness from
/// the operating system. Nothing is promised of the bytes themselves.
#[verifier::external_body]
fn random_bytes_64() -> (r: Result<Vec<u8>, getrandom::Error>)
    ensures
        r matches Ok(v) ==> v@.len() == 64,
{
    let mut buf = [0u8; 64];
    match getrandom::getrandom(&mut buf) {
        Ok(()) => Ok(buf.to_vec()),
        Err(e) => Err(e),
    }
}

/// Relies on `base64_url::encode`: unpadded URL-safe base64, a function of
/// the input bytes alone; an empty input gives an empty string; and the
/// crate's own decoder inverts it, so decoding an encoding yields exactly
/// the encoded bytes.
#[verifier::external_body]
fn b64url_encode(bytes: &[u8]) -> (r: String)
    ensures
        r@ == b64url_of(bytes@),
        bytes@.len() == 0 ==> r@.len() == 0,
        b64url_decode_of(r@) == Some(bytes@),
{
    base64_url::encode(bytes)
}

/// Relies on `base64_url::decode`: the inverse reading of unpadded
/// URL-safe base64, a function of the input text alone; it fails exactly
/// on text that is not valid base64.
#[verifier::external_body]
fn b64url_decode(s: &str) -> (r: Result<Vec<u8>, base64_url::base64::DecodeError>)
    ensures
        r matches Ok(v) ==> b64url_decode_of(s@) == Some(v@),
        r is Err ==> b64url_decode_of(s@) is None,
{
    base64_url::decode(s)
}

/// An opaque 64-byte random credential.
pub struct Token {
    bytes: Vec<u8>,
}

impl View for Token {
    type V = Seq<u8>;

    closed spec fn view(&self) -> Seq<u8> {
        self.bytes@
    }
}

impl Token {
    /// A fresh token: 64 bytes of operating-system randomness. Fails only
    /// when the randomness source does.
    pub fn new() -> (r: Result<Token, TokenError>)
        ensures
            r matches Ok(t) ==> t@.len() == 64,
            r matches Err(e) ==> e == TokenError::Random,
    {
        match random_bytes_64() {
            Ok(bytes) => Ok(Token { bytes }),
            Err(_) => Err(TokenError::Random),
        }
    }

    /// The token's bytes.
    pub fn as_bytes(&self) -> (b: &Vec<u8>)
        ensures
            b@ == self@,
    {
        &self.bytes
    }

    /// The token as unpadded URL-safe base64, its only text form.
    /// Decoding it yields exactly the token's bytes back, so
    /// [`Token::decode`] of this text returns the same token.
    pub fn encode(&self) -> (s: String)
        ensures
            s@ == b64url_of(self@),
            b64url_decode_of(s@) == Some(self@),
    {
        b64url_encode(self.bytes.as_slice())
    }

    /// A token read back from its text form; fails exactly on text that is
    /// not valid URL-safe base64.
    pub fn decode(s: &str) -> (r: Result<Token, TokenError>)
        ensures
            r matches Ok(t) ==> b64url_decode_of(s@) == Some(t@),
            r matches Err(e) ==> e == TokenError::Decode && b64url_decode_of(s@) is None,
    {
        match b64url_decode(s) {
            Ok(bytes) => Ok(Token { bytes }),
            Err(_) => Err(TokenError::Decode),
        }
    }
}

} // verus!
