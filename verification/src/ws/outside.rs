//! The calls this engine makes into other crates, each behind a contract
//! that is taken on trust.

use vstd::prelude::*;

verus! {

/// Declares `httparse::Error`, the parser's error, as an opaque type: it is
/// only carried from the parser to the place that maps it.
#[verifier::external_type_specification]
#[verifier::external_body]
pub struct ExHttparseError(httparse::Error);

/// The standard, padded base64 text of `bytes`, as `base64` produces it.
pub uninterp spec fn base64_standard(bytes: Seq<u8>) -> Seq<char>;

/// What `httparse` makes of `head` when it parses it as a response with room
/// for `max_headers` header lines: `None` where it rejects the bytes, else
/// the status code it has read, if it got that far.
pub uninterp spec fn response_status(head: Seq<u8>, max_headers: nat) -> Option<Option<u16>>;

/// Draws `N` bytes from `rand::rng()` with `Rng::random`.
///
/// Nothing is claimed of the bytes: every value is a possible outcome.
/// Two calls need not agree.
#[verifier::external_body]
pub(crate) fn random_bytes<const N: usize>() -> (bytes: [u8; N]) {
    rand::Rng::random(&mut rand::rng())
}

/// Calls `Engine::encode` of `base64::engine::general_purpose::STANDARD`.
///
/// The contract only gives the resulting text its name.
#[verifier::external_body]
pub(crate) fn base64_encode(bytes: &[u8; 16]) -> (text: String)
    ensures
        text@ == base64_standard(bytes@),
{
    base64::Engine::encode(&base64::engine::general_purpose::STANDARD, bytes)
}

/// Reads `http::StatusCode::SWITCHING_PROTOCOLS` with `StatusCode::as_u16`,
/// which the `http` crate defines as 101.
#[verifier::external_body]
pub(crate) fn switching_protocols() -> (code: u16)
    ensures
        code == 101,
{
    http::StatusCode::SWITCHING_PROTOCOLS.as_u16()
}

/// Runs `httparse::Response::parse` on `head` over `max_headers` empty headers.
///
/// Returns the parser's error, or the status code field of the response as
/// the parser left it. The contract names that outcome and claims nothing else.
#[verifier::external_body]
pub(crate) fn parse_response_head(head: &[u8], max_headers: usize) -> (parsed: Result<
    Option<u16>,
    httparse::Error,
>)
    ensures
        match parsed {
            Ok(code) => response_status(head@, max_headers as nat) == Some(code),
            Err(_) => response_status(head@, max_headers as nat).is_none(),
        },
{
    let mut headers = vec![httparse::EMPTY_HEADER; max_headers];
    let mut response = httparse::Response::new(&mut headers);
    match response.parse(head) {
        Ok(_) => Ok(response.code),
        Err(e) => Err(e),
    }
}

} // verus!
