//! Calls into `reqwest` and the standard library, with what is relied on of each.

use vstd::prelude::*;
use vstd::utf8::*;

verus! {

/// The characters that an HTTP method is made of.
pub open spec fn is_method_char(c: char) -> bool {
    ||| 'a' <= c <= 'z'
    ||| 'A' <= c <= 'Z'
    ||| '0' <= c <= '9'
    ||| c == '!' || c == '#' || c == '$' || c == '%' || c == '&' || c == '\''
    ||| c == '*' || c == '+' || c == '-' || c == '.' || c == '^' || c == '_'
    ||| c == '`' || c == '|' || c == '~'
}

/// Whether a text is an HTTP method: one or more of the characters of a method.
pub open spec fn is_method(text: Seq<char>) -> bool {
    &&& text.len() > 0
    &&& forall|i: int| 0 <= i < text.len() ==> is_method_char(#[trigger] text[i])
}

/// Parses an HTTP method with `reqwest::Method::from_bytes`. Relied on: it accepts exactly the
/// non-empty texts of method characters and keeps them as they are, and the text of its error is
/// always the same.
#[verifier::external_body]
pub(crate) fn parse_method(method: &str) -> (r: Result<String, String>)
    ensures
        r is Ok <==> is_method(method@),
        r matches Ok(text) ==> text@ == method@,
        r matches Err(text) ==> text@ == "invalid HTTP method"@,
{
    match reqwest::Method::from_bytes(method.as_bytes()) {
        Ok(method) => Ok(method.as_str().to_string()),
        Err(error) => Err(error.to_string()),
    }
}

/// The bytes that a header value may hold.
pub open spec fn is_header_byte(b: u8) -> bool {
    b >= 32 && b != 127 || b == 9
}

/// The bytes of a header value that reads as text: visible ASCII, spaces and tabs.
pub open spec fn is_text_byte(b: u8) -> bool {
    32 <= b < 127 || b == 9
}

/// What the bytes of a header value read as: their text, or the text of the error.
pub open spec fn header_reading(bytes: Seq<u8>) -> Result<Seq<char>, Seq<char>> {
    if forall|i: int| 0 <= i < bytes.len() ==> is_text_byte(#[trigger] bytes[i]) {
        Ok(bytes.map_values(|b: u8| b as char))
    } else if forall|i: int| 0 <= i < bytes.len() ==> is_header_byte(#[trigger] bytes[i]) {
        Err("failed to convert header to a str"@)
    } else {
        Err("failed to parse header value"@)
    }
}

/// A text or the text of an error, as sequences of characters.
pub open spec fn reading_view(r: Result<String, String>) -> Result<Seq<char>, Seq<char>> {
    match r {
        Ok(text) => Ok(text@),
        Err(text) => Err(text@),
    }
}

/// Reads the bytes of a header value with `reqwest::header::HeaderValue::to_str`, on the value
/// that `HeaderValue::from_bytes` makes of them. Relied on: `from_bytes` refuses exactly the
/// values with a byte that no header value may hold, `to_str` refuses exactly those with a byte
/// that is no text and gives back the others unchanged, and the text of each error is always the
/// same.
#[verifier::external_body]
pub(crate) fn read_header(bytes: &[u8]) -> (r: Result<String, String>)
    ensures
        reading_view(r) == header_reading(bytes@),
{
    match reqwest::header::HeaderValue::from_bytes(bytes) {
        Ok(value) => match value.to_str() {
            Ok(text) => Ok(text.to_string()),
            Err(error) => Err(error.to_string()),
        },
        Err(error) => Err(error.to_string()),
    }
}

/// The text that `String::from_utf8_lossy` makes of bytes.
pub uninterp spec fn utf8_lossy(bytes: Seq<u8>) -> Seq<char>;

/// Decodes bytes with `String::from_utf8_lossy`. Relied on: the result depends on the bytes
/// alone, and is their decoding where they are valid UTF-8. Nothing is said of how invalid bytes
/// are replaced.
#[verifier::external_body]
pub(crate) fn decode_lossy(bytes: &[u8]) -> (r: String)
    ensures
        r@ == utf8_lossy(bytes@),
        valid_utf8(bytes@) ==> r@ == decode_utf8(bytes@),
{
    String::from_utf8_lossy(bytes).into_owned()
}

} // verus!
