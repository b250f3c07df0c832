//! The parts of HTTP that the rules speak of: status codes, header values, bodies and URLs.
use bytes::Bytes;
use vstd::prelude::*;
use vstd::utf8::*;

verus! {

pub const OK: u16 = 200;

pub const UNAUTHORIZED: u16 = 401;

pub const FORBIDDEN: u16 = 403;

pub const NOT_FOUND: u16 = 404;

pub const INTERNAL_SERVER_ERROR: u16 = 500;

pub const BAD_GATEWAY: u16 = 502;

/// `bytes::Bytes`, a shared sequence of bytes.
#[verifier::external_type_specification]
#[verifier::external_body]
pub struct ExBytes(Bytes);

/// The bytes that a `Bytes` value holds.
pub uninterp spec fn bytes_held(b: Bytes) -> Seq<u8>;

/// `<Bytes as From<String>>::from`: the UTF-8 form of the text.
#[verifier::external_body]
pub(crate) fn bytes_from_text(text: String) -> (r: Bytes)
    ensures
        bytes_held(r) == encode_utf8(text@),
{
    Bytes::from(text)
}

/// `Bytes::copy_from_slice`: a copy of the bytes given.
#[verifier::external_body]
pub(crate) fn bytes_copied(data: &[u8]) -> (r: Bytes)
    ensures
        bytes_held(r) == data@,
{
    Bytes::copy_from_slice(data)
}

/// The bytes of a header value that count as text: visible ASCII, space and tab.
pub open spec fn header_byte(b: u8) -> bool {
    32 <= b < 127 || b == 9
}

/// The text of a header value, where every byte of it is text.
pub open spec fn header_chars(value: Seq<u8>) -> Option<Seq<char>> {
    if forall|i: int| 0 <= i < value.len() ==> header_byte(#[trigger] value[i]) {
        Some(value.map_values(|b: u8| b as char))
    } else {
        None
    }
}

/// The text of a header that a request may or may not carry.
pub open spec fn header_value_chars(value: Option<Seq<u8>>) -> Option<Seq<char>> {
    match value {
        Some(bytes) => header_chars(bytes),
        None => None,
    }
}

/// The bytes of an optional header value.
pub open spec fn header_bytes(value: Option<&[u8]>) -> Option<Seq<u8>> {
    match value {
        Some(bytes) => Some(bytes@),
        None => None,
    }
}

/// `axum::http::HeaderValue::to_str` on the header value that `from_bytes` makes of these bytes:
/// the text, where every byte is visible ASCII, space or tab. `None` stands for the error that
/// some byte is not. `from_bytes` refuses only bytes that `to_str` would refuse too.
#[verifier::external_body]
fn header_to_str(value: &[u8]) -> (r: Option<String>)
    ensures
        r matches Some(t) ==> header_chars(value@) == Some(t@),
        r is None ==> header_chars(value@) is None,
{
    match axum::http::HeaderValue::from_bytes(value) {
        Ok(header) => match header.to_str() {
            Ok(text) => Some(text.to_string()),
            Err(_) => None,
        },
        Err(_) => None,
    }
}

/// The text of a header that a request may or may not carry.
pub fn header_text(value: Option<&[u8]>) -> (r: Option<String>)
    ensures
        crate::text::text_of(r) == header_value_chars(header_bytes(value)),
{
    match value {
        Some(bytes) => header_to_str(bytes),
        None => None,
    }
}

/// The normal form of an absolute URL as `reqwest::Url::parse` reads it, where it is one.
pub uninterp spec fn parsed_url(url: Seq<char>) -> Option<Seq<char>>;

/// `reqwest::Url::parse`: the URL's normal form. `None` stands for the error that the text is not
/// an absolute URL. Which texts are, and what the normal form looks like, is left to the parser:
/// the contract says that both follow from the text alone.
#[verifier::external_body]
pub(crate) fn parse_url(url: &str) -> (r: Option<String>)
    ensures
        crate::text::text_of(r) == parsed_url(url@),
{
    match reqwest::Url::parse(url) {
        Ok(parsed) => Some(String::from(parsed)),
        Err(_) => None,
    }
}

/// A complete answer.
pub struct Reply {
    pub status: u16,
    pub headers: Vec<(String, String)>,
    pub body: Bytes,
}

/// The head of an answer whose body is a stream.
pub struct ReplyHead {
    pub status: u16,
    pub headers: Vec<(String, String)>,
}

/// The characters of header names and values.
pub open spec fn header_list(headers: Seq<(String, String)>) -> Seq<(Seq<char>, Seq<char>)> {
    headers.map_values(|h: (String, String)| (h.0@, h.1@))
}

/// A header value is text just if it holds no control byte but tabs and nothing beyond ASCII. Its
/// text then has a character for each byte, with that byte's code. A header that is not there has
/// none.
pub proof fn header_text_is_its_bytes(value: Seq<u8>)
    ensures
        header_chars(value) is Some <==> forall|i: int|
            0 <= i < value.len() ==> (#[trigger] value[i] == 9 || 31 < value[i]) && value[i] <= 126,
        header_chars(value) matches Some(s) ==> {
            &&& s.len() == value.len()
            &&& forall|i: int| 0 <= i < value.len() ==> #[trigger] s[i] as int == value[i]
        },
        header_value_chars(Some(value)) == header_chars(value),
        header_value_chars(None) is None,
{
    if forall|i: int|
        0 <= i < value.len() ==> (#[trigger] value[i] == 9 || 31 < value[i]) && value[i] <= 126 {
        assert forall|i: int| 0 <= i < value.len() implies header_byte(#[trigger] value[i]) by {}
    }
}

} // verus!
