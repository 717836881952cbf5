//! The calls into std and into the HTTP stack that the rendering relies on,
//! each with the contract that its documentation or its source gives.
use vstd::prelude::*;
use vstd::utf8::{decode_utf8, valid_utf8};

verus! {

/// Relies on `String::push_str`: the text is appended at the end.
pub assume_specification[ String::push_str ](s: &mut String, string: &str)
    ensures
        final(s)@ == old(s)@ + string@,
;

/// Relies on `String::from_utf8`: it succeeds exactly on valid UTF-8, and the
/// string then holds the decoded characters.
#[verifier::external_body]
pub(crate) fn decode_text(bytes: &Vec<u8>) -> (r: Option<String>)
    ensures
        r is Some <==> valid_utf8(bytes@),
        r is Some ==> r->Some_0@ == decode_utf8(bytes@),
{
    String::from_utf8(bytes.clone()).ok()
}

/// The digit of `n` in base sixteen, in lower case.
pub open spec fn hex_digit(n: u8) -> char
    recommends
        n < 16,
{
    seq!['0', '1', '2', '3', '4', '5', '6', '7', '8', '9', 'a', 'b', 'c', 'd', 'e', 'f'][n as int]
}

/// How one byte is written inside a byte-string literal: the usual escapes,
/// printable ASCII as itself, anything else as `\x` and two hex digits.
pub open spec fn byte_escape(b: u8) -> Seq<char> {
    if b == 0x0a {
        seq!['\\', 'n']
    } else if b == 0x0d {
        seq!['\\', 'r']
    } else if b == 0x09 {
        seq!['\\', 't']
    } else if b == 0x5c {
        seq!['\\', '\\']
    } else if b == 0x22 {
        seq!['\\', '"']
    } else if b == 0 {
        seq!['\\', '0']
    } else if 0x20 <= b && b < 0x7f {
        seq![b as char]
    } else {
        seq!['\\', 'x', hex_digit(b / 16), hex_digit(b % 16)]
    }
}

/// The escapes of all bytes, one after the other.
pub open spec fn escaped_bytes(bytes: Seq<u8>) -> Seq<char>
    decreases bytes.len(),
{
    if bytes.len() == 0 {
        seq![]
    } else {
        escaped_bytes(bytes.drop_last()) + byte_escape(bytes.last())
    }
}

/// The byte-string literal that shows `bytes`: `b"` , the escapes, `"`.
pub open spec fn bytes_debug(bytes: Seq<u8>) -> Seq<char> {
    seq!['b', '"'] + escaped_bytes(bytes) + seq!['"']
}

/// Relies on the `Debug` impl of `bytes::Bytes` (re-exported by axum), which
/// writes the bytes as a byte-string literal.
#[verifier::external_body]
pub(crate) fn render_bytes(bytes: &Vec<u8>) -> (r: String)
    ensures
        r@ == bytes_debug(bytes@),
{
    format!("{:?}", axum::body::Bytes::copy_from_slice(bytes.as_slice()))
}

/// The header map of the `http` crate, as axum hands it to a handler.
#[verifier::external_type_specification]
#[verifier::external_body]
#[verifier::reject_recursive_types(T)]
pub struct ExHeaderMap<T>(axum::http::HeaderMap<T>);

/// A header value of the `http` crate, held in a header map.
#[verifier::external_type_specification]
#[verifier::external_body]
pub struct ExHeaderValue(axum::http::HeaderValue);

/// What the `Debug` impl of a header map writes for it: its entries as a map
/// of quoted names to quoted values.
pub uninterp spec fn header_map_debug(headers: axum::http::HeaderMap) -> Seq<char>;

/// Relies on the `Debug` impl of `http::HeaderMap`, which depends on the
/// map alone.
#[verifier::external_body]
pub(crate) fn render_headers(headers: &axum::http::HeaderMap) -> (r: String)
    ensures
        r@ == header_map_debug(*headers),
{
    format!("{:?}", headers)
}

} // verus!
