//! The headers of a response, and the entity tag among them.

use vstd::prelude::*;

use crate::text;

verus! {

#[verifier::external_type_specification]
#[verifier::external_body]
#[verifier::reject_recursive_types(T)]
pub struct ExHeaderMap<T>(http::HeaderMap<T>);

#[verifier::external_type_specification]
#[verifier::external_body]
pub struct ExHeaderValue(http::HeaderValue);

/// For each header name in the map, in small letters, the bytes of the first
/// value under it.
pub uninterp spec fn first_values(
    headers: http::HeaderMap<http::HeaderValue>,
) -> Map<Seq<char>, Seq<u8>>;

/// Wraps `http::HeaderMap::get` with the key `http::header::ETAG`, whose name is
/// `etag`: the first value under the name, or nothing where there is none. The
/// value is handed out as its bytes.
#[verifier::external_body]
fn etag_bytes(headers: &http::HeaderMap<http::HeaderValue>) -> (bytes: Option<Vec<u8>>)
    ensures
        match bytes {
            Some(b) => first_values(*headers).contains_pair("etag"@, b@),
            None => !first_values(*headers).contains_key("etag"@),
        },
{
    headers.get(http::header::ETAG).map(|value| value.as_bytes().to_vec())
}

/// The byte is a visible ASCII character, a space or a tab.
pub open spec fn is_plain_byte(b: u8) -> bool {
    32 <= b < 127 || b == 9
}

/// The text of a header value: the value is plain ASCII, or has no text.
pub open spec fn value_text(bytes: Seq<u8>) -> Option<Seq<char>> {
    if forall|i: int| 0 <= i < bytes.len() ==> is_plain_byte(#[trigger] bytes[i]) {
        Some(bytes.map_values(|b: u8| b as char))
    } else {
        None
    }
}

/// The entity tag that the headers carry, where it has a text.
pub open spec fn etag_of(headers: http::HeaderMap<http::HeaderValue>) -> Option<Seq<char>> {
    if first_values(headers).contains_key("etag"@) {
        value_text(first_values(headers)["etag"@])
    } else {
        None
    }
}

/// The text of a header value with these bytes, where it has one.
pub fn header_text(bytes: &[u8]) -> (text: Option<String>)
    ensures
        text::viewed(text) == value_text(bytes@),
{
    let mut text = String::new();
    let mut i: usize = 0;
    while i < bytes.len()
        invariant
            i <= bytes@.len(),
            text@ == bytes@.take(i as int).map_values(|b: u8| b as char),
            forall|j: int| 0 <= j < i ==> is_plain_byte(#[trigger] bytes@[j]),
        decreases bytes@.len() - i,
    {
        let b: u8 = bytes[i];
        if !((32 <= b && b < 127) || b == 9) {
            assert(!is_plain_byte(bytes@[i as int]));
            return None;
        }
        text.push(b as char);
        assert(text@ =~= bytes@.take(i + 1).map_values(|b: u8| b as char));
        i += 1;
    }
    assert(bytes@.take(i as int) =~= bytes@);
    Some(text)
}

/// The entity tag that the headers carry, where it has a text.
pub fn etag(headers: &http::HeaderMap<http::HeaderValue>) -> (tag: Option<String>)
    ensures
        text::viewed(tag) == etag_of(*headers),
{
    match etag_bytes(headers) {
        Some(bytes) => header_text(bytes.as_slice()),
        None => None,
    }
}

} // verus!
