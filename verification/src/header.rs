//! Header values and header collections of HTTP messages.
//!
//! A [`HeaderValue`] is seen as the bytes it holds, and the headers of a message as a map from
//! lower-case names to the values under each name, in the order in which they were added.
use reqwest::header::{HeaderValue, InvalidHeaderValue, ToStrError};
use vstd::prelude::*;
use vstd::utf8::encode_utf8;

verus! {

/// `HeaderValue`, of which [`header_bytes`] tells what it holds.
#[verifier::external_type_specification]
#[verifier::external_body]
pub struct ExHeaderValue(reqwest::header::HeaderValue);

/// `InvalidHeaderValue`, of which nothing is read.
#[verifier::external_type_specification]
#[verifier::external_body]
pub struct ExInvalidHeaderValue(reqwest::header::InvalidHeaderValue);

/// `ToStrError`, of which nothing is read.
#[verifier::external_type_specification]
#[verifier::external_body]
pub struct ExToStrError(reqwest::header::ToStrError);

/// The bytes that a header value holds.
pub uninterp spec fn header_bytes(value: reqwest::header::HeaderValue) -> Seq<u8>;

/// The headers of a message: under each name, its values in the order in which they were added.
pub type Headers = Map<Seq<char>, Seq<Seq<u8>>>;

/// A character that may stand in a header value made from text: a tab, or anything from the space
/// on except the delete character.
pub open spec fn is_header_char(c: char) -> bool {
    c == '\t' || (' ' <= c && c != '\x7f')
}

/// Text that a header value can be made from.
pub open spec fn is_header_text(text: Seq<char>) -> bool {
    forall|i: int| 0 <= i < text.len() ==> is_header_char(#[trigger] text[i])
}

/// A byte of a header value that stands for a visible ASCII character, a space or a tab.
pub open spec fn is_visible_ascii(b: u8) -> bool {
    b == 9 || 32 <= b < 127
}

/// Bytes of a header value that can be read as text.
pub open spec fn is_visible(bytes: Seq<u8>) -> bool {
    forall|i: int| 0 <= i < bytes.len() ==> is_visible_ascii(#[trigger] bytes[i])
}

/// The text that ASCII bytes spell.
pub open spec fn ascii_text(bytes: Seq<u8>) -> Seq<char> {
    Seq::new(bytes.len(), |i: int| bytes[i] as char)
}

/// A header name as this library writes them: a short word of lower-case letters and hyphens.
pub open spec fn is_header_name(name: Seq<char>) -> bool {
    &&& 0 < name.len() <= 64
    &&& forall|i: int|
        0 <= i < name.len() ==> 'a' <= #[trigger] name[i] <= 'z' || name[i] == '-'
}

/// Header names as this library writes them.
pub open spec fn are_header_names(names: Seq<Seq<char>>) -> bool {
    forall|i: int| 0 <= i < names.len() ==> is_header_name(#[trigger] names[i])
}

/// The room of a header collection: the names under which headers can be added to it, one after
/// the other, before it is full.
pub type Room = Set<Seq<Seq<char>>>;

/// What is left of `room` once a header is added under `name`.
pub open spec fn room_after(room: Room, name: Seq<char>) -> Room {
    Set::new(|names: Seq<Seq<char>>| room.contains(seq![name] + names))
}

/// `headers` with `value` added under `name`, behind the values that are there already.
pub open spec fn with_header(headers: Headers, name: Seq<char>, value: Seq<u8>) -> Headers {
    let values = if headers.contains_key(name) {
        headers[name]
    } else {
        Seq::empty()
    };
    headers.insert(name, values.push(value))
}

/// `HeaderValue::from_str` takes text all of whose characters may stand in a header value, and
/// keeps its UTF-8 bytes; it refuses any other text.
pub assume_specification[ HeaderValue::from_str ](src: &str) -> (r: Result<
    HeaderValue,
    InvalidHeaderValue,
>)
    ensures
        match r {
            Ok(value) => is_header_text(src@) && header_bytes(value) == encode_utf8(src@),
            Err(_) => !is_header_text(src@),
        },
;

/// `HeaderValue::from_static` keeps the bytes of its argument, which must be visible ASCII: on
/// anything else it panics.
pub assume_specification[ HeaderValue::from_static ](src: &'static str) -> (value: HeaderValue)
    requires
        is_visible(encode_utf8(src@)),
    ensures
        header_bytes(value) == encode_utf8(src@),
;

/// `HeaderValue::to_str` reads a value as text exactly when all its bytes are visible ASCII.
pub assume_specification[ HeaderValue::to_str ](value: &HeaderValue) -> (r: Result<
    &str,
    ToStrError,
>)
    ensures
        match r {
            Ok(text) => is_visible(header_bytes(*value)) && text@ == ascii_text(
                header_bytes(*value),
            ),
            Err(_) => !is_visible(header_bytes(*value)),
        },
;

} // verus!
