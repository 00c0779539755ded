//! Recognition of the media type of an event stream.
use reqwest::header::HeaderValue;
use vstd::prelude::*;

use crate::header::{ascii_text, header_bytes, is_visible};

verus! {

/// The type and the subtype, without suffix and parameters, that the media type parser reads in
/// a text; nothing where it refuses the text.
pub uninterp spec fn media_names(text: Seq<char>) -> Option<(Seq<char>, Seq<char>)>;

/// An ASCII letter in lower case; any other character as it is.
pub open spec fn lower(c: char) -> char {
    if 'A' <= c <= 'Z' {
        ((c as u32) + 32) as char
    } else {
        c
    }
}

/// Text with its ASCII letters in lower case.
pub open spec fn lower_text(text: Seq<char>) -> Seq<char> {
    text.map_values(|c: char| lower(c))
}

/// The type and subtype of an event stream.
pub open spec fn are_event_stream(names: Option<(Seq<char>, Seq<char>)>) -> bool {
    names == Some(("text"@, "event-stream"@))
}

/// A `Content-Type` that announces an event stream: it reads as text, and the media type parser
/// finds `text` and `event-stream` in it.
pub open spec fn announces_event_stream(content_type: Seq<u8>) -> bool {
    is_visible(content_type) && are_event_stream(media_names(ascii_text(content_type)))
}

/// A `Content-Type` that reads `text/event-stream`, in any case, and nothing else.
pub open spec fn spells_event_stream(content_type: Seq<u8>) -> bool {
    is_visible(content_type) && lower_text(ascii_text(content_type)) == "text/event-stream"@
}

/// A character of a name or of a value that needs no quotes, as HTTP has it.
pub open spec fn is_token_char(c: char) -> bool {
    ||| 'a' <= c <= 'z'
    ||| 'A' <= c <= 'Z'
    ||| '0' <= c <= '9'
    ||| c == '!' || c == '#' || c == '$' || c == '%' || c == '&' || c == '\'' || c == '*' || c == '+'
    ||| c == '-' || c == '.' || c == '^' || c == '_' || c == '`' || c == '|' || c == '~'
}

/// A name, or a value that needs no quotes.
pub open spec fn is_token(text: Seq<char>) -> bool {
    &&& 0 < text.len()
    &&& forall|i: int| 0 <= i < text.len() ==> is_token_char(#[trigger] text[i])
}

/// Spaces, or nothing.
pub open spec fn are_spaces(text: Seq<char>) -> bool {
    forall|i: int| 0 <= i < text.len() ==> #[trigger] text[i] == ' '
}

/// A parameter of a media type as it is written, with `spaces` behind the semicolon.
pub open spec fn parameter(spaces: Seq<char>, name: Seq<char>, value: Seq<char>) -> Seq<char> {
    seq![';'] + spaces + name + seq!['='] + value
}

/// A well-formed parameter whose value needs no quotes.
pub open spec fn is_parameter(text: Seq<char>) -> bool {
    exists|spaces: Seq<char>, name: Seq<char>, value: Seq<char>|
        text == #[trigger] parameter(spaces, name, value) && are_spaces(spaces) && is_token(name)
            && is_token(value)
}

/// The media type of an event stream, with parameters.
pub open spec fn event_stream_with(parameters: Seq<Seq<char>>) -> Seq<char> {
    "text/event-stream"@ + parameters.flatten()
}

/// Text that reads `text/event-stream`, in any case, with any number of well-formed parameters
/// behind it.
pub open spec fn reads_event_stream(text: Seq<char>) -> bool {
    exists|parameters: Seq<Seq<char>>|
        lower_text(text) == #[trigger] event_stream_with(parameters) && forall|i: int|
            0 <= i < parameters.len() ==> is_parameter(#[trigger] parameters[i])
}

/// A `Content-Type` that reads `text/event-stream`, in any case, with any number of well-formed
/// parameters behind it.
pub open spec fn means_event_stream(content_type: Seq<u8>) -> bool {
    is_visible(content_type) && reads_event_stream(ascii_text(content_type))
}

/// A `Content-Type` that begins with `text/event-stream`, in any case.
pub open spec fn begins_like_event_stream(content_type: Seq<u8>) -> bool {
    "text/event-stream"@.is_prefix_of(lower_text(ascii_text(content_type)))
}

/// The two names of a parsed media type, as text.
pub open spec fn names_text(names: Option<(String, String)>) -> Option<(Seq<char>, Seq<char>)> {
    match names {
        Some(names) => Some((names.0@, names.1@)),
        None => None,
    }
}

/// Parses a media type with `<mime::Mime as FromStr>::from_str` and hands out its `type_` and
/// `subtype`.
///
/// The result depends on the text alone. The parser lowers the case of the two names. It reads
/// them off the front of the text, with a slash between them, and it takes a text that consists
/// of `text/event-stream` in any case, and also with well-formed parameters behind it, which
/// do not change the names.
#[verifier::external_body]
fn parse_media_type(text: &str) -> (names: Option<(String, String)>)
    ensures
        names_text(names) == media_names(text@),
        lower_text(text@) == "text/event-stream"@ ==> are_event_stream(names_text(names)),
        reads_event_stream(text@) ==> are_event_stream(names_text(names)),
        names_text(names) matches Some(found) ==> (found.0 + seq!['/'] + found.1).is_prefix_of(
            lower_text(text@),
        ),
{
    match text.parse::<mime::Mime>() {
        Ok(mime) => Some((mime.type_().as_str().to_owned(), mime.subtype().as_str().to_owned())),
        Err(_) => None,
    }
}

/// Whether the names of a parsed media type are those of an event stream.
pub fn names_event_stream(names: &Option<(String, String)>) -> (b: bool)
    ensures
        b == are_event_stream(names_text(*names)),
{
    match names {
        Some(names) => names.0 == "text".to_owned() && names.1 == "event-stream".to_owned(),
        None => false,
    }
}

/// Whether a `Content-Type` announces an event stream.
///
/// `text/event-stream` in any case does, with well-formed parameters or without; whatever does
/// begins with these words in some case.
pub fn is_event_stream(content_type: &HeaderValue) -> (b: bool)
    ensures
        b == announces_event_stream(header_bytes(*content_type)),
        spells_event_stream(header_bytes(*content_type)) ==> b,
        means_event_stream(header_bytes(*content_type)) ==> b,
        b ==> begins_like_event_stream(header_bytes(*content_type)),
{
    match content_type.to_str() {
        Ok(text) => {
            let names = parse_media_type(text);
            let b = names_event_stream(&names);
            proof {
                reveal_strlit("text");
                reveal_strlit("event-stream");
                reveal_strlit("text/event-stream");
                assert("text"@ + seq!['/'] + "event-stream"@ =~= "text/event-stream"@);
            }
            b
        },
        Err(_) => false,
    }
}

} // verus!
