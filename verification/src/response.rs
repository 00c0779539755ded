//! The check that a response opens an event stream.
use reqwest::header::HeaderValue;
use vstd::prelude::*;

use crate::error::Error;
use crate::header::{header_bytes, is_header_name, Headers};
use crate::media_type::{
    announces_event_stream, begins_like_event_stream, is_event_stream, means_event_stream,
    spells_event_stream,
};

verus! {

/// `reqwest::Response`, of which [`response_status`] and [`response_headers`] tell.
#[verifier::external_type_specification]
#[verifier::external_body]
pub struct ExResponse(reqwest::Response);

/// The status code of a response.
pub uninterp spec fn response_status(response: reqwest::Response) -> u16;

/// The headers of a response.
pub uninterp spec fn response_headers(response: reqwest::Response) -> Headers;

/// The first value under `name`.
pub open spec fn first_value(headers: Headers, name: Seq<char>) -> Option<Seq<u8>> {
    if headers.contains_key(name) {
        Some(headers[name][0])
    } else {
        None
    }
}

/// The `Content-Type` of a response.
pub open spec fn response_content_type(response: reqwest::Response) -> Option<Seq<u8>> {
    first_value(response_headers(response), "content-type"@)
}

/// What the head of a response says.
#[derive(Debug, Clone, Copy, PartialEq, Eq, Structural)]
pub enum Head {
    /// An event stream follows.
    EventStream,
    /// The status is not the one of success.
    WrongStatus,
    /// The content is no event stream.
    WrongContentType,
}

/// What a status and a `Content-Type` say. The status comes first.
pub open spec fn head(status: u16, content_type: Option<Seq<u8>>) -> Head {
    if status != 200 {
        Head::WrongStatus
    } else if content_type is Some && announces_event_stream(content_type->0) {
        Head::EventStream
    } else {
        Head::WrongContentType
    }
}

/// What the head of a response says.
pub open spec fn response_head(response: reqwest::Response) -> Head {
    head(response_status(response), response_content_type(response))
}

/// A response of success whose `Content-Type` reads `text/event-stream`, in any case, with
/// well-formed parameters or without.
pub open spec fn is_plain_event_stream(response: reqwest::Response) -> bool {
    &&& response_status(response) == 200
    &&& response_content_type(response) matches Some(content_type) && (spells_event_stream(
        content_type,
    ) || means_event_stream(content_type))
}

/// The bytes of an optional header value.
pub open spec fn value_bytes(value: Option<HeaderValue>) -> Option<Seq<u8>> {
    match value {
        Some(value) => Some(header_bytes(value)),
        None => None,
    }
}

/// Reads the status with `reqwest::Response::status`, as a number.
#[verifier::external_body]
fn status_code(response: &reqwest::Response) -> (status: u16)
    ensures
        status == response_status(*response),
{
    response.status().as_u16()
}

/// Looks `name` up with `HeaderMap::get` in the headers of a response: the first value under it.
#[verifier::external_body]
fn header_value(response: &reqwest::Response, name: &str) -> (value: Option<HeaderValue>)
    requires
        is_header_name(name@),
    ensures
        value_bytes(value) == first_value(response_headers(*response), name@),
{
    response.headers().get(name).cloned()
}

/// Tells from a status and a `Content-Type` what a response holds.
pub fn check_head(status: u16, content_type: &Option<HeaderValue>) -> (r: Head)
    ensures
        r == head(status, value_bytes(*content_type)),
        status == 200 && content_type is Some && spells_event_stream(header_bytes(content_type->0))
            ==> r == Head::EventStream,
        status == 200 && content_type is Some && means_event_stream(header_bytes(content_type->0))
            ==> r == Head::EventStream,
        r == Head::EventStream ==> begins_like_event_stream(header_bytes(content_type->0)),
{
    if status != 200 {
        return Head::WrongStatus;
    }
    match content_type {
        Some(content_type) => if is_event_stream(content_type) {
            Head::EventStream
        } else {
            Head::WrongContentType
        },
        None => Head::WrongContentType,
    }
}

/// The error that answers a response which opens no event stream: it gives the response back, with
/// its status or with its `Content-Type`, empty where there is none.
pub open spec fn rejects(error: Error, response: reqwest::Response) -> bool {
    match error {
        Error::InvalidStatusCode(status, rejected) => {
            &&& response_head(response) == Head::WrongStatus
            &&& status == response_status(response)
            &&& rejected == response
        },
        Error::InvalidContentType(content_type, rejected) => {
            &&& response_head(response) == Head::WrongContentType
            &&& header_bytes(content_type) == match response_content_type(response) {
                Some(found) => found,
                None => Seq::empty(),
            }
            &&& rejected == response
        },
        _ => false,
    }
}

/// Lets through a response that opens an event stream.
///
/// The status has to be 200 and the `Content-Type` has to announce an event stream.
/// `text/event-stream` in any case does, with well-formed parameters or without.
pub fn check_response(response: reqwest::Response) -> (r: Result<reqwest::Response, Error>)
    ensures
        match r {
            Ok(accepted) => response_head(response) == Head::EventStream && accepted == response,
            Err(error) => rejects(error, response),
        },
        is_plain_event_stream(response) ==> r is Ok,
        r is Ok ==> begins_like_event_stream(response_content_type(response)->0),
{
    let status: u16 = status_code(&response);
    proof {
        reveal_strlit("content-type");
    }
    let content_type = header_value(&response, "content-type");
    match check_head(status, &content_type) {
        Head::EventStream => Ok(response),
        Head::WrongStatus => Err(Error::InvalidStatusCode(status, response)),
        Head::WrongContentType => match content_type {
            Some(content_type) => Err(Error::InvalidContentType(content_type, response)),
            None => {
                proof {
                    reveal_strlit("");
                    assert(vstd::utf8::encode_utf8(""@) =~= Seq::<u8>::empty());
                }
                Err(Error::InvalidContentType(HeaderValue::from_static(""), response))
            },
        },
    }
}

} // verus!
