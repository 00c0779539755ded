//! The errors of an event source.
use core::fmt::{Debug, Formatter};
use reqwest::header::HeaderValue;
use reqwest_middleware::Error as ReqwestErrorImp;
use std::string::FromUtf8Error;
use vstd::prelude::*;

verus! {

/// `reqwest_middleware::Error`, of which the names below tell.
#[verifier::external_type_specification]
#[verifier::external_body]
pub struct ExReqwestErrorImp(ReqwestErrorImp);

/// `reqwest::Url`, which is only handed on.
#[verifier::external_type_specification]
#[verifier::external_body]
pub struct ExUrl(reqwest::Url);

/// `FromUtf8Error`, which is only handed on.
#[verifier::external_type_specification]
#[verifier::external_body]
pub struct ExFromUtf8Error(std::string::FromUtf8Error);

/// `core::fmt::Formatter`, which is only handed on.
#[verifier::external_type_specification]
#[verifier::external_body]
pub struct ExFormatter<'a>(core::fmt::Formatter<'a>);

/// `core::fmt::Error`, which is only handed on.
#[verifier::external_type_specification]
#[verifier::external_body]
pub struct ExFmtError(core::fmt::Error);

/// Whether the error is related to the request or response body.
pub uninterp spec fn error_is_body(error: ReqwestErrorImp) -> bool;

/// Whether the error is an error in building the request.
pub uninterp spec fn error_is_builder(error: ReqwestErrorImp) -> bool;

/// Whether the error is related to connecting.
pub uninterp spec fn error_is_connect(error: ReqwestErrorImp) -> bool;

/// Whether the error is related to decoding the body of the response.
pub uninterp spec fn error_is_decode(error: ReqwestErrorImp) -> bool;

/// Whether the error is from following redirects.
pub uninterp spec fn error_is_redirect(error: ReqwestErrorImp) -> bool;

/// Whether the error is related to the request.
pub uninterp spec fn error_is_request(error: ReqwestErrorImp) -> bool;

/// Whether the error is about the status of a response.
pub uninterp spec fn error_is_status(error: ReqwestErrorImp) -> bool;

/// Whether the error is related to a timeout.
pub uninterp spec fn error_is_timeout(error: ReqwestErrorImp) -> bool;

/// Whether the error comes from a middleware.
pub uninterp spec fn error_is_middleware(error: ReqwestErrorImp) -> bool;

/// The status code of the response that the error is about.
pub uninterp spec fn error_status(error: ReqwestErrorImp) -> Option<u16>;

/// The URL that the error is related to.
pub uninterp spec fn error_url(error: ReqwestErrorImp) -> Option<reqwest::Url>;

/// Whether the error, written for debugging, may bring a formatter from `before` to `after`, with
/// this result. What a formatter writes to may decide, so one error may do this in several ways.
pub uninterp spec fn error_writes(
    error: ReqwestErrorImp,
    before: Formatter<'_>,
    after: Formatter<'_>,
    r: core::fmt::Result,
) -> bool;

/// Two errors that differ in their URL at most.
pub open spec fn same_but_url(a: ReqwestErrorImp, b: ReqwestErrorImp) -> bool {
    &&& error_is_body(a) == error_is_body(b)
    &&& error_is_builder(a) == error_is_builder(b)
    &&& error_is_connect(a) == error_is_connect(b)
    &&& error_is_decode(a) == error_is_decode(b)
    &&& error_is_redirect(a) == error_is_redirect(b)
    &&& error_is_request(a) == error_is_request(b)
    &&& error_is_status(a) == error_is_status(b)
    &&& error_is_timeout(a) == error_is_timeout(b)
    &&& error_is_middleware(a) == error_is_middleware(b)
    &&& error_status(a) == error_status(b)
}

/// `reqwest_middleware::Error::is_body` depends on the error alone, and is false of an
/// error that comes from a middleware.
pub assume_specification[ ReqwestErrorImp::is_body ](error: &ReqwestErrorImp) -> (b: bool)
    ensures
        b == error_is_body(*error),
        error_is_middleware(*error) ==> !b,
;

/// `reqwest_middleware::Error::is_builder` depends on the error alone, and is false of an
/// error that comes from a middleware.
pub assume_specification[ ReqwestErrorImp::is_builder ](error: &ReqwestErrorImp) -> (b: bool)
    ensures
        b == error_is_builder(*error),
        error_is_middleware(*error) ==> !b,
;

/// `reqwest_middleware::Error::is_connect` depends on the error alone, and is false of an
/// error that comes from a middleware.
pub assume_specification[ ReqwestErrorImp::is_connect ](error: &ReqwestErrorImp) -> (b: bool)
    ensures
        b == error_is_connect(*error),
        error_is_middleware(*error) ==> !b,
;

/// `reqwest_middleware::Error::is_decode` depends on the error alone, and is false of an
/// error that comes from a middleware.
pub assume_specification[ ReqwestErrorImp::is_decode ](error: &ReqwestErrorImp) -> (b: bool)
    ensures
        b == error_is_decode(*error),
        error_is_middleware(*error) ==> !b,
;

/// `reqwest_middleware::Error::is_redirect` depends on the error alone, and is false of an
/// error that comes from a middleware.
pub assume_specification[ ReqwestErrorImp::is_redirect ](error: &ReqwestErrorImp) -> (b: bool)
    ensures
        b == error_is_redirect(*error),
        error_is_middleware(*error) ==> !b,
;

/// `reqwest_middleware::Error::is_request` depends on the error alone, and is false of an
/// error that comes from a middleware.
pub assume_specification[ ReqwestErrorImp::is_request ](error: &ReqwestErrorImp) -> (b: bool)
    ensures
        b == error_is_request(*error),
        error_is_middleware(*error) ==> !b,
;

/// `reqwest_middleware::Error::is_status` depends on the error alone, and is false of an
/// error that comes from a middleware.
pub assume_specification[ ReqwestErrorImp::is_status ](error: &ReqwestErrorImp) -> (b: bool)
    ensures
        b == error_is_status(*error),
        error_is_middleware(*error) ==> !b,
;

/// `reqwest_middleware::Error::is_timeout` depends on the error alone, and is false of an
/// error that comes from a middleware.
pub assume_specification[ ReqwestErrorImp::is_timeout ](error: &ReqwestErrorImp) -> (b: bool)
    ensures
        b == error_is_timeout(*error),
        error_is_middleware(*error) ==> !b,
;

/// `reqwest_middleware::Error::is_middleware` depends on the error alone.
pub assume_specification[ ReqwestErrorImp::is_middleware ](error: &ReqwestErrorImp) -> (b: bool)
    ensures
        b == error_is_middleware(*error),
;

/// Reads the status with `reqwest_middleware::Error::status`, as a number. There is one exactly
/// where the error is about the status of a response.
#[verifier::external_body]
fn status_of(error: &ReqwestErrorImp) -> (status: Option<u16>)
    ensures
        status == error_status(*error),
        status is Some <==> error_is_status(*error),
{
    error.status().map(|status| status.as_u16())
}

/// `reqwest_middleware::Error::url` reads the URL. An error that comes from a middleware has none.
pub assume_specification[ ReqwestErrorImp::url ](error: &ReqwestErrorImp) -> (url: Option<
    &reqwest::Url,
>)
    ensures
        match url {
            Some(url) => error_url(*error) == Some(*url),
            None => error_url(*error) is None,
        },
        error_is_middleware(*error) ==> url is None,
;

/// `reqwest_middleware::Error::url_mut` lends the URL for change, where there is one, and changes
/// nothing else.
pub assume_specification[ ReqwestErrorImp::url_mut ](error: &mut ReqwestErrorImp) -> (url: Option<
    &mut reqwest::Url,
>)
    ensures
        match url {
            Some(url) => {
                &&& error_url(*old(error)) == Some(*url)
                &&& error_url(*final(error)) == Some(*final(url))
                &&& same_but_url(*final(error), *old(error))
            },
            None => error_url(*old(error)) is None && *final(error) == *old(error),
        },
        error_is_middleware(*old(error)) ==> url is None,
;

/// `reqwest_middleware::Error::with_url` sets the URL and changes nothing else. An error that
/// comes from a middleware stays as it is.
pub assume_specification[ ReqwestErrorImp::with_url ](
    error: ReqwestErrorImp,
    url: reqwest::Url,
) -> (r: ReqwestErrorImp)
    ensures
        if error_is_middleware(error) {
            r == error
        } else {
            error_url(r) == Some(url) && same_but_url(r, error)
        },
;

/// `reqwest_middleware::Error::without_url` takes the URL away and changes nothing else. An error
/// that comes from a middleware has none, and stays as it is.
pub assume_specification[ ReqwestErrorImp::without_url ](error: ReqwestErrorImp) -> (r:
    ReqwestErrorImp)
    ensures
        error_url(r) is None,
        same_but_url(r, error),
        error_is_middleware(error) ==> r == error,
;

/// The `fmt` of the `Debug` of `reqwest_middleware::Error` writes that error to the formatter.
pub assume_specification[ <ReqwestErrorImp as Debug>::fmt ](
    error: &ReqwestErrorImp,
    f: &mut Formatter<'_>,
) -> (r: core::fmt::Result)
    ensures
        error_writes(*error, *old(f), *final(f), r),
;

/// An error of the client that sends the requests.
pub struct ReqwestError {
    error: ReqwestErrorImp,
}

impl Debug for ReqwestError {
    /// Writes the error of the client, and nothing around it.
    fn fmt(&self, f: &mut Formatter<'_>) -> (r: core::fmt::Result)
        ensures
            error_writes(self@, *old(f), *final(f), r),
    {
        self.error.fmt(f)
    }
}

impl View for ReqwestError {
    type V = ReqwestErrorImp;

    closed spec fn view(&self) -> ReqwestErrorImp {
        self.error
    }
}

impl ReqwestError {
    /// Takes an error of the client.
    pub fn new(error: ReqwestErrorImp) -> (r: Self)
        ensures
            r@ == error,
    {
        ReqwestError { error }
    }

    /// The error of the client.
    pub fn error(&self) -> (error: &ReqwestErrorImp)
        ensures
            *error == self@,
    {
        &self.error
    }

    /// The error with `url` in place of any URL that it had. One that comes from a middleware
    /// stays as it is.
    pub fn with_url(self, url: reqwest::Url) -> (r: Self)
        ensures
            if error_is_middleware(self@) {
                r@ == self@
            } else {
                error_url(r@) == Some(url) && same_but_url(r@, self@)
            },
    {
        ReqwestError { error: self.error.with_url(url) }
    }

    /// The error without its URL.
    pub fn without_url(self) -> (r: Self)
        ensures
            error_url(r@) is None,
            same_but_url(r@, self@),
            error_is_middleware(self@) ==> r@ == self@,
    {
        ReqwestError { error: self.error.without_url() }
    }

    /// Whether the error is related to the request or response body.
    ///
    /// Never so of an error that comes from a middleware.
    pub fn is_body(&self) -> (b: bool)
        ensures
            b == error_is_body(self@),
            error_is_middleware(self@) ==> !b,
    {
        self.error.is_body()
    }

    /// Whether the error comes from building the request.
    ///
    /// Never so of an error that comes from a middleware.
    pub fn is_builder(&self) -> (b: bool)
        ensures
            b == error_is_builder(self@),
            error_is_middleware(self@) ==> !b,
    {
        self.error.is_builder()
    }

    /// Whether the error is related to connecting.
    ///
    /// Never so of an error that comes from a middleware.
    pub fn is_connect(&self) -> (b: bool)
        ensures
            b == error_is_connect(self@),
            error_is_middleware(self@) ==> !b,
    {
        self.error.is_connect()
    }

    /// Whether the error is related to decoding the body of the response.
    ///
    /// Never so of an error that comes from a middleware.
    pub fn is_decode(&self) -> (b: bool)
        ensures
            b == error_is_decode(self@),
            error_is_middleware(self@) ==> !b,
    {
        self.error.is_decode()
    }

    /// Whether the error comes from following redirects.
    ///
    /// Never so of an error that comes from a middleware.
    pub fn is_redirect(&self) -> (b: bool)
        ensures
            b == error_is_redirect(self@),
            error_is_middleware(self@) ==> !b,
    {
        self.error.is_redirect()
    }

    /// Whether the error is related to the request.
    ///
    /// Never so of an error that comes from a middleware.
    pub fn is_request(&self) -> (b: bool)
        ensures
            b == error_is_request(self@),
            error_is_middleware(self@) ==> !b,
    {
        self.error.is_request()
    }

    /// Whether the error is about the status of a response.
    ///
    /// Never so of an error that comes from a middleware.
    pub fn is_status(&self) -> (b: bool)
        ensures
            b == error_is_status(self@),
            error_is_middleware(self@) ==> !b,
    {
        self.error.is_status()
    }

    /// Whether the error is related to a timeout.
    ///
    /// Never so of an error that comes from a middleware.
    pub fn is_timeout(&self) -> (b: bool)
        ensures
            b == error_is_timeout(self@),
            error_is_middleware(self@) ==> !b,
    {
        self.error.is_timeout()
    }

    /// Whether the error is related to a protocol upgrade. The client does not tell: never.
    pub fn is_upgrade(&self) -> (b: bool)
        ensures
            !b,
    {
        false
    }

    /// Whether the error comes from a middleware.
    pub fn is_middleware(&self) -> (b: bool)
        ensures
            b == error_is_middleware(self@),
    {
        self.error.is_middleware()
    }

    /// The status code of the response that the error is about. There is one exactly where
    /// [`ReqwestError::is_status`] holds.
    pub fn status(&self) -> (status: Option<u16>)
        ensures
            status == error_status(self@),
            status is Some <==> error_is_status(self@),
    {
        status_of(&self.error)
    }

    /// The URL that the error is related to. An error that comes from a middleware has none.
    pub fn url(&self) -> (url: Option<&reqwest::Url>)
        ensures
            match url {
                Some(url) => error_url(self@) == Some(*url),
                None => error_url(self@) is None,
            },
            error_is_middleware(self@) ==> url is None,
    {
        self.error.url()
    }

    /// The URL that the error is related to, for change.
    pub fn url_mut(&mut self) -> (url: Option<&mut reqwest::Url>)
        ensures
            match url {
                Some(url) => {
                    &&& error_url(old(self)@) == Some(*url)
                    &&& error_url(final(self)@) == Some(*final(url))
                    &&& same_but_url(final(self)@, old(self)@)
                },
                None => error_url(old(self)@) is None && *final(self) == *old(self),
            },
            error_is_middleware(old(self)@) ==> url is None,
    {
        self.error.url_mut()
    }
}

/// The request of an event source has to be sent anew on each reconnection, and cannot be cloned.
#[derive(Debug, Clone, Copy, PartialEq, Eq, Structural)]
pub struct CannotCloneRequestError;

/// An error of an event stream.
#[derive(Debug)]
pub enum EventStreamError<E> {
    /// The stream is not valid UTF-8.
    Utf8(FromUtf8Error),
    /// The stream is no event stream; the message says why.
    Parser(String),
    /// The stream under it failed.
    Transport(E),
}

/// What can go wrong with an event source.
#[derive(Debug)]
pub enum Error {
    /// The event stream is not valid UTF-8.
    Utf8(FromUtf8Error),
    /// What came is no event stream; the message says why.
    Parser(String),
    /// The client failed.
    Transport(ReqwestError),
    /// The `Content-Type` of the response is not that of an event stream; empty where it is
    /// missing.
    InvalidContentType(HeaderValue, reqwest::Response),
    /// The status of the response is not the one of success.
    InvalidStatusCode(u16, reqwest::Response),
    /// The last event id cannot be sent in a header.
    InvalidLastEventId(String),
    /// The event stream ended.
    StreamEnded,
}

/// An error of the event stream under its own name among the errors of the event source.
pub open spec fn stream_error(error: EventStreamError<ReqwestError>) -> Error {
    match error {
        EventStreamError::Utf8(error) => Error::Utf8(error),
        EventStreamError::Parser(message) => Error::Parser(message),
        EventStreamError::Transport(error) => Error::Transport(error),
    }
}

impl From<EventStreamError<ReqwestError>> for Error {
    fn from(error: EventStreamError<ReqwestError>) -> (r: Self) {
        match error {
            EventStreamError::Utf8(error) => Error::Utf8(error),
            EventStreamError::Parser(message) => Error::Parser(message),
            EventStreamError::Transport(error) => Error::Transport(error),
        }
    }
}

impl vstd::std_specs::convert::FromSpecImpl<EventStreamError<ReqwestError>> for Error {
    open spec fn obeys_from_spec() -> bool {
        true
    }

    open spec fn from_spec(error: EventStreamError<ReqwestError>) -> Error {
        stream_error(error)
    }
}

} // verus!
