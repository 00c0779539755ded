//! The requests of an event source.
use core::time::Duration;
use reqwest::header::HeaderValue;
use vstd::prelude::*;

use crate::header::{
    are_header_names, header_bytes, is_header_name, room_after, with_header, Headers, Room,
};

verus! {

/// `reqwest::RequestBuilder`, of which [`plain_view`] and [`plain_is_clonable`] tell.
#[verifier::external_type_specification]
#[verifier::external_body]
pub struct ExPlainRequestBuilder(reqwest::RequestBuilder);

/// `reqwest_middleware::RequestBuilder`, of which [`request_view`] and [`is_clonable`] tell.
#[verifier::external_type_specification]
#[verifier::external_body]
pub struct ExRequestBuilder(reqwest_middleware::RequestBuilder);

/// `reqwest::Client`, which is only handed on.
#[verifier::external_type_specification]
#[verifier::external_body]
pub struct ExClient(reqwest::Client);

/// `reqwest_middleware::ClientWithMiddleware`, which is only handed on.
#[verifier::external_type_specification]
#[verifier::external_body]
pub struct ExClientWithMiddleware(reqwest_middleware::ClientWithMiddleware);

/// `http::Extensions`, which is only handed on.
#[verifier::external_type_specification]
#[verifier::external_body]
pub struct ExExtensions(http::Extensions);

/// The number of header names, those that are there included, for which a request surely has room.
///
/// A header map has at most 32768 slots. Where it has that many it may refuse a further header once
/// the names fill a fifth of the slots; whether it does depends on how they are spread over them.
pub const SURE_HEADER_NAMES: usize = 6554;

/// What a request is apart from its headers: method, URL, version of the protocol, timeout, the
/// body where there is one that can be sent again, and the extensions of the request itself where
/// there are any. Of an extension and its clones no difference is made.
pub type Target = (
    Seq<char>,
    Seq<char>,
    Seq<char>,
    Option<Duration>,
    Option<Seq<u8>>,
    Option<http::Extensions>,
);

/// A request as it goes out.
#[verifier::ext_equal]
pub struct RequestView {
    pub headers: Headers,
    /// The room for further headers.
    pub room: Room,
    pub target: Target,
    /// The client that it goes through, with the middleware.
    pub client: reqwest_middleware::ClientWithMiddleware,
    /// The extensions that the middleware gets to see with it, where there are any.
    pub extensions: Option<http::Extensions>,
}

/// The headers of the request that is being built.
pub uninterp spec fn request_headers(builder: reqwest_middleware::RequestBuilder) -> Headers;

/// The room for further headers in the request that is being built.
pub uninterp spec fn request_room(builder: reqwest_middleware::RequestBuilder) -> Room;

/// What the request that is being built is apart from its headers.
pub uninterp spec fn request_target(builder: reqwest_middleware::RequestBuilder) -> Target;

/// The client, with its middleware, that the request goes through when it is sent. Of a client and
/// its clones no difference is made.
pub uninterp spec fn request_client(
    builder: reqwest_middleware::RequestBuilder,
) -> reqwest_middleware::ClientWithMiddleware;

/// The extensions that the builder hands to the middleware, where there are any. Of an extension
/// and its clones no difference is made.
pub uninterp spec fn request_extensions(
    builder: reqwest_middleware::RequestBuilder,
) -> Option<http::Extensions>;

/// Whether the request that is being built can be cloned.
pub uninterp spec fn is_clonable(builder: reqwest_middleware::RequestBuilder) -> bool;

/// The headers of the request that is being built for a plain client.
pub uninterp spec fn plain_headers(builder: reqwest::RequestBuilder) -> Headers;

/// The room for further headers in the request that is being built for a plain client.
pub uninterp spec fn plain_room(builder: reqwest::RequestBuilder) -> Room;

/// What the request that is being built for a plain client is apart from its headers.
pub uninterp spec fn plain_target(builder: reqwest::RequestBuilder) -> Target;

/// The plain client that the request goes through when it is sent.
pub uninterp spec fn plain_client(builder: reqwest::RequestBuilder) -> reqwest::Client;

/// A plain client as one with middleware: what `ClientWithMiddleware::new` makes of it and of no
/// middleware.
pub uninterp spec fn bare(client: reqwest::Client) -> reqwest_middleware::ClientWithMiddleware;

/// Whether the request that is being built for a plain client can be cloned.
pub uninterp spec fn plain_is_clonable(builder: reqwest::RequestBuilder) -> bool;

/// The request that a builder stands for.
pub open spec fn request_view(builder: reqwest_middleware::RequestBuilder) -> RequestView {
    RequestView {
        headers: request_headers(builder),
        room: request_room(builder),
        target: request_target(builder),
        client: request_client(builder),
        extensions: request_extensions(builder),
    }
}

/// The request that a builder for a plain client stands for: it goes through that client, and
/// through no middleware.
pub open spec fn plain_view(builder: reqwest::RequestBuilder) -> RequestView {
    RequestView {
        headers: plain_headers(builder),
        room: plain_room(builder),
        target: plain_target(builder),
        client: bare(plain_client(builder)),
        extensions: None,
    }
}

impl RequestView {
    /// The request with one more header.
    pub open spec fn with_header(self, name: Seq<char>, value: Seq<u8>) -> RequestView {
        RequestView {
            headers: with_header(self.headers, name, value),
            room: room_after(self.room, name),
            ..self
        }
    }

    /// Whether the request has room for one more header, under `name`.
    pub open spec fn takes(self, name: Seq<char>) -> bool {
        self.room.contains(seq![name])
    }
}

/// Takes a plain client's builder apart with `reqwest::RequestBuilder::build_split` and puts the
/// pieces together again with `reqwest_middleware::RequestBuilder::from_parts`, behind
/// `ClientWithMiddleware::new` with no middleware.
///
/// A builder that has run into an error yields nothing, and is not clonable. Any other keeps its
/// request as it is, and its client, with no middleware and no extensions for middleware.
#[verifier::external_body]
pub(crate) fn without_middleware(builder: reqwest::RequestBuilder) -> (r: Option<
    reqwest_middleware::RequestBuilder,
>)
    ensures
        match r {
            Some(b) => {
                &&& request_headers(b) == plain_headers(builder)
                &&& request_room(b) == plain_room(builder)
                &&& request_target(b) == plain_target(builder)
                &&& request_client(b) == bare(plain_client(builder))
                &&& request_extensions(b) is None
                &&& is_clonable(b) == plain_is_clonable(builder)
            },
            None => !plain_is_clonable(builder),
        },
{
    match builder.build_split() {
        (client, Ok(request)) => Some(
            reqwest_middleware::RequestBuilder::from_parts(
                reqwest_middleware::ClientWithMiddleware::new(client, []),
                request,
            ),
        ),
        (_, Err(_)) => None,
    }
}

/// `reqwest_middleware::RequestBuilder::try_clone` yields nothing where the builder has run into
/// an error or the body is a stream, and otherwise a builder for the same request, through the same
/// client and middleware, with the same extensions. A clone with few header names has room for
/// more.
pub assume_specification[ reqwest_middleware::RequestBuilder::try_clone ](
    builder: &reqwest_middleware::RequestBuilder,
) -> (r: Option<reqwest_middleware::RequestBuilder>)
    ensures
        match r {
            Some(b) => {
                &&& is_clonable(*builder)
                &&& is_clonable(b)
                &&& request_headers(b) == request_headers(*builder)
                &&& request_room(b) == request_room(*builder)
                &&& request_headers(b).dom().finite()
                &&& forall|names: Seq<Seq<char>>|
                    are_header_names(names) && request_headers(b).dom().len() + names.len()
                        <= SURE_HEADER_NAMES ==> #[trigger] request_room(b).contains(names)
                &&& request_target(b) == request_target(*builder)
                &&& request_client(b) == request_client(*builder)
                &&& request_extensions(b) == request_extensions(*builder)
            },
            None => !is_clonable(*builder),
        },
;

/// `reqwest_middleware::RequestBuilder::header` adds a value under a name, behind those that are
/// there, and leaves alone the rest of the request, the client, the middleware and the extensions.
///
/// It panics where the header map has no room. A builder that has run into an error takes no
/// header: what becomes of the headers of a request that cannot be cloned is not stated.
#[verifier::external_body]
pub(crate) fn add_header(
    builder: reqwest_middleware::RequestBuilder,
    name: &str,
    value: HeaderValue,
) -> (r: reqwest_middleware::RequestBuilder)
    requires
        is_header_name(name@),
        is_clonable(builder),
        request_view(builder).takes(name@),
    ensures
        is_clonable(r),
        request_headers(r) == with_header(request_headers(builder), name@, header_bytes(value)),
        request_room(r) == room_after(request_room(builder), name@),
        request_target(r) == request_target(builder),
        request_client(r) == request_client(builder),
        request_extensions(r) == request_extensions(builder),
{
    builder.header(name, value)
}

/// Tries with `HeaderMap::try_append`, on a clone of the request, whether it has room for one more
/// header; nothing where the request cannot be cloned.
#[verifier::external_body]
pub(crate) fn takes_header(
    builder: &reqwest_middleware::RequestBuilder,
    name: &'static str,
) -> (b: Option<bool>)
    requires
        is_header_name(name@),
    ensures
        b is Some <==> is_clonable(*builder),
        b matches Some(b) ==> b == request_room(*builder).contains(seq![name@]),
{
    let mut request = builder.try_clone()?.build().ok()?;
    Some(request.headers_mut().try_append(name, HeaderValue::from_static("")).is_ok())
}

/// Tries with `HeaderMap::try_append`, on a clone of the request for a plain client, whether it
/// has room for one more header; nothing where the request cannot be cloned.
#[verifier::external_body]
pub(crate) fn plain_takes_header(
    builder: &reqwest::RequestBuilder,
    name: &'static str,
) -> (b: Option<bool>)
    requires
        is_header_name(name@),
    ensures
        b is Some <==> plain_is_clonable(*builder),
        b matches Some(b) ==> b == plain_room(*builder).contains(seq![name@]),
{
    let mut request = builder.try_clone()?.build().ok()?;
    Some(request.headers_mut().try_append(name, HeaderValue::from_static("")).is_ok())
}

} // verus!
