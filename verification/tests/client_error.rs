use core::pin::Pin;
use core::task::{Context, Poll};
use futures_core::Stream;
use reqwest_eventsource::{Error, EventStreamError, ReqwestError};

fn url(text: &str) -> reqwest::Url {
    reqwest::Url::parse(text).unwrap()
}

fn plain(error: reqwest::Error) -> ReqwestError {
    ReqwestError::new(reqwest_middleware::Error::Reqwest(error))
}

fn builder_error() -> ReqwestError {
    plain(reqwest::Client::new().get("no url").build().unwrap_err())
}

fn middleware_error() -> ReqwestError {
    ReqwestError::new(reqwest_middleware::Error::middleware(core::fmt::Error))
}

fn status_error(status: u16) -> ReqwestError {
    let response = http::Response::builder().status(status).body("").unwrap();
    plain(reqwest::Response::from(response).error_for_status().unwrap_err())
}

/// The kinds that an error is of.
fn kinds(error: &ReqwestError) -> Vec<&'static str> {
    let mut kinds = Vec::new();
    for (kind, is) in [
        ("body", error.is_body()),
        ("builder", error.is_builder()),
        ("connect", error.is_connect()),
        ("decode", error.is_decode()),
        ("middleware", error.is_middleware()),
        ("redirect", error.is_redirect()),
        ("request", error.is_request()),
        ("status", error.is_status()),
        ("timeout", error.is_timeout()),
        ("upgrade", error.is_upgrade()),
    ] {
        if is {
            kinds.push(kind);
        }
    }
    kinds
}

struct Failing;

impl Stream for Failing {
    type Item = Result<Vec<u8>, std::io::Error>;

    fn poll_next(self: Pin<&mut Self>, _: &mut Context<'_>) -> Poll<Option<Self::Item>> {
        Poll::Ready(Some(Err(std::io::Error::from(std::io::ErrorKind::TimedOut))))
    }
}

fn runtime() -> tokio::runtime::Runtime {
    tokio::runtime::Builder::new_current_thread().enable_all().build().unwrap()
}

#[test]
fn kind_of_a_builder_error() {
    let error = builder_error();
    assert_eq!(kinds(&error), ["builder"]);
    assert_eq!(error.status(), None);
    assert!(error.error().to_string().contains("builder error"));
}

#[test]
fn kind_of_a_middleware_error() {
    let error = middleware_error();
    assert_eq!(kinds(&error), ["middleware"]);
    assert_eq!(error.status(), None);
    assert_eq!(error.url(), None);
}

#[test]
fn kind_of_a_status_error() {
    let error = status_error(404);
    assert_eq!(kinds(&error), ["status"]);
    assert_eq!(error.status(), Some(404));
    assert_eq!(status_error(503).status(), Some(503));
}

#[test]
fn kinds_of_a_timeout_in_the_body() {
    let response = http::Response::new(reqwest::Body::wrap_stream(Failing));
    let response = reqwest::Response::from(response);
    let error = plain(runtime().block_on(response.bytes()).unwrap_err());
    assert_eq!(kinds(&error), ["decode", "timeout"]);
}

#[test]
fn kinds_of_a_refused_connection() {
    runtime().block_on(async {
        let client = reqwest::Client::builder().no_proxy().build().unwrap();
        let error = client.get("http://127.0.0.1:1/").send().await.unwrap_err();
        assert_eq!(kinds(&plain(error)), ["connect", "request"]);
    });
}

#[test]
fn with_url_sets_the_url() {
    let error = builder_error();
    assert_eq!(error.url(), None);
    let error = error.with_url(url("http://a.test/"));
    assert_eq!(error.url(), Some(&url("http://a.test/")));
    let error = error.with_url(url("http://b.test/"));
    assert_eq!(error.url(), Some(&url("http://b.test/")));
    assert_eq!(kinds(&error), ["builder"]);
    let error = error.without_url();
    assert_eq!(error.url(), None);
    assert_eq!(kinds(&error), ["builder"]);
}

#[test]
fn url_can_be_changed() {
    let mut error = status_error(500).with_url(url("http://a.test/?key=secret"));
    error.url_mut().unwrap().set_query(None);
    assert_eq!(error.url(), Some(&url("http://a.test/")));
    assert_eq!(error.status(), Some(500));
    let mut error = error.without_url();
    assert_eq!(error.url_mut(), None);
}

#[test]
fn error_is_debugged_as_the_one_that_it_wraps() {
    for error in [reqwest_middleware::Error::middleware(core::fmt::Error), refused_url()] {
        let (text, pretty) = (format!("{:?}", error), format!("{:#?}", error));
        let error = ReqwestError::new(error);
        assert_eq!(format!("{:?}", error), text);
        assert_eq!(format!("{:#?}", error), pretty);
    }
}

fn refused_url() -> reqwest_middleware::Error {
    reqwest_middleware::Error::Reqwest(reqwest::Client::new().get("no url").build().unwrap_err())
}

#[test]
fn middleware_error_takes_no_url() {
    let mut error = middleware_error().with_url(url("http://a.test/"));
    assert_eq!(error.url(), None);
    assert_eq!(error.url_mut(), None);
    assert_eq!(kinds(&error.without_url()), ["middleware"]);
}

#[test]
fn errors_of_an_event_stream_keep_their_kind() {
    let utf8 = String::from_utf8(vec![0xff]).unwrap_err();
    match Error::from(EventStreamError::Utf8(utf8.clone())) {
        Error::Utf8(found) => assert_eq!(found, utf8),
        other => panic!("{:?}", other),
    }
    match Error::from(EventStreamError::Parser("why".to_string())) {
        Error::Parser(found) => assert_eq!(found, "why"),
        other => panic!("{:?}", other),
    }
    match Error::from(EventStreamError::Transport(status_error(502))) {
        Error::Transport(found) => assert_eq!(found.status(), Some(502)),
        other => panic!("{:?}", other),
    }
}
