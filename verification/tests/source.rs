use core::future::Future;
use core::pin::Pin;
use core::time::Duration;
use reqwest_eventsource::{
    Action, CannotCloneRequestError, Error, Event, EventSource, EventStreamError, MessageEvent,
    Progress, ReadyState, ReqwestError, RetryPolicy, Setup,
};
use std::cell::RefCell;
use std::rc::Rc;
use std::sync::{Arc, Mutex};

type Heard = Rc<RefCell<Vec<Option<(usize, Duration)>>>>;

/// Answers each error with the same delay, and takes down what it hears.
struct Same {
    delay: Option<Duration>,
    heard: Heard,
}

impl RetryPolicy for Same {
    fn retry(&self, _: &Error, last_retry: Option<(usize, Duration)>) -> Option<Duration> {
        self.heard.borrow_mut().push(last_retry);
        self.delay
    }

    fn set_reconnection_time(&mut self, duration: Duration) {
        self.delay = Some(duration);
    }
}

fn millis(n: u64) -> Duration {
    Duration::from_millis(n)
}

fn policy(delay: Option<Duration>) -> (Same, Heard) {
    let heard = Heard::default();
    (Same { delay, heard: heard.clone() }, heard)
}

fn get() -> reqwest::RequestBuilder {
    reqwest::Client::new().get("http://a.test/events").header("x-test", "here")
}

fn source(delay: Option<Duration>) -> (EventSource<Same>, Heard) {
    let (policy, heard) = policy(delay);
    (EventSource::new(get(), policy).unwrap(), heard)
}

fn response(status: u16, content_type: &str) -> reqwest::Response {
    let response = http::Response::builder().status(status).header("content-type", content_type);
    reqwest::Response::from(response.body("").unwrap())
}

fn event(id: &str) -> MessageEvent {
    MessageEvent {
        event: "message".to_string(),
        data: "data".to_string(),
        id: id.to_string(),
        retry: None,
    }
}

fn failure() -> ReqwestError {
    ReqwestError::new(reqwest_middleware::Error::middleware(core::fmt::Error))
}

/// The request that an action sends.
fn sent(action: Action) -> reqwest::Request {
    match action {
        Action::Send(request) => request.build().unwrap(),
        other => panic!("{:?}", other),
    }
}

/// The values of a header of a request.
fn values(request: &reqwest::Request, name: &str) -> Vec<String> {
    let values = request.headers().get_all(name).iter();
    values.map(|value| String::from_utf8(value.as_bytes().to_vec()).unwrap()).collect()
}

/// The error that an action reports, with the delay that it starts.
fn reported(action: Action) -> (Error, Option<Duration>) {
    match action {
        Action::Ready(Some(Err(error)), Setup::Delay(delay)) => (error, Some(delay)),
        Action::Ready(Some(Err(error)), Setup::Nothing) => (error, None),
        other => panic!("{:?}", other),
    }
}

/// Whether an action reports the end of all events.
fn is_end(action: Action) -> bool {
    matches!(action, Action::Ready(None, Setup::Nothing))
}

/// Brings a source to where it reads an event stream, and gives the id that the stream begins
/// with.
fn open(source: &mut EventSource<Same>) -> String {
    let accepted = response(200, "text/event-stream");
    match source.poll_next(Progress::ResponseArrived(accepted)) {
        Action::Ready(Some(Ok(Event::Open)), Setup::Stream(response, id)) => {
            assert_eq!(response.status().as_u16(), 200);
            id
        }
        other => panic!("{:?}", other),
    }
}

/// A source that reads an event stream.
fn opened(delay: Option<Duration>) -> (EventSource<Same>, Heard) {
    let (mut source, heard) = source(delay);
    sent(source.poll_next(Progress::Start));
    assert_eq!(open(&mut source), "");
    (source, heard)
}

#[test]
fn states_are_ordered() {
    assert!(ReadyState::Connecting < ReadyState::Open);
    assert!(ReadyState::Open < ReadyState::Closed);
    assert_eq!(ReadyState::Connecting as u8, 0);
    assert_eq!(ReadyState::Open as u8, 1);
    assert_eq!(ReadyState::Closed as u8, 2);
}

#[test]
fn first_request_accepts_event_streams() {
    let (mut source, _) = source(None);
    assert_eq!(source.ready_state(), ReadyState::Connecting);
    assert_eq!(source.last_event_id(), "");
    let request = sent(source.poll_next(Progress::Start));
    assert_eq!(request.method(), reqwest::Method::GET);
    assert_eq!(request.url().as_str(), "http://a.test/events");
    assert_eq!(values(&request, "accept"), ["text/event-stream"]);
    assert_eq!(values(&request, "x-test"), ["here"]);
    assert_eq!(values(&request, "last-event-id"), [] as [&str; 0]);
    assert!(matches!(source.poll_next(Progress::Start), Action::PollResponse));
    assert!(matches!(source.poll_next(Progress::ResponsePending), Action::Pending));
    assert_eq!(source.ready_state(), ReadyState::Connecting);
}

#[test]
fn accept_stands_behind_an_accept_that_was_there() {
    let (policy, _) = policy(None);
    let mut source = EventSource::new(get().header("Accept", "text/html"), policy).unwrap();
    let request = sent(source.poll_next(Progress::Start));
    assert_eq!(values(&request, "accept"), ["text/html", "text/event-stream"]);
}

#[test]
fn request_with_middleware() {
    let client = reqwest_middleware::ClientWithMiddleware::new(reqwest::Client::new(), []);
    let builder = client
        .post("http://b.test/")
        .body("body")
        .timeout(millis(7))
        .version(reqwest::Version::HTTP_2);
    let mut source = EventSource::new_with_middleware(builder, policy(None).0).unwrap();
    let request = sent(source.poll_next(Progress::Start));
    assert_eq!(request.method(), reqwest::Method::POST);
    assert_eq!(request.url().as_str(), "http://b.test/");
    assert_eq!(request.body().unwrap().as_bytes(), Some(&b"body"[..]));
    assert_eq!(request.timeout(), Some(&millis(7)));
    assert_eq!(request.version(), reqwest::Version::HTTP_2);
    assert_eq!(values(&request, "accept"), ["text/event-stream"]);
}

#[test]
fn request_that_cannot_be_cloned_is_refused() {
    let body = reqwest::Body::wrap_stream(Once(Some(b"body".to_vec())));
    let builder = reqwest::Client::new().post("http://a.test/").body(body);
    let refused = EventSource::new(builder, policy(None).0).err();
    assert_eq!(refused, Some(CannotCloneRequestError));
}

struct Once(Option<Vec<u8>>);

impl futures_core::Stream for Once {
    type Item = Result<Vec<u8>, core::fmt::Error>;

    fn poll_next(
        self: Pin<&mut Self>,
        _: &mut core::task::Context<'_>,
    ) -> core::task::Poll<Option<Self::Item>> {
        core::task::Poll::Ready(self.get_mut().0.take().map(Ok))
    }
}

#[test]
fn request_on_no_url_is_refused() {
    let builder = reqwest::Client::new().get("no url");
    let refused = EventSource::new(builder, policy(None).0).err();
    assert_eq!(refused, Some(CannotCloneRequestError));
    let client = reqwest_middleware::ClientWithMiddleware::new(reqwest::Client::new(), []);
    let refused = EventSource::new_with_middleware(client.get("no url"), policy(None).0).err();
    assert_eq!(refused, Some(CannotCloneRequestError));
}

fn with_headers(n: usize) -> reqwest::RequestBuilder {
    let mut headers = http::HeaderMap::new();
    for i in 0..n {
        let name = http::HeaderName::from_bytes(format!("x-{}", i).as_bytes()).unwrap();
        headers.insert(name, http::HeaderValue::from_static("v"));
    }
    reqwest::Client::new().get("http://a.test/").headers(headers)
}

fn with_headers_and_middleware(n: usize) -> reqwest_middleware::RequestBuilder {
    let (client, request) = with_headers(n).build_split();
    reqwest_middleware::RequestBuilder::from_parts(
        reqwest_middleware::ClientWithMiddleware::new(client, []),
        request.unwrap(),
    )
}

#[test]
fn policy_hears_the_delay_that_it_answered_before() {
    let (first, heard) = policy(Some(millis(300)));
    let mut source = EventSource::new(get(), first).unwrap();
    sent(source.poll_next(Progress::Start));
    for delay in [300, 600, 1200] {
        source.set_retry_policy(Same { delay: Some(millis(delay)), heard: heard.clone() });
        let (_, waited) = reported(source.poll_next(Progress::ResponseFailed(failure())));
        assert_eq!(waited, Some(millis(delay)));
        assert!(matches!(source.poll_next(Progress::Start), Action::PollDelay));
        sent(source.poll_next(Progress::DelayElapsed));
    }
    source.set_retry_policy(Same { delay: None, heard: heard.clone() });
    reported(source.poll_next(Progress::ResponseFailed(failure())));
    assert_eq!(source.ready_state(), ReadyState::Closed);
    let last = [None, Some((1, millis(300))), Some((1, millis(600))), Some((1, millis(1200)))];
    assert_eq!(*heard.borrow(), last);
}

#[test]
fn full_request_is_not_taken() {
    for n in [0, 6552, 20000, 24574] {
        let (policy, _) = policy(Some(millis(5)));
        let mut source = EventSource::try_new(with_headers(n), policy).unwrap().unwrap();
        assert_eq!(sent(source.poll_next(Progress::Start)).headers().keys_len(), n + 1);
        reported(source.poll_next(Progress::ResponseFailed(failure())));
        assert!(source.can_reconnect());
        assert_eq!(sent(source.poll_next(Progress::DelayElapsed)).headers().keys_len(), n + 2);
    }
    assert!(EventSource::try_new(with_headers(24575), policy(None).0).unwrap().is_ok());
    assert!(EventSource::try_new(with_headers(24576), policy(None).0).is_none());
    let refused = EventSource::try_new(reqwest::Client::new().get("no url"), policy(None).0);
    assert_eq!(refused.unwrap().err(), Some(CannotCloneRequestError));
}

#[test]
fn full_request_with_middleware_is_not_taken() {
    for n in [6552, 24575] {
        let builder = with_headers_and_middleware(n);
        let source = EventSource::try_new_with_middleware(builder, policy(None).0);
        let mut source = source.unwrap().unwrap();
        assert_eq!(sent(source.poll_next(Progress::Start)).headers().keys_len(), n + 1);
    }
    let builder = with_headers_and_middleware(24576);
    assert!(EventSource::try_new_with_middleware(builder, policy(None).0).is_none());
    let client = reqwest_middleware::ClientWithMiddleware::new(reqwest::Client::new(), []);
    let refused = EventSource::try_new_with_middleware(client.get("no url"), policy(None).0);
    assert_eq!(refused.unwrap().err(), Some(CannotCloneRequestError));
}

#[test]
fn full_request_has_no_room_for_an_id() {
    let (policy, _) = policy(Some(millis(5)));
    let mut source = EventSource::try_new(with_headers(24575), policy).unwrap().unwrap();
    assert!(!source.can_reconnect());
    sent(source.poll_next(Progress::Start));
    open(&mut source);
    source.poll_next(Progress::StreamEvent(event("\u{1}")));
    assert!(source.can_reconnect());
    reported(source.poll_next(Progress::StreamEnded));
    assert!(matches!(source.poll_next(Progress::Start), Action::PollDelay));
    match reported(source.poll_next(Progress::DelayElapsed)) {
        (Error::InvalidLastEventId(id), None) => assert_eq!(id, "\u{1}"),
        other => panic!("{:?}", other),
    }
}

#[test]
fn event_stream_opens_the_source() {
    let (mut source, _) = opened(None);
    assert_eq!(source.ready_state(), ReadyState::Open);
    assert!(matches!(source.poll_next(Progress::Start), Action::PollStream));
    assert!(matches!(source.poll_next(Progress::StreamPending), Action::Pending));
}

#[test]
fn other_response_closes_the_source_whatever_the_policy() {
    for (status, content_type) in [(404, "text/event-stream"), (200, "text/html")] {
        let (mut source, heard) = source(Some(millis(10)));
        sent(source.poll_next(Progress::Start));
        let rejected = response(status, content_type);
        match reported(source.poll_next(Progress::ResponseArrived(rejected))) {
            (Error::InvalidStatusCode(404, _), None) => assert_eq!(status, 404),
            (Error::InvalidContentType(found, _), None) => assert_eq!(found, "text/html"),
            other => panic!("{:?}", other),
        }
        assert_eq!(source.ready_state(), ReadyState::Closed);
        assert!(is_end(source.poll_next(Progress::Start)));
        assert!(heard.borrow().is_empty());
    }
}

#[test]
fn events_are_reported_and_their_ids_kept() {
    let (mut source, _) = opened(None);
    for id in ["1", "two", ""] {
        match source.poll_next(Progress::StreamEvent(event(id))) {
            Action::Ready(Some(Ok(Event::Message(found))), Setup::Nothing) => {
                assert_eq!(found, event(id));
            }
            other => panic!("{:?}", other),
        }
        assert_eq!(source.last_event_id(), id);
        assert_eq!(source.ready_state(), ReadyState::Open);
    }
}

#[test]
fn failed_request_is_tried_again_after_the_delay() {
    let (mut source, heard) = source(Some(millis(10)));
    sent(source.poll_next(Progress::Start));
    match reported(source.poll_next(Progress::ResponseFailed(failure()))) {
        (Error::Transport(error), delay) => {
            assert!(error.is_middleware());
            assert_eq!(delay, Some(millis(10)));
        }
        other => panic!("{:?}", other),
    }
    assert_eq!(*heard.borrow(), [None]);
    assert_eq!(source.ready_state(), ReadyState::Connecting);
    assert!(matches!(source.poll_next(Progress::Start), Action::PollDelay));
    assert!(matches!(source.poll_next(Progress::DelayPending), Action::Pending));
    assert!(matches!(source.poll_next(Progress::Start), Action::PollDelay));
    let request = sent(source.poll_next(Progress::DelayElapsed));
    assert_eq!(request.url().as_str(), "http://a.test/events");
    assert_eq!(values(&request, "accept"), ["text/event-stream"]);
    assert_eq!(values(&request, "x-test"), ["here"]);
    assert_eq!(values(&request, "last-event-id"), [""]);
    assert!(matches!(source.poll_next(Progress::Start), Action::PollResponse));
}

#[test]
fn retries_keep_the_number_one() {
    let (mut source, heard) = source(Some(millis(10)));
    sent(source.poll_next(Progress::Start));
    for _ in 0..3 {
        reported(source.poll_next(Progress::ResponseFailed(failure())));
        sent(source.poll_next(Progress::DelayElapsed));
    }
    let last = Some((1, millis(10)));
    assert_eq!(*heard.borrow(), [None, last, last]);
}

#[test]
fn connection_ends_the_retries() {
    let (mut source, heard) = source(Some(millis(10)));
    sent(source.poll_next(Progress::Start));
    reported(source.poll_next(Progress::ResponseFailed(failure())));
    sent(source.poll_next(Progress::DelayElapsed));
    open(&mut source);
    reported(source.poll_next(Progress::StreamEnded));
    assert_eq!(*heard.borrow(), [None, None]);
}

#[test]
fn source_closes_where_the_policy_gives_up() {
    let (mut source, heard) = opened(None);
    match reported(source.poll_next(Progress::StreamEnded)) {
        (Error::StreamEnded, None) => {}
        other => panic!("{:?}", other),
    }
    assert_eq!(*heard.borrow(), [None]);
    assert_eq!(source.ready_state(), ReadyState::Closed);
    assert!(is_end(source.poll_next(Progress::Start)));
    assert!(is_end(source.poll_next(Progress::Start)));
}

#[test]
fn failed_stream_reports_its_error() {
    let (mut source, _) = opened(Some(millis(10)));
    let error = EventStreamError::Parser("why".to_string());
    match reported(source.poll_next(Progress::StreamFailed(error))) {
        (Error::Parser(message), Some(delay)) => {
            assert_eq!(message, "why");
            assert_eq!(delay, millis(10));
        }
        other => panic!("{:?}", other),
    }
    assert_eq!(source.ready_state(), ReadyState::Connecting);
}

#[test]
fn reconnection_tells_the_last_event() {
    let (mut source, _) = opened(Some(millis(10)));
    source.poll_next(Progress::StreamEvent(event("7\u{e9}")));
    reported(source.poll_next(Progress::StreamEnded));
    let request = sent(source.poll_next(Progress::DelayElapsed));
    assert_eq!(values(&request, "last-event-id"), ["7\u{e9}"]);
    assert_eq!(open(&mut source), "7\u{e9}");
    reported(source.poll_next(Progress::StreamEnded));
    let request = sent(source.poll_next(Progress::DelayElapsed));
    assert_eq!(values(&request, "last-event-id"), ["7\u{e9}"]);
}

#[test]
fn last_event_id_that_fits_no_header_closes_the_source() {
    for id in ["a\u{1}", "a\u{7f}", "a\r"] {
        let (mut source, _) = opened(Some(millis(10)));
        source.poll_next(Progress::StreamEvent(event(id)));
        reported(source.poll_next(Progress::StreamEnded));
        match reported(source.poll_next(Progress::DelayElapsed)) {
            (Error::InvalidLastEventId(found), None) => assert_eq!(found, id),
            other => panic!("{:?}", other),
        }
        assert_eq!(source.ready_state(), ReadyState::Closed);
        assert!(is_end(source.poll_next(Progress::Start)));
    }
}

#[test]
fn reconnection_time_goes_to_the_policy() {
    let (mut source, _) = opened(None);
    let asking = MessageEvent { retry: Some(millis(77)), ..event("1") };
    source.poll_next(Progress::StreamEvent(asking));
    let (_, delay) = reported(source.poll_next(Progress::StreamEnded));
    assert_eq!(delay, Some(millis(77)));
}

#[test]
fn policy_can_be_replaced() {
    let (mut source, heard) = opened(None);
    let (other, other_heard) = policy(Some(millis(5)));
    source.set_retry_policy(other);
    let (_, delay) = reported(source.poll_next(Progress::StreamEnded));
    assert_eq!(delay, Some(millis(5)));
    assert!(heard.borrow().is_empty());
    assert_eq!(*other_heard.borrow(), [None]);
}

#[test]
fn closed_source_stays_closed() {
    let (mut source, heard) = opened(Some(millis(10)));
    source.close();
    assert_eq!(source.ready_state(), ReadyState::Closed);
    for _ in 0..3 {
        assert!(is_end(source.poll_next(Progress::Start)));
    }
    assert_eq!(source.ready_state(), ReadyState::Closed);
    assert!(heard.borrow().is_empty());
}

#[test]
fn closing_while_connecting_ends_the_attempts() {
    let (mut source, _) = source(Some(millis(10)));
    source.close();
    assert!(is_end(source.poll_next(Progress::Start)));
}

#[test]
fn message_becomes_an_event() {
    assert_eq!(Event::from(event("1")), Event::Message(event("1")));
    assert_ne!(Event::from(event("1")), Event::Open);
}

/// Answers each request itself, and takes down the extension that it sees with it.
struct Answering {
    seen: Arc<Mutex<Vec<Option<&'static str>>>>,
}

impl reqwest_middleware::Middleware for Answering {
    fn handle<'s, 'e, 'n, 'a>(
        &'s self,
        _: reqwest::Request,
        extensions: &'e mut http::Extensions,
        _: reqwest_middleware::Next<'n>,
    ) -> Pin<Box<dyn Future<Output = reqwest_middleware::Result<reqwest::Response>> + Send + 'a>>
    where
        's: 'a,
        'e: 'a,
        'n: 'a,
        Self: 'a,
    {
        self.seen.lock().unwrap().push(extensions.get::<&'static str>().copied());
        Box::pin(async { Ok(response(200, "text/event-stream")) })
    }
}

fn runtime() -> tokio::runtime::Runtime {
    tokio::runtime::Builder::new_current_thread().enable_all().build().unwrap()
}

/// Sends the request of an action.
fn send(action: Action) -> Result<reqwest::Response, reqwest_middleware::Error> {
    match action {
        Action::Send(request) => runtime().block_on(request.send()),
        other => panic!("{:?}", other),
    }
}

#[test]
fn every_request_goes_through_the_middleware() {
    let seen = Arc::new(Mutex::new(Vec::new()));
    let client = reqwest_middleware::ClientBuilder::new(reqwest::Client::new())
        .with(Answering { seen: seen.clone() })
        .build();
    let builder = client.get("http://a.test/").with_extension("extension");
    let (policy, _) = policy(Some(millis(10)));
    let mut source = EventSource::new_with_middleware(builder, policy).unwrap();
    let answer = send(source.poll_next(Progress::Start)).unwrap();
    source.poll_next(Progress::ResponseArrived(answer));
    for _ in 0..2 {
        reported(source.poll_next(Progress::StreamEnded));
        let answer = send(source.poll_next(Progress::DelayElapsed)).unwrap();
        source.poll_next(Progress::ResponseArrived(answer));
        assert_eq!(source.ready_state(), ReadyState::Open);
    }
    assert_eq!(*seen.lock().unwrap(), [Some("extension"); 3]);
}

/// Finds no address, and takes down the names that it is asked for.
struct Unknown {
    asked: Arc<Mutex<Vec<String>>>,
}

impl reqwest::dns::Resolve for Unknown {
    fn resolve(&self, name: reqwest::dns::Name) -> reqwest::dns::Resolving {
        self.asked.lock().unwrap().push(name.as_str().to_string());
        Box::pin(async { Err(Box::from("no address")) })
    }
}

#[test]
fn every_request_goes_through_the_plain_client() {
    let asked = Arc::new(Mutex::new(Vec::new()));
    let client = reqwest::Client::builder()
        .no_proxy()
        .dns_resolver(Arc::new(Unknown { asked: asked.clone() }))
        .build()
        .unwrap();
    let (policy, _) = policy(Some(millis(10)));
    let mut source = EventSource::new(client.get("http://a.test/"), policy).unwrap();
    let mut error = ReqwestError::new(send(source.poll_next(Progress::Start)).unwrap_err());
    for _ in 0..2 {
        assert!(error.is_connect() && !error.is_middleware());
        reported(source.poll_next(Progress::ResponseFailed(error)));
        let failed = send(source.poll_next(Progress::DelayElapsed)).unwrap_err();
        error = ReqwestError::new(failed);
    }
    assert_eq!(*asked.lock().unwrap(), ["a.test"; 3]);
}

#[test]
fn ids_of_earlier_reconnections_do_not_gather() {
    let (mut source, _) = opened(Some(millis(10)));
    for id in ["1", "2", ""] {
        source.poll_next(Progress::StreamEvent(event(id)));
        reported(source.poll_next(Progress::StreamEnded));
        let request = sent(source.poll_next(Progress::DelayElapsed));
        assert_eq!(values(&request, "last-event-id"), [id]);
        assert_eq!(open(&mut source), id);
    }
}

#[test]
fn id_stands_behind_one_that_was_there() {
    let (policy, _) = policy(Some(millis(10)));
    let mut source = EventSource::new(get().header("Last-Event-ID", "own"), policy).unwrap();
    let request = sent(source.poll_next(Progress::Start));
    assert_eq!(values(&request, "last-event-id"), ["own"]);
    reported(source.poll_next(Progress::ResponseFailed(failure())));
    let request = sent(source.poll_next(Progress::DelayElapsed));
    assert_eq!(values(&request, "last-event-id"), ["own", ""]);
}

#[test]
fn reports_are_in_order() {
    let (mut source, _) = source(Some(millis(10)));
    let mut reports = String::new();
    for progress in [
        Progress::Start,
        Progress::ResponseFailed(failure()),
        Progress::DelayElapsed,
        Progress::ResponseArrived(response(200, "text/event-stream")),
        Progress::StreamEvent(event("1")),
        Progress::StreamPending,
        Progress::StreamEvent(event("2")),
        Progress::StreamEnded,
        Progress::DelayElapsed,
        Progress::ResponseArrived(response(200, "text/event-stream")),
        Progress::StreamEvent(event("3")),
    ] {
        match source.poll_next(progress) {
            Action::Ready(Some(Ok(Event::Open)), _) => reports.push('o'),
            Action::Ready(Some(Ok(Event::Message(_))), _) => reports.push('m'),
            Action::Ready(Some(Err(_)), _) => reports.push('e'),
            _ => {}
        }
    }
    assert_eq!(reports, "eommeom");
}
