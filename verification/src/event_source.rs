//! The event source.
//!
//! An [`EventSource`] decides; a driver does the sending, the waiting and the receiving. On each
//! poll the driver calls [`EventSource::poll_next`] with [`Progress::Start`], does what the
//! [`Action`] says, and comes back with what came of it, until the action is one that ends the
//! poll.
use core::time::Duration;
use reqwest::header::HeaderValue;
use reqwest_middleware::RequestBuilder;
use vstd::prelude::*;
use vstd::utf8::encode_utf8;

use crate::error::{stream_error, CannotCloneRequestError, Error, EventStreamError, ReqwestError};
use crate::event::{Event, MessageEvent};
use crate::header::{is_header_name, is_header_text};
use crate::request::{
    add_header, is_clonable, plain_headers, plain_is_clonable, plain_takes_header, plain_view,
    request_headers, request_view, takes_header, without_middleware, RequestView,
    SURE_HEADER_NAMES,
};
use crate::response::{check_response, is_plain_event_stream, rejects, response_head, Head};
use crate::retry::{answers, RetryPolicy};

verus! {

/// How far an event source is.
#[derive(Debug, Clone, Copy, PartialEq, Eq, PartialOrd, Ord, Structural)]
pub enum ReadyState {
    /// It waits for a response, or for the time to ask again.
    Connecting,
    /// It is connected.
    Open,
    /// It is closed, and reports no more events.
    Closed,
}

/// The response that an event source waits for.
enum Fetch {
    /// The request is yet to be sent.
    Unsent(RequestBuilder),
    /// The request is on its way.
    Sent,
}

/// The response that an event source waits for.
#[verifier::ext_equal]
pub enum FetchView {
    /// The request is yet to be sent.
    Unsent(RequestView),
    /// The request is on its way.
    Sent,
}

/// A source of server-sent events, which asks again when a request fails.
pub struct EventSource<P> {
    builder: RequestBuilder,
    next_response: Option<Fetch>,
    cur_stream: bool,
    delay: Option<Duration>,
    is_closed: bool,
    retry_policy: P,
    last_event_id: String,
    last_retry: Option<(usize, Duration)>,
}

/// An event source, without its policy.
#[verifier::ext_equal]
pub struct SourceView {
    /// The request to send on each connection.
    pub request: RequestView,
    /// The response that it waits for.
    pub next_response: Option<FetchView>,
    /// Whether it reads an event stream.
    pub cur_stream: bool,
    /// The delay that it waits for.
    pub delay: Option<Duration>,
    pub is_closed: bool,
    pub last_event_id: Seq<char>,
    /// Number and delay of the last retry since it was last connected.
    pub last_retry: Option<(usize, Duration)>,
}

/// What the driver of an event source comes back with.
#[derive(Debug)]
pub enum Progress {
    /// A poll begins.
    Start,
    /// The delay is not over.
    DelayPending,
    /// The delay is over.
    DelayElapsed,
    /// The response is not there.
    ResponsePending,
    /// The response is there.
    ResponseArrived(reqwest::Response),
    /// The request failed.
    ResponseFailed(ReqwestError),
    /// No event is there.
    StreamPending,
    /// An event is there.
    StreamEvent(MessageEvent),
    /// The event stream failed.
    StreamFailed(EventStreamError<ReqwestError>),
    /// The event stream ended.
    StreamEnded,
}

/// What the driver of an event source has to do.
#[derive(Debug)]
pub enum Action {
    /// Look whether the delay is over.
    PollDelay,
    /// Send the request, and look whether the response is there.
    Send(RequestBuilder),
    /// Look whether the response is there.
    PollResponse,
    /// Look for the next event.
    PollStream,
    /// End the poll: there is nothing to report yet.
    Pending,
    /// End the poll: report this, or the end of all events. Something may have to be set up
    /// before.
    Ready(Option<Result<Event, Error>>, Setup),
}

/// What the driver of an event source has to set up at the end of a poll.
#[derive(Debug)]
pub enum Setup {
    /// Nothing.
    Nothing,
    /// Read the body of the response as an event stream, with this as the last event id.
    Stream(reqwest::Response, String),
    /// Start to wait for this delay.
    Delay(Duration),
}

impl SourceView {
    /// A source that is about to send `request`, which accepts event streams.
    pub open spec fn initial(request: RequestView) -> SourceView {
        let request = request.with_header("accept"@, encode_utf8("text/event-stream"@));
        SourceView {
            request,
            next_response: Some(FetchView::Unsent(request)),
            cur_stream: false,
            delay: None,
            is_closed: false,
            last_event_id: Seq::empty(),
            last_retry: None,
        }
    }

    /// An open source waits for exactly one thing: a delay, a response or an event. What is yet
    /// to be sent is the request as it stands. A delay is the one of the last retry, and the last
    /// retry has the number one.
    pub open spec fn wf(self) -> bool {
        &&& !self.is_closed ==> {
            ||| self.delay is Some && self.next_response is None && !self.cur_stream
            ||| self.delay is None && self.next_response is Some && !self.cur_stream
            ||| self.delay is None && self.next_response is None && self.cur_stream
        }
        &&& self.next_response matches Some(FetchView::Unsent(request)) ==> request == self.request
        &&& self.delay matches Some(delay) ==> self.last_retry == Some((1usize, delay))
        &&& self.last_retry matches Some(last_retry) ==> last_retry.0 == 1
    }

    /// How far the source is.
    pub open spec fn ready_state(self) -> ReadyState {
        if self.is_closed {
            ReadyState::Closed
        } else if self.delay is Some || self.next_response is Some {
            ReadyState::Connecting
        } else {
            ReadyState::Open
        }
    }

    /// Whether the request has room for the last event id.
    pub open spec fn has_room(self) -> bool {
        self.request.takes("last-event-id"@)
    }

    /// Whether the source can go on when a delay is over: a last event id that can stand in a
    /// header has to have room.
    pub open spec fn can_reconnect(self) -> bool {
        is_header_text(self.last_event_id) ==> self.has_room()
    }

    /// Whether the source can make something of `progress`.
    pub open spec fn awaits(self, progress: Progress) -> bool {
        match progress {
            Progress::Start => true,
            Progress::DelayPending => !self.is_closed && self.delay is Some,
            Progress::DelayElapsed => {
                !self.is_closed && self.delay is Some && self.can_reconnect()
            },
            Progress::ResponsePending
            | Progress::ResponseArrived(_)
            | Progress::ResponseFailed(_) => {
                !self.is_closed && self.next_response == Some(FetchView::Sent)
            },
            Progress::StreamPending
            | Progress::StreamEvent(_)
            | Progress::StreamFailed(_)
            | Progress::StreamEnded => { !self.is_closed && self.cur_stream },
        }
    }

    /// The source with neither response nor event stream to wait for.
    pub open spec fn cleared(self) -> SourceView {
        SourceView { next_response: None, cur_stream: false, ..self }
    }

    /// The request for a reconnection: the request of the source, with the last event id.
    pub open spec fn reconnection(self) -> RequestView {
        self.request.with_header("last-event-id"@, encode_utf8(self.last_event_id))
    }

    /// The source once its policy has answered on an error.
    pub open spec fn retrying(self, answer: Option<Duration>) -> SourceView {
        match answer {
            Some(delay) => SourceView {
                delay: Some(delay),
                last_retry: Some(
                    (
                        match self.last_retry {
                            Some(last_retry) => last_retry.0,
                            None => 1,
                        },
                        delay,
                    ),
                ),
                ..self.cleared()
            },
            None => SourceView { is_closed: true, ..self.cleared() },
        }
    }
}

/// The names of the headers that an event source adds.
proof fn lemma_names()
    ensures
        is_header_name("accept"@),
        is_header_name("last-event-id"@),
{
    reveal_strlit("accept");
    reveal_strlit("last-event-id");
}

/// What an event source does first on a poll, and after a delay: it asks for what it waits for.
pub open spec fn resumes(pre: SourceView, post: SourceView, action: Action) -> bool {
    if pre.is_closed {
        post == pre && action == Action::Ready(None, Setup::Nothing)
    } else if pre.delay is Some {
        post == pre && action == Action::PollDelay
    } else {
        match pre.next_response {
            Some(FetchView::Unsent(request)) => {
                &&& post == (SourceView { next_response: Some(FetchView::Sent), ..pre })
                &&& action matches Action::Send(sent) && request_view(sent) == request
            },
            Some(FetchView::Sent) => post == pre && action == Action::PollResponse,
            None => post == pre && action == Action::PollStream,
        }
    }
}

/// What an event source does on an error that a retry may mend: the policy decides.
pub open spec fn fails<P: RetryPolicy>(
    pre: SourceView,
    policy: P,
    error: Error,
    post: SourceView,
    action: Action,
) -> bool {
    exists|answer: Option<Duration>| #[trigger]
        answers(policy, error, pre.last_retry, answer) && post == pre.retrying(answer) && action
            == Action::Ready(
            Some(Err(error)),
            match answer {
                Some(delay) => Setup::Delay(delay),
                None => Setup::Nothing,
            },
        )
}

/// What an event source does with `progress`.
pub open spec fn step<P: RetryPolicy>(
    pre: SourceView,
    policy: P,
    progress: Progress,
    post: SourceView,
    action: Action,
) -> bool {
    match progress {
        Progress::Start => resumes(pre, post, action),
        Progress::DelayPending | Progress::ResponsePending | Progress::StreamPending => {
            post == pre && action == Action::Pending
        },
        Progress::DelayElapsed => if is_header_text(pre.last_event_id) {
            &&& post == (SourceView { delay: None, next_response: Some(FetchView::Sent), ..pre })
            &&& action matches Action::Send(sent) && request_view(sent) == pre.reconnection()
        } else {
            &&& post == (SourceView { delay: None, is_closed: true, ..pre })
            &&& action matches Action::Ready(
                Some(Err(Error::InvalidLastEventId(id))),
                Setup::Nothing,
            ) && id@ == pre.last_event_id
        },
        Progress::ResponseArrived(response) => if response_head(response) == Head::EventStream {
            &&& post == (SourceView { cur_stream: true, last_retry: None, ..pre.cleared() })
            &&& action matches Action::Ready(Some(Ok(Event::Open)), Setup::Stream(opened, id))
                && opened == response && id@ == pre.last_event_id
        } else {
            &&& post == (SourceView { is_closed: true, ..pre.cleared() })
            &&& action matches Action::Ready(Some(Err(error)), Setup::Nothing) && rejects(
                error,
                response,
            )
        },
        Progress::ResponseFailed(error) => fails(
            pre,
            policy,
            Error::Transport(error),
            post,
            action,
        ),
        Progress::StreamEvent(event) => {
            &&& post == (SourceView { last_event_id: event.id@, ..pre })
            &&& action == Action::Ready(Some(Ok(Event::Message(event))), Setup::Nothing)
        },
        Progress::StreamFailed(error) => fails(pre, policy, stream_error(error), post, action),
        Progress::StreamEnded => fails(pre, policy, Error::StreamEnded, post, action),
    }
}

impl<P> View for EventSource<P> {
    type V = SourceView;

    closed spec fn view(&self) -> SourceView {
        SourceView {
            request: request_view(self.builder),
            next_response: match self.next_response {
                Some(Fetch::Unsent(request)) => Some(FetchView::Unsent(request_view(request))),
                Some(Fetch::Sent) => Some(FetchView::Sent),
                None => None,
            },
            cur_stream: self.cur_stream,
            delay: self.delay,
            is_closed: self.is_closed,
            last_event_id: self.last_event_id@,
            last_retry: self.last_retry,
        }
    }
}

impl<P> EventSource<P> {
    /// The policy of the source.
    pub closed spec fn policy(&self) -> P {
        self.retry_policy
    }

    /// The request of the source can be cloned.
    spec fn can_clone(&self) -> bool {
        is_clonable(self.builder)
    }

    /// The source can always clone its request, and is as [`SourceView::wf`] says.
    pub closed spec fn wf(&self) -> bool {
        self.can_clone() && self@.wf()
    }

    /// What a well-formed source shows is well formed.
    pub proof fn lemma_wf(&self)
        requires
            self.wf(),
        ensures
            self@.wf(),
    {
    }
}

impl<P: RetryPolicy> EventSource<P> {
    /// An event source for a request of a plain client.
    ///
    /// The request gets a header that accepts event streams, and will be sent on the first poll.
    /// It has to be one that can be cloned, to be sent again. One that can has to have room for the
    /// header; [`EventSource::try_new`] looks whether it does.
    pub fn new(builder: reqwest::RequestBuilder, retry_policy: P) -> (r: Result<
        Self,
        CannotCloneRequestError,
    >)
        requires
            plain_is_clonable(builder) ==> plain_view(builder).takes("accept"@),
        ensures
            match r {
                Ok(source) => {
                    &&& plain_is_clonable(builder)
                    &&& source.wf()
                    &&& source@ == SourceView::initial(plain_view(builder))
                    &&& source.policy() == retry_policy
                    &&& plain_headers(builder).dom().len() + 2 <= SURE_HEADER_NAMES
                        ==> source@.has_room()
                },
                Err(_) => !plain_is_clonable(builder),
            },
    {
        match without_middleware(builder) {
            Some(builder) => Self::new_with_middleware(builder, retry_policy),
            None => Err(CannotCloneRequestError),
        }
    }

    /// An event source for a request of a client with middleware; see [`EventSource::new`].
    pub fn new_with_middleware(builder: RequestBuilder, retry_policy: P) -> (r: Result<
        Self,
        CannotCloneRequestError,
    >)
        requires
            is_clonable(builder) ==> request_view(builder).takes("accept"@),
        ensures
            match r {
                Ok(source) => {
                    &&& is_clonable(builder)
                    &&& source.wf()
                    &&& source@ == SourceView::initial(request_view(builder))
                    &&& source.policy() == retry_policy
                    &&& request_headers(builder).dom().len() + 2 <= SURE_HEADER_NAMES
                        ==> source@.has_room()
                },
                Err(_) => !is_clonable(builder),
            },
    {
        proof {
            lemma_names();
        }
        if builder.try_clone().is_none() {
            return Err(CannotCloneRequestError);
        }
        proof {
            assert(seq!["accept"@] + seq!["last-event-id"@] =~= seq!["accept"@, "last-event-id"@]);
            reveal_strlit("text/event-stream");
            assert(vstd::utf8::is_ascii_chars("text/event-stream"@));
            vstd::utf8::is_ascii_chars_encode_utf8("text/event-stream"@);
        }
        let builder = add_header(builder, "accept", HeaderValue::from_static("text/event-stream"));
        let request = builder.try_clone().unwrap();
        Ok(
            EventSource {
                builder,
                next_response: Some(Fetch::Unsent(request)),
                cur_stream: false,
                delay: None,
                is_closed: false,
                retry_policy,
                last_event_id: String::new(),
                last_retry: None,
            },
        )
    }

    /// As [`EventSource::new`], on any request: nothing where the request has no room for the
    /// header that accepts event streams. One with few header names has.
    pub fn try_new(builder: reqwest::RequestBuilder, retry_policy: P) -> (r: Option<
        Result<Self, CannotCloneRequestError>,
    >)
        ensures
            match r {
                Some(Ok(source)) => {
                    &&& plain_is_clonable(builder)
                    &&& plain_view(builder).takes("accept"@)
                    &&& source.wf()
                    &&& source@ == SourceView::initial(plain_view(builder))
                    &&& source.policy() == retry_policy
                    &&& plain_headers(builder).dom().len() + 2 <= SURE_HEADER_NAMES
                        ==> source@.has_room()
                },
                Some(Err(_)) => !plain_is_clonable(builder),
                None => plain_is_clonable(builder) && !plain_view(builder).takes("accept"@),
            },
    {
        proof {
            lemma_names();
        }
        match plain_takes_header(&builder, "accept") {
            Some(false) => None,
            _ => Some(Self::new(builder, retry_policy)),
        }
    }

    /// As [`EventSource::new_with_middleware`], on any request: nothing where the request has no
    /// room for the header that accepts event streams. One with few header names has.
    pub fn try_new_with_middleware(builder: RequestBuilder, retry_policy: P) -> (r: Option<
        Result<Self, CannotCloneRequestError>,
    >)
        ensures
            match r {
                Some(Ok(source)) => {
                    &&& is_clonable(builder)
                    &&& request_view(builder).takes("accept"@)
                    &&& source.wf()
                    &&& source@ == SourceView::initial(request_view(builder))
                    &&& source.policy() == retry_policy
                    &&& request_headers(builder).dom().len() + 2 <= SURE_HEADER_NAMES
                        ==> source@.has_room()
                },
                Some(Err(_)) => !is_clonable(builder),
                None => is_clonable(builder) && !request_view(builder).takes("accept"@),
            },
    {
        proof {
            lemma_names();
        }
        match takes_header(&builder, "accept") {
            Some(false) => None,
            _ => Some(Self::new_with_middleware(builder, retry_policy)),
        }
    }

    /// Whether the source can go on when a delay is over. It cannot where the request has no room
    /// for the last event id; one with few header names has.
    pub fn can_reconnect(&self) -> (b: bool)
        requires
            self.wf(),
        ensures
            b == self@.can_reconnect(),
    {
        proof {
            lemma_names();
        }
        HeaderValue::from_str(self.last_event_id.as_str()).is_err() || takes_header(
            &self.builder,
            "last-event-id",
        ).unwrap()
    }

    /// Closes the source: it reports nothing more, and does not try to reconnect.
    pub fn close(&mut self)
        requires
            old(self).wf(),
        ensures
            final(self).wf(),
            final(self)@ == (SourceView { is_closed: true, ..old(self)@ }),
            final(self).policy() == old(self).policy(),
    {
        self.is_closed = true;
    }

    /// Sets the retry policy.
    pub fn set_retry_policy(&mut self, policy: P)
        requires
            old(self).wf(),
        ensures
            final(self).wf(),
            final(self)@ == old(self)@,
            final(self).policy() == policy,
    {
        self.retry_policy = policy;
    }

    /// The id of the last event.
    pub fn last_event_id(&self) -> (id: &str)
        ensures
            id@ == self@.last_event_id,
    {
        self.last_event_id.as_str()
    }

    /// How far the source is.
    pub fn ready_state(&self) -> (state: ReadyState)
        ensures
            state == self@.ready_state(),
    {
        if self.is_closed {
            ReadyState::Closed
        } else if self.delay.is_some() || self.next_response.is_some() {
            ReadyState::Connecting
        } else {
            ReadyState::Open
        }
    }

    /// Lets go of the response and of the event stream.
    fn clear_fetch(&mut self)
        requires
            old(self).can_clone(),
        ensures
            final(self).can_clone(),
            final(self)@ == old(self)@.cleared(),
            final(self).policy() == old(self).policy(),
    {
        self.next_response = None;
        self.cur_stream = false;
    }

    /// Prepares the request for a reconnection, with the last event id.
    ///
    /// It fails where the id cannot stand in a header.
    fn retry_fetch(&mut self) -> (r: Result<(), Error>)
        requires
            old(self).can_clone(),
            old(self)@.can_reconnect(),
        ensures
            final(self).can_clone(),
            final(self).policy() == old(self).policy(),
            match r {
                Ok(_) => {
                    &&& is_header_text(old(self)@.last_event_id)
                    &&& final(self)@ == (SourceView {
                        cur_stream: false,
                        next_response: Some(FetchView::Unsent(old(self)@.reconnection())),
                        ..old(self)@
                    })
                },
                Err(error) => {
                    &&& !is_header_text(old(self)@.last_event_id)
                    &&& final(self)@ == (SourceView { cur_stream: false, ..old(self)@ })
                    &&& error matches Error::InvalidLastEventId(id) && id@
                        == old(self)@.last_event_id
                },
            },
    {
        self.cur_stream = false;
        let request = self.builder.try_clone().unwrap();
        let id = match HeaderValue::from_str(self.last_event_id.as_str()) {
            Ok(id) => id,
            Err(_) => return Err(Error::InvalidLastEventId(self.last_event_id.clone())),
        };
        proof {
            lemma_names();
        }
        let request = add_header(request, "last-event-id", id);
        self.next_response = Some(Fetch::Unsent(request));
        Ok(())
    }

    /// Turns to the event stream of a response, which begins with the last event id of the
    /// source: the retries are over.
    fn handle_response(&mut self, response: reqwest::Response) -> (setup: Setup)
        requires
            old(self).can_clone(),
        ensures
            final(self).can_clone(),
            final(self)@ == (SourceView { last_retry: None, cur_stream: true, ..old(self)@ }),
            final(self).policy() == old(self).policy(),
            setup matches Setup::Stream(opened, id) && opened == response && id@
                == old(self)@.last_event_id,
    {
        self.last_retry = None;
        self.cur_stream = true;
        Setup::Stream(response, self.last_event_id.clone())
    }

    /// Takes note of an event: its id is the last one, and a reconnection time that it asks for
    /// goes to the policy.
    fn handle_event(&mut self, event: &MessageEvent)
        requires
            old(self).can_clone(),
        ensures
            final(self).can_clone(),
            final(self)@ == (SourceView { last_event_id: event.id@, ..old(self)@ }),
            match event.retry {
                Some(time) => exists|policy: &mut P|
                    *policy == old(self).policy() && *final(policy) == final(self).policy()
                        && #[trigger] call_ensures(P::set_reconnection_time, (policy, time), ()),
                None => final(self).policy() == old(self).policy(),
            },
    {
        self.last_event_id = event.id.clone();
        if let Some(duration) = event.retry {
            self.retry_policy.set_reconnection_time(duration);
        }
    }

    /// Does on an error what the policy decides: waits for the delay that it names, or closes the
    /// source for good.
    fn handle_error(&mut self, error: &Error)
        requires
            old(self).can_clone(),
        ensures
            final(self).can_clone(),
            old(self).wf() ==> final(self).wf(),
            exists|answer: Option<Duration>| #[trigger]
                answers(old(self).policy(), *error, old(self)@.last_retry, answer) && final(self)@
                    == old(self)@.retrying(answer),
            final(self).policy() == old(self).policy(),
    {
        let answer = self.retry_policy.retry(error, self.last_retry);
        assert(answers(self.retry_policy, *error, self.last_retry, answer));
        self.schedule_retry(answer);
    }

    /// Does on an error what the policy has answered: waits for the delay, or closes the source
    /// for good.
    ///
    /// The retry takes over the number of the one before it, or else begins at one.
    fn schedule_retry(&mut self, answer: Option<Duration>)
        requires
            old(self).can_clone(),
        ensures
            final(self).can_clone(),
            old(self).wf() ==> final(self).wf(),
            final(self)@ == old(self)@.retrying(answer),
            final(self).policy() == old(self).policy(),
    {
        self.clear_fetch();
        if let Some(retry_delay) = answer {
            let retry_num: usize = match self.last_retry {
                Some(retry) => retry.0,
                None => 1,
            };
            self.last_retry = Some((retry_num, retry_delay));
            self.delay = Some(retry_delay);
        } else {
            self.is_closed = true;
        }
    }

    /// Asks for what the source waits for.
    fn resume(&mut self) -> (action: Action)
        requires
            old(self).can_clone(),
        ensures
            final(self).can_clone(),
            resumes(old(self)@, final(self)@, action),
            final(self).policy() == old(self).policy(),
    {
        if self.is_closed {
            return Action::Ready(None, Setup::Nothing);
        }
        if self.delay.is_some() {
            return Action::PollDelay;
        }
        match self.next_response.take() {
            Some(fetch) => {
                self.next_response = Some(Fetch::Sent);
                match fetch {
                    Fetch::Unsent(request) => Action::Send(request),
                    Fetch::Sent => Action::PollResponse,
                }
            },
            None => Action::PollStream,
        }
    }

    /// Reports an error that a retry may mend.
    fn fail(&mut self, error: Error) -> (action: Action)
        requires
            old(self).wf(),
            !old(self)@.is_closed,
            old(self)@.delay is None,
        ensures
            final(self).wf(),
            fails(old(self)@, old(self).policy(), error, final(self)@, action),
            final(self).policy() == old(self).policy(),
    {
        self.handle_error(&error);
        match self.delay {
            Some(delay) => Action::Ready(Some(Err(error)), Setup::Delay(delay)),
            None => Action::Ready(Some(Err(error)), Setup::Nothing),
        }
    }

    /// Goes on with a poll: takes what came of the last action, and says what to do next.
    ///
    /// A closed source reports the end of all events. An open one asks for what it waits for.
    /// When a delay is over it sends its request again, with the last event id; an id that cannot
    /// stand in a header closes it. A response that opens an event stream, as one of success with
    /// the `Content-Type` `text/event-stream` does, ends the retries; any other response closes the
    /// source. On a failed request, a failed event stream and the end of one the policy decides.
    pub fn poll_next(&mut self, progress: Progress) -> (action: Action)
        requires
            old(self).wf(),
            old(self)@.awaits(progress),
        ensures
            final(self).wf(),
            step(old(self)@, old(self).policy(), progress, final(self)@, action),
            progress matches Progress::ResponseArrived(response) ==> is_plain_event_stream(response)
                ==> response_head(response) == Head::EventStream,
            match progress {
                Progress::StreamEvent(MessageEvent { retry: Some(time), .. }) => exists|
                    policy: &mut P,
                |
                    *policy == old(self).policy() && *final(policy) == final(self).policy()
                        && #[trigger] call_ensures(P::set_reconnection_time, (policy, time), ()),
                _ => final(self).policy() == old(self).policy(),
            },
    {
        match progress {
            Progress::Start => self.resume(),
            Progress::DelayPending | Progress::ResponsePending | Progress::StreamPending => {
                Action::Pending
            },
            Progress::DelayElapsed => {
                self.delay = None;
                match self.retry_fetch() {
                    Ok(_) => self.resume(),
                    Err(error) => {
                        self.is_closed = true;
                        Action::Ready(Some(Err(error)), Setup::Nothing)
                    },
                }
            },
            Progress::ResponseArrived(response) => {
                self.clear_fetch();
                match check_response(response) {
                    Ok(response) => {
                        let setup = self.handle_response(response);
                        Action::Ready(Some(Ok(Event::Open)), setup)
                    },
                    Err(error) => {
                        self.is_closed = true;
                        Action::Ready(Some(Err(error)), Setup::Nothing)
                    },
                }
            },
            Progress::ResponseFailed(error) => self.fail(Error::Transport(error)),
            Progress::StreamEvent(event) => {
                self.handle_event(&event);
                Action::Ready(Some(Ok(Event::from(event))), Setup::Nothing)
            },
            Progress::StreamFailed(error) => self.fail(Error::from(error)),
            Progress::StreamEnded => self.fail(Error::StreamEnded),
        }
    }
}

} // verus!
