//! Short sessions with an event source, and what comes of each, whatever the source, its policy and
//! the server.
use core::time::Duration;
use reqwest_middleware::RequestBuilder;
use vstd::prelude::*;
use vstd::utf8::encode_utf8;

use crate::error::{
    error_is_body, error_is_builder, error_is_connect, error_is_decode, error_is_middleware,
    error_is_redirect, error_is_request, error_is_status, error_is_timeout, error_status, error_url,
    CannotCloneRequestError, Error, ReqwestError,
};
use crate::event::{Event, MessageEvent};
use crate::event_source::{Action, EventSource, FetchView, Progress, ReadyState, Setup};
use crate::header::{ascii_text, header_bytes, is_header_text, is_visible};
use crate::media_type::media_names;
use crate::request::{
    bare, is_clonable, plain_client, plain_headers, plain_is_clonable, plain_room, plain_target,
    plain_view, request_client, request_extensions, request_headers, request_room, request_target,
    request_view,
};
use crate::response::{check_response, is_plain_event_stream, response_headers, response_status};
use crate::retry::RetryPolicy;
use crate::step_laws::{
    comes_to, law_delay_elapsed, law_event_is_reported, law_failure_asks_policy, law_new_source,
    law_pending, law_response, law_start,
};

verus! {

/// Makes a source of a request of a plain client and polls it for the first time: the request goes
/// out through that client and no middleware, with one more value under `accept`. Nothing comes
/// of a request that has no room for it, and an error of one that cannot be cloned.
pub fn first_request<P: RetryPolicy>(builder: reqwest::RequestBuilder, policy: P) -> (r: Option<
    Result<(EventSource<P>, Action), CannotCloneRequestError>,
>)
    ensures
        match r {
            Some(Ok((source, action))) => {
                &&& plain_is_clonable(builder)
                &&& plain_room(builder).contains(seq!["accept"@])
                &&& source.wf()
                &&& source.policy() == policy
                &&& source@.ready_state() == ReadyState::Connecting
                &&& source@.last_event_id.len() == 0
                &&& action matches Action::Send(sent) && request_headers(sent) == plain_headers(
                    builder,
                ).insert(
                    "accept"@,
                    (if plain_headers(builder).contains_key("accept"@) {
                        plain_headers(builder)["accept"@]
                    } else {
                        Seq::empty()
                    }).push(encode_utf8("text/event-stream"@)),
                ) && request_target(sent) == plain_target(builder) && request_client(sent) == bare(
                    plain_client(builder),
                ) && request_extensions(sent) is None
            },
            Some(Err(_)) => !plain_is_clonable(builder),
            None => plain_is_clonable(builder) && !plain_room(builder).contains(
                seq!["accept"@],
            ),
        },
{
    match EventSource::try_new(builder, policy) {
        Some(Ok(source)) => {
            let mut source = source;
            let ghost pre = source@;
            proof {
                source.lemma_wf();
                law_new_source(plain_view(builder), pre);
            }
            let action = source.poll_next(Progress::Start);
            proof {
                law_start(pre, policy, source@, action);
            }
            Some(Ok((source, action)))
        },
        Some(Err(error)) => Some(Err(error)),
        None => None,
    }
}

/// Makes a source of a request of a client with middleware and polls it for the first time, as
/// [`first_request`] does: the request goes out through that client and its middleware.
pub fn first_request_with_middleware<P: RetryPolicy>(builder: RequestBuilder, policy: P) -> (r:
    Option<Result<(EventSource<P>, Action), CannotCloneRequestError>>)
    ensures
        match r {
            Some(Ok((source, action))) => {
                &&& is_clonable(builder)
                &&& request_room(builder).contains(seq!["accept"@])
                &&& source.wf()
                &&& source.policy() == policy
                &&& source@.ready_state() == ReadyState::Connecting
                &&& source@.last_event_id.len() == 0
                &&& action matches Action::Send(sent) && request_headers(sent) == request_headers(
                    builder,
                ).insert(
                    "accept"@,
                    (if request_headers(builder).contains_key("accept"@) {
                        request_headers(builder)["accept"@]
                    } else {
                        Seq::empty()
                    }).push(encode_utf8("text/event-stream"@)),
                ) && request_target(sent) == request_target(builder) && request_client(sent)
                    == request_client(builder) && request_extensions(sent) == request_extensions(
                    builder,
                )
            },
            Some(Err(_)) => !is_clonable(builder),
            None => is_clonable(builder) && !request_room(builder).contains(seq!["accept"@]),
        },
{
    match EventSource::try_new_with_middleware(builder, policy) {
        Some(Ok(source)) => {
            let mut source = source;
            let ghost pre = source@;
            proof {
                source.lemma_wf();
                law_new_source(request_view(builder), pre);
            }
            let action = source.poll_next(Progress::Start);
            proof {
                law_start(pre, policy, source@, action);
            }
            Some(Ok((source, action)))
        },
        Some(Err(error)) => Some(Err(error)),
        None => None,
    }
}

/// Closes a source and polls it: it is closed, and reports the end of all events.
pub fn close_and_poll<P: RetryPolicy>(source: &mut EventSource<P>) -> (r: (ReadyState, Action))
    requires
        old(source).wf(),
    ensures
        final(source).wf(),
        final(source)@.last_event_id == old(source)@.last_event_id,
        final(source).policy() == old(source).policy(),
        r.0 == ReadyState::Closed,
        r.1 == Action::Ready(None, Setup::Nothing),
{
    source.close();
    let ghost pre = source@;
    let state = source.ready_state();
    proof {
        source.lemma_wf();
    }
    let action = source.poll_next(Progress::Start);
    proof {
        law_start(pre, source.policy(), source@, action);
    }
    (state, action)
}

/// Brings an event to an open source: it is reported, the source stays open, and the id of the
/// event is the last one. A reconnection time that the event asks for goes to the policy, which
/// otherwise stays as it is.
pub fn bring_event<P: RetryPolicy>(source: &mut EventSource<P>, event: MessageEvent) -> (action:
    Action)
    requires
        old(source).wf(),
        old(source)@.ready_state() == ReadyState::Open,
    ensures
        final(source).wf(),
        final(source)@.ready_state() == ReadyState::Open,
        final(source)@.last_event_id == event.id@,
        action == Action::Ready(Some(Ok(Event::Message(event))), Setup::Nothing),
        match event.retry {
            Some(time) => exists|policy: &mut P|
                *policy == old(source).policy() && *final(policy) == final(source).policy()
                    && #[trigger] call_ensures(P::set_reconnection_time, (policy, time), ()),
            None => final(source).policy() == old(source).policy(),
        },
{
    let ghost (pre, policy) = (source@, source.policy());
    proof {
        source.lemma_wf();
    }
    let action = source.poll_next(Progress::StreamEvent(event));
    proof {
        law_event_is_reported(pre, policy, event, source@, action);
    }
    action
}

/// Brings an event to an open source, closes the source if wanted, and asks for the last event id:
/// it is the id of that event.
pub fn id_of_event<P: RetryPolicy>(
    source: &mut EventSource<P>,
    event: MessageEvent,
    close: bool,
) -> (id: &str)
    requires
        old(source).wf(),
        old(source)@.ready_state() == ReadyState::Open,
    ensures
        id@ == event.id@,
{
    bring_event(source, event);
    if close {
        source.close();
    }
    source.last_event_id()
}

/// Polls an open source in vain: it asks for what it waits for, and as that is not there it has
/// nothing to report, and stays as it is but for a request that has gone out.
pub fn poll_in_vain<P: RetryPolicy>(source: &mut EventSource<P>) -> (r: (Action, Action))
    requires
        old(source).wf(),
        !old(source)@.is_closed,
    ensures
        final(source).wf(),
        final(source)@.ready_state() == old(source)@.ready_state(),
        final(source)@.request == old(source)@.request,
        final(source)@.delay == old(source)@.delay,
        final(source)@.last_event_id == old(source)@.last_event_id,
        final(source)@.last_retry == old(source)@.last_retry,
        final(source).policy() == old(source).policy(),
        old(source)@.delay is Some <==> r.0 is PollDelay,
        old(source)@.next_response matches Some(FetchView::Unsent(_)) <==> r.0 is Send,
        old(source)@.next_response == Some(FetchView::Sent) <==> r.0 is PollResponse,
        old(source)@.ready_state() == ReadyState::Open <==> r.0 is PollStream,
        r.1 == Action::Pending,
{
    let ghost (pre, policy) = (source@, source.policy());
    proof {
        source.lemma_wf();
    }
    let first = source.poll_next(Progress::Start);
    let ghost asked = source@;
    proof {
        law_start(pre, policy, asked, first);
        source.lemma_wf();
    }
    let pending = match first {
        Action::PollDelay => Progress::DelayPending,
        Action::PollStream => Progress::StreamPending,
        _ => Progress::ResponsePending,
    };
    let second = source.poll_next(pending);
    proof {
        law_pending(asked, policy, pending, source@, second);
    }
    (first, second)
}

/// Gives a source another policy and lets it fail: that policy is asked, with the last retry, and
/// the source waits for the delay that it answers, or closes where it answers none.
pub fn fail_with<P: RetryPolicy>(source: &mut EventSource<P>, policy: P, failure: Progress) -> (r: (
    ReadyState,
    Action,
))
    requires
        old(source).wf(),
        old(source)@.awaits(failure),
        failure is ResponseFailed || failure is StreamFailed || failure is StreamEnded,
    ensures
        final(source).wf(),
        final(source).policy() == policy,
        final(source)@.last_event_id == old(source)@.last_event_id,
        r.1 matches Action::Ready(Some(Err(error)), setup) && comes_to(failure, error) && exists|
            answer: Option<Duration>,
        | #[trigger]
            call_ensures(P::retry, (&policy, &error, old(source)@.last_retry), answer)
                && match answer {
                Some(delay) => setup == Setup::Delay(delay) && r.0 == ReadyState::Connecting,
                None => setup == Setup::Nothing && r.0 == ReadyState::Closed,
            },
{
    source.set_retry_policy(policy);
    let ghost pre = source@;
    proof {
        source.lemma_wf();
    }
    let action = source.poll_next(failure);
    proof {
        law_failure_asks_policy(pre, policy, failure, source@, action);
    }
    (source.ready_state(), action)
}

/// What becomes of a source that waits for a delay: the actions of three polls.
pub enum Reconnection {
    /// The request has no room for the last event id.
    Full,
    /// The last event id cannot stand in a header.
    Refused(Action, Action),
    /// The request went out, and a response came.
    Answered(Action, Action, Action),
}

/// Gives a source that waits for a delay another policy, polls it, tells it that the delay is over,
/// and brings it a response. Nothing goes out before the delay is over. Then the request goes out,
/// with the last event id; and where the response opens an event stream, that begins with the last
/// event id too. The source keeps the policy that it was given.
pub fn reconnect<P: RetryPolicy>(
    source: &mut EventSource<P>,
    policy: P,
    response: reqwest::Response,
) -> (r: Reconnection)
    requires
        old(source).wf(),
        !old(source)@.is_closed,
        old(source)@.delay is Some,
    ensures
        final(source).wf(),
        final(source)@.last_event_id == old(source)@.last_event_id,
        final(source).policy() == policy,
        match r {
            Reconnection::Full => {
                &&& is_header_text(old(source)@.last_event_id)
                &&& !old(source)@.request.room.contains(seq!["last-event-id"@])
                &&& final(source)@ == old(source)@
            },
            Reconnection::Refused(first, second) => {
                &&& !is_header_text(old(source)@.last_event_id)
                &&& first == Action::PollDelay
                &&& second matches Action::Ready(
                    Some(Err(Error::InvalidLastEventId(id))),
                    Setup::Nothing,
                ) && id@ == old(source)@.last_event_id
                &&& final(source)@.ready_state() == ReadyState::Closed
            },
            Reconnection::Answered(first, second, third) => {
                &&& is_header_text(old(source)@.last_event_id)
                &&& first == Action::PollDelay
                &&& second matches Action::Send(sent) && request_headers(
                    sent,
                )["last-event-id"@].last() == encode_utf8(old(source)@.last_event_id)
                    && request_target(sent) == old(source)@.request.target && request_client(sent)
                    == old(source)@.request.client && request_extensions(sent)
                    == old(source)@.request.extensions
                &&& response_status(response) != 200 ==> {
                    &&& third matches Action::Ready(
                        Some(Err(Error::InvalidStatusCode(status, rejected))),
                        Setup::Nothing,
                    ) && status == response_status(response) && rejected == response
                    &&& final(source)@.ready_state() == ReadyState::Closed
                }
                &&& response_status(response) == 200 && !response_headers(response).contains_key(
                    "content-type"@,
                ) ==> {
                    &&& third matches Action::Ready(
                        Some(Err(Error::InvalidContentType(found, rejected))),
                        Setup::Nothing,
                    ) && header_bytes(found).len() == 0 && rejected == response
                    &&& final(source)@.ready_state() == ReadyState::Closed
                }
                &&& is_plain_event_stream(response) ==> {
                    &&& third matches Action::Ready(
                        Some(Ok(Event::Open)),
                        Setup::Stream(opened, id),
                    ) && opened == response && id@ == old(source)@.last_event_id
                    &&& final(source)@.ready_state() == ReadyState::Open
                    &&& final(source)@.last_retry is None
                }
            },
        },
{
    source.set_retry_policy(policy);
    if !source.can_reconnect() {
        return Reconnection::Full;
    }
    let ghost pre = source@;
    proof {
        source.lemma_wf();
    }
    let first = source.poll_next(Progress::Start);
    let ghost waiting = source@;
    proof {
        law_start(pre, policy, waiting, first);
        source.lemma_wf();
    }
    let second = source.poll_next(Progress::DelayElapsed);
    let ghost elapsed = source@;
    proof {
        law_delay_elapsed(waiting, policy, elapsed, second);
        source.lemma_wf();
    }
    if matches!(source.ready_state(), ReadyState::Closed) {
        return Reconnection::Refused(first, second);
    }
    let third = source.poll_next(Progress::ResponseArrived(response));
    proof {
        law_response(elapsed, policy, response, source@, third);
    }
    Reconnection::Answered(first, second, third)
}

/// Checks a response: it is taken exactly where its status is 200 and the media type parser finds
/// `text` and `event-stream` in its first `Content-Type`.
pub fn is_taken(response: reqwest::Response) -> (b: bool)
    ensures
        b <==> response_status(response) == 200 && response_headers(response).contains_key(
            "content-type"@,
        ) && is_visible(response_headers(response)["content-type"@][0]) && media_names(
            ascii_text(response_headers(response)["content-type"@][0]),
        ) == Some(("text"@, "event-stream"@)),
        is_plain_event_stream(response) ==> b,
{
    check_response(response).is_ok()
}

/// Asks an error of the client, and the error that it wraps, what kinds it is of: they agree.
pub fn kinds_agree(error: &ReqwestError) -> (b: bool)
    ensures
        b,
{
    let wrapped = error.error();
    error.is_body() == wrapped.is_body() && error.is_builder() == wrapped.is_builder()
        && error.is_connect() == wrapped.is_connect() && error.is_decode() == wrapped.is_decode()
        && error.is_redirect() == wrapped.is_redirect() && error.is_request()
        == wrapped.is_request() && error.is_status() == wrapped.is_status() && error.is_timeout()
        == wrapped.is_timeout() && error.is_middleware() == wrapped.is_middleware()
        && error.is_status() == error.status().is_some() && !error.is_upgrade()
        && error.url().is_some() == wrapped.url().is_some()
}

/// Takes the URL of an error away and sets another: the error has that URL and is otherwise as it
/// was. One that comes from a middleware stays as it is.
pub fn replace_url(error: ReqwestError, url: reqwest::Url) -> (r: ReqwestError)
    ensures
        error_is_middleware(error@) ==> r@ == error@,
        !error_is_middleware(error@) ==> error_url(r@) == Some(url),
        error_is_body(r@) == error_is_body(error@),
        error_is_builder(r@) == error_is_builder(error@),
        error_is_connect(r@) == error_is_connect(error@),
        error_is_decode(r@) == error_is_decode(error@),
        error_is_middleware(r@) == error_is_middleware(error@),
        error_is_redirect(r@) == error_is_redirect(error@),
        error_is_request(r@) == error_is_request(error@),
        error_is_status(r@) == error_is_status(error@),
        error_is_timeout(r@) == error_is_timeout(error@),
        error_status(r@) == error_status(error@),
{
    error.without_url().with_url(url)
}

/// Puts a URL in the place of the one that an error has: it then has that one, is otherwise as it
/// was, and has none where it had none.
pub fn change_url(error: &mut ReqwestError, url: reqwest::Url)
    ensures
        match error_url(old(error)@) {
            Some(_) => error_url(final(error)@) == Some(url),
            None => *final(error) == *old(error),
        },
        error_status(final(error)@) == error_status(old(error)@),
        error_is_middleware(final(error)@) == error_is_middleware(old(error)@),
        error_is_timeout(final(error)@) == error_is_timeout(old(error)@),
{
    if let Some(found) = error.url_mut() {
        *found = url;
    }
}

} // verus!
