//! What each step of an event source does, for each thing that a driver may come back with.
use core::time::Duration;
use vstd::prelude::*;
use vstd::utf8::encode_utf8;

use crate::error::{stream_error, Error, EventStreamError};
use crate::event::{Event, MessageEvent};
use crate::event_source::{step, Action, FetchView, Progress, ReadyState, Setup, SourceView};
use crate::header::{ascii_text, header_bytes, is_header_text, is_visible};
use crate::media_type::media_names;
use crate::request::{request_view, RequestView};
use crate::response::{response_headers, response_status};
use crate::retry::RetryPolicy;

verus! {

/// A new source is connecting, knows no event and no retry, and has the request that it was given
/// with one more value under `accept`, behind those that were there.
pub proof fn law_new_source(request: RequestView, source: SourceView)
    requires
        source == SourceView::initial(request),
    ensures
        source.ready_state() == ReadyState::Connecting,
        source.next_response == Some(FetchView::Unsent(source.request)),
        source.last_event_id.len() == 0,
        source.last_retry is None,
        source.delay is None,
        !source.cur_stream,
        !source.is_closed,
        source.request.headers == request.headers.insert(
            "accept"@,
            (if request.headers.contains_key("accept"@) {
                request.headers["accept"@]
            } else {
                Seq::empty()
            }).push(encode_utf8("text/event-stream"@)),
        ),
        forall|names: Seq<Seq<char>>| #[trigger]
            source.request.room.contains(names) <==> request.room.contains(
                seq!["accept"@] + names,
            ),
        source.request.target == request.target,
        source.request.client == request.client,
        source.request.extensions == request.extensions,
{
}

/// When a poll starts, a source does nothing but ask for what it waits for. One with a delay asks
/// for the delay, and sends nothing; one whose request is yet to be sent sends it; one whose
/// request is on its way asks for the response; and any other asks for an event. A closed one
/// reports the end.
pub proof fn law_start<P: RetryPolicy>(
    pre: SourceView,
    policy: P,
    post: SourceView,
    action: Action,
)
    requires
        pre.wf(),
        step(pre, policy, Progress::Start, post, action),
    ensures
        pre.is_closed ==> action == Action::Ready(None, Setup::Nothing),
        !pre.is_closed && pre.delay is Some ==> action == Action::PollDelay,
        !pre.is_closed && pre.next_response is Some ==> match pre.next_response->0 {
            FetchView::Unsent(_) => {
                &&& action matches Action::Send(sent) && request_view(sent) == pre.request
                &&& post.next_response == Some(FetchView::Sent)
            },
            FetchView::Sent => action == Action::PollResponse,
        },
        !pre.is_closed && pre.cur_stream ==> action == Action::PollStream,
        !(action is Send) ==> post.next_response == pre.next_response,
        post.request == pre.request,
        post.cur_stream == pre.cur_stream,
        post.delay == pre.delay,
        post.is_closed == pre.is_closed,
        post.last_event_id == pre.last_event_id,
        post.last_retry == pre.last_retry,
{
}

/// While what a source waits for is not there, it stays as it is, and there is nothing to report.
pub proof fn law_pending<P: RetryPolicy>(
    pre: SourceView,
    policy: P,
    progress: Progress,
    post: SourceView,
    action: Action,
)
    requires
        step(pre, policy, progress, post, action),
        progress is DelayPending || progress is ResponsePending || progress is StreamPending,
    ensures
        post == pre,
        action == Action::Pending,
{
}

/// A source that waits for a delay sends nothing and waits on, whatever it is told, until it is
/// told that the delay is over.
pub proof fn law_delay_is_waited_for<P: RetryPolicy>(
    pre: SourceView,
    policy: P,
    progress: Progress,
    post: SourceView,
    action: Action,
)
    requires
        pre.wf(),
        !pre.is_closed,
        pre.delay is Some,
        pre.awaits(progress),
        step(pre, policy, progress, post, action),
    ensures
        progress is Start ==> action == Action::PollDelay && post == pre,
        progress is DelayPending ==> action == Action::Pending && post == pre,
        progress is Start || progress is DelayPending || progress is DelayElapsed,
        action is Send ==> progress is DelayElapsed,
        post.delay != pre.delay ==> progress is DelayElapsed,
{
}

/// When a delay is over, the request goes out again. It has the last event id under
/// `last-event-id`, behind the values that the request of the source has there, and is otherwise
/// that request. An id that cannot stand in a header is reported, and closes the source.
pub proof fn law_delay_elapsed<P: RetryPolicy>(
    pre: SourceView,
    policy: P,
    post: SourceView,
    action: Action,
)
    requires
        pre.wf(),
        pre.awaits(Progress::DelayElapsed),
        step(pre, policy, Progress::DelayElapsed, post, action),
    ensures
        is_header_text(pre.last_event_id) ==> {
            &&& action matches Action::Send(sent) && request_view(sent).headers
                == pre.request.headers.insert(
                "last-event-id"@,
                (if pre.request.headers.contains_key("last-event-id"@) {
                    pre.request.headers["last-event-id"@]
                } else {
                    Seq::empty()
                }).push(encode_utf8(pre.last_event_id)),
            ) && request_view(sent).target == pre.request.target && request_view(sent).client
                == pre.request.client && request_view(sent).extensions == pre.request.extensions
            &&& post.next_response == Some(FetchView::Sent)
            &&& post.ready_state() == ReadyState::Connecting
        },
        !is_header_text(pre.last_event_id) ==> {
            &&& action matches Action::Ready(
                Some(Err(Error::InvalidLastEventId(id))),
                Setup::Nothing,
            ) && id@ == pre.last_event_id
            &&& post.ready_state() == ReadyState::Closed
        },
        post.delay is None,
        !post.cur_stream,
        post.request == pre.request,
        post.last_event_id == pre.last_event_id,
        post.last_retry == pre.last_retry,
{
}

/// A response opens the source exactly where its status is 200 and the media type parser finds
/// `text` and `event-stream` in its first `Content-Type`. The event stream then begins with the
/// last event id, which is kept, and the retries are over. Any other response closes the source and
/// is reported: with its status where that is another, and else with its `Content-Type`, which is
/// empty where there is none.
pub proof fn law_response<P: RetryPolicy>(
    pre: SourceView,
    policy: P,
    response: reqwest::Response,
    post: SourceView,
    action: Action,
)
    requires
        pre.wf(),
        pre.awaits(Progress::ResponseArrived(response)),
        step(pre, policy, Progress::ResponseArrived(response), post, action),
    ensures
        ({
            let headers = response_headers(response);
            let found = headers["content-type"@][0];
            if response_status(response) != 200 {
                &&& action matches Action::Ready(
                    Some(Err(Error::InvalidStatusCode(status, rejected))),
                    Setup::Nothing,
                ) && status == response_status(response) && rejected == response
                &&& post.ready_state() == ReadyState::Closed
            } else if headers.contains_key("content-type"@) && is_visible(found) && media_names(
                ascii_text(found),
            ) == Some(("text"@, "event-stream"@)) {
                &&& action matches Action::Ready(Some(Ok(Event::Open)), Setup::Stream(opened, id))
                    && opened == response && id@ == pre.last_event_id
                &&& post.ready_state() == ReadyState::Open
                &&& post.last_retry is None
            } else {
                &&& action matches Action::Ready(
                    Some(Err(Error::InvalidContentType(content_type, rejected))),
                    Setup::Nothing,
                ) && rejected == response && header_bytes(content_type) == (
                if headers.contains_key("content-type"@) {
                    found
                } else {
                    Seq::empty()
                })
                &&& post.ready_state() == ReadyState::Closed
            }
        }),
        post.last_event_id == pre.last_event_id,
        post.request == pre.request,
        post.next_response is None,
        post.delay is None,
{
}

/// The error that a failure comes to, each under its own name.
pub open spec fn comes_to(progress: Progress, error: Error) -> bool {
    match (progress, error) {
        (Progress::ResponseFailed(failed), Error::Transport(found)) => found == failed,
        (
            Progress::StreamFailed(EventStreamError::Transport(failed)),
            Error::Transport(found),
        ) => found == failed,
        (Progress::StreamFailed(EventStreamError::Utf8(failed)), Error::Utf8(found)) => found
            == failed,
        (Progress::StreamFailed(EventStreamError::Parser(failed)), Error::Parser(found)) => found
            == failed,
        (Progress::StreamEnded, Error::StreamEnded) => true,
        _ => false,
    }
}

/// On every failed request, failed event stream and end of one, the policy is asked, with the error
/// and the last retry, and the error is reported. Where the policy answers a delay, that delay is
/// set up and the source is connecting; where it answers none, the source is closed.
pub proof fn law_failure_asks_policy<P: RetryPolicy>(
    pre: SourceView,
    policy: P,
    progress: Progress,
    post: SourceView,
    action: Action,
)
    requires
        pre.wf(),
        pre.awaits(progress),
        step(pre, policy, progress, post, action),
        progress is ResponseFailed || progress is StreamFailed || progress is StreamEnded,
    ensures
        action matches Action::Ready(Some(Err(error)), setup) && comes_to(progress, error) && exists|
            answer: Option<Duration>,
        | #[trigger]
            call_ensures(P::retry, (&policy, &error, pre.last_retry), answer) && match answer {
                Some(delay) => {
                    &&& setup == Setup::Delay(delay)
                    &&& post.ready_state() == ReadyState::Connecting
                    &&& post.delay == Some(delay)
                    &&& post.last_retry == Some((1usize, delay))
                },
                None => {
                    &&& setup == Setup::Nothing
                    &&& post.ready_state() == ReadyState::Closed
                    &&& post.last_retry == pre.last_retry
                },
            },
        post.next_response is None,
        !post.cur_stream,
        post.request == pre.request,
        post.last_event_id == pre.last_event_id,
{
    let answer = match action {
        Action::Ready(_, Setup::Delay(delay)) => Some(delay),
        _ => None,
    };
    let error = match progress {
        Progress::ResponseFailed(error) => Error::Transport(error),
        Progress::StreamFailed(error) => stream_error(error),
        _ => Error::StreamEnded,
    };
    assert(call_ensures(P::retry, (&policy, &error, pre.last_retry), answer));
}

/// Every event that an open source gets is reported as it is, and the source stays open. Its id is
/// then the last event id, and nothing else changes.
pub proof fn law_event_is_reported<P: RetryPolicy>(
    pre: SourceView,
    policy: P,
    event: MessageEvent,
    post: SourceView,
    action: Action,
)
    requires
        pre.wf(),
        pre.awaits(Progress::StreamEvent(event)),
        step(pre, policy, Progress::StreamEvent(event), post, action),
    ensures
        action == Action::Ready(Some(Ok(Event::Message(event))), Setup::Nothing),
        pre.ready_state() == ReadyState::Open,
        post.ready_state() == ReadyState::Open,
        post.cur_stream,
        post.last_event_id == event.id@,
        post.request == pre.request,
        post.next_response == pre.next_response,
        post.delay == pre.delay,
        post.last_retry == pre.last_retry,
{
}

/// What a source waits for. A closed one waits for nothing but the start of a poll. An open one
/// waits for the delay, for the response or for an event, whatever it may be, and for one of the
/// three only.
pub proof fn law_awaits(source: SourceView, progress: Progress)
    requires
        source.wf(),
    ensures
        source.awaits(progress) <==> match progress {
            Progress::Start => true,
            Progress::DelayPending => !source.is_closed && source.delay is Some,
            Progress::DelayElapsed => !source.is_closed && source.delay is Some && (is_header_text(
                source.last_event_id,
            ) ==> source.request.room.contains(seq!["last-event-id"@])),
            Progress::ResponsePending
            | Progress::ResponseArrived(_)
            | Progress::ResponseFailed(_) => !source.is_closed && source.next_response == Some(
                FetchView::Sent,
            ),
            _ => source.ready_state() == ReadyState::Open,
        },
        source.awaits(progress) && !(progress is Start) ==> !source.is_closed,
        source.awaits(progress) && source.delay is Some ==> progress is Start || progress
            is DelayPending || progress is DelayElapsed,
        source.awaits(progress) && source.next_response is Some ==> progress is Start || progress
            is ResponsePending || progress is ResponseArrived || progress is ResponseFailed,
        source.awaits(progress) && source.cur_stream ==> progress is Start || progress
            is StreamPending || progress is StreamEvent || progress is StreamFailed || progress
            is StreamEnded,
{
}

/// A source can go on when a delay is over exactly where the last event id, if it can stand in a
/// header at all, has room among the headers of the request.
pub proof fn law_can_reconnect(source: SourceView)
    ensures
        source.has_room() <==> source.request.room.contains(seq!["last-event-id"@]),
        source.can_reconnect() <==> source.has_room() || !is_header_text(source.last_event_id),
{
}

} // verus!
