//! What holds of an event source over several calls.
use core::time::Duration;
use vstd::prelude::*;
use vstd::utf8::encode_utf8;

use crate::error::{Error, ReqwestError};
use crate::event::{Event, MessageEvent};
use crate::event_source::{
    fails, step, Action, FetchView, Progress, ReadyState, Setup, SourceView,
};
use crate::header::{ascii_text, header_bytes, is_header_text, is_visible, room_after};
use crate::media_type::{
    announces_event_stream, are_spaces, event_stream_with, is_parameter, is_token, lower_text,
    means_event_stream, media_names, parameter, spells_event_stream,
};
use crate::request::{
    bare, plain_client, plain_headers, plain_room, plain_target, plain_view, request_client,
    request_extensions, request_headers, request_room, request_target, request_view, RequestView,
};
use crate::response::{
    head, rejects, response_content_type, response_head, response_headers, response_status, Head,
};
use crate::retry::{answers, RetryPolicy};

verus! {

/// A new source is well formed and connecting, and is about to send its request, which goes
/// through the client and the middleware that it was given with, and with its extensions.
pub proof fn law_initial(request: RequestView)
    ensures
        SourceView::initial(request).wf(),
        SourceView::initial(request).ready_state() == ReadyState::Connecting,
        SourceView::initial(request).next_response == Some(
            FetchView::Unsent(SourceView::initial(request).request),
        ),
        SourceView::initial(request).request.target == request.target,
        SourceView::initial(request).request.client == request.client,
        SourceView::initial(request).request.extensions == request.extensions,
{
}

/// A request of a plain client makes the same source as that request makes where it goes through
/// the client with no middleware.
pub proof fn law_plain_client(
    plain: reqwest::RequestBuilder,
    builder: reqwest_middleware::RequestBuilder,
)
    requires
        request_headers(builder) == plain_headers(plain),
        request_room(builder) == plain_room(plain),
        request_target(builder) == plain_target(plain),
        request_client(builder) == bare(plain_client(plain)),
        request_extensions(builder) is None,
    ensures
        SourceView::initial(plain_view(plain)) == SourceView::initial(request_view(builder)),
{
}

/// Every step keeps the source well formed.
pub proof fn law_step_keeps_wf<P: RetryPolicy>(
    pre: SourceView,
    policy: P,
    progress: Progress,
    post: SourceView,
    action: Action,
)
    requires
        pre.wf(),
        pre.awaits(progress),
        step(pre, policy, progress, post, action),
    ensures
        post.wf(),
{
}

/// What a driver may come back with once it has done what an action says. After the end of a poll
/// that is the start of another.
pub open spec fn answers_to(action: Action, next: Progress) -> bool {
    match action {
        Action::PollDelay => next is DelayPending || next is DelayElapsed,
        Action::Send(_) | Action::PollResponse => next is ResponsePending || next is ResponseArrived
            || next is ResponseFailed,
        Action::PollStream => next is StreamPending || next is StreamEvent || next is StreamFailed
            || next is StreamEnded,
        Action::Pending | Action::Ready(_, _) => next is Start,
    }
}

/// What a driver comes back with is what the source waits for, whatever it may be, as long as the
/// driver does what it is told, and comes back from a delay only where the source can reconnect. In
/// particular there is an event stream whenever one is to be read.
pub proof fn law_driver_is_awaited<P: RetryPolicy>(
    pre: SourceView,
    policy: P,
    progress: Progress,
    post: SourceView,
    action: Action,
    next: Progress,
)
    requires
        pre.wf(),
        pre.awaits(progress),
        step(pre, policy, progress, post, action),
        answers_to(action, next),
        next is DelayElapsed ==> post.can_reconnect(),
    ensures
        post.awaits(next),
{
}

/// How many more times a driver may have to come back in a poll.
pub open spec fn steps_left(progress: Progress) -> nat {
    match progress {
        Progress::Start => 2,
        Progress::DelayPending | Progress::DelayElapsed => 1,
        _ => 0,
    }
}

/// A poll ends: a driver comes back at most twice after the start, for the delay and for the
/// response or the event.
pub proof fn law_poll_ends<P: RetryPolicy>(
    pre: SourceView,
    policy: P,
    progress: Progress,
    post: SourceView,
    action: Action,
    next: Progress,
)
    requires
        pre.wf(),
        pre.awaits(progress),
        step(pre, policy, progress, post, action),
        answers_to(action, next),
    ensures
        next is Start || steps_left(next) < steps_left(progress),
{
}

/// A closed source stays as it is, and reports the end of all events, whenever it is polled.
pub proof fn law_closed_is_final<P: RetryPolicy>(
    pre: SourceView,
    policy: P,
    progress: Progress,
    post: SourceView,
    action: Action,
)
    requires
        pre.is_closed,
        pre.awaits(progress),
        step(pre, policy, progress, post, action),
    ensures
        post == pre,
        action == Action::Ready(None, Setup::Nothing),
        post.ready_state() == ReadyState::Closed,
{
}

/// A source that is open does not report the end of all events.
pub proof fn law_open_source_goes_on<P: RetryPolicy>(
    pre: SourceView,
    policy: P,
    progress: Progress,
    post: SourceView,
    action: Action,
)
    requires
        !pre.is_closed,
        step(pre, policy, progress, post, action),
    ensures
        action matches Action::Ready(item, _) ==> item is Some,
{
}

/// The states of a well-formed source: it is open exactly while it reads an event stream, and
/// connecting exactly while it waits for a delay or for a response.
pub proof fn law_ready_state(source: SourceView)
    requires
        source.wf(),
    ensures
        source.ready_state() == ReadyState::Closed <==> source.is_closed,
        source.ready_state() == ReadyState::Open <==> !source.is_closed && source.cur_stream,
        source.ready_state() == ReadyState::Connecting <==> !source.is_closed
            && !source.cur_stream,
{
}

/// The request of a source never changes, and what is sent is that request, but for the header
/// with the last event id on a reconnection: always through the same client and middleware, and
/// with the same extensions.
pub proof fn law_request_is_kept<P: RetryPolicy>(
    pre: SourceView,
    policy: P,
    progress: Progress,
    post: SourceView,
    action: Action,
)
    requires
        pre.wf(),
        pre.awaits(progress),
        step(pre, policy, progress, post, action),
    ensures
        post.request == pre.request,
        action matches Action::Send(sent) ==> request_view(sent) == match progress {
            Progress::Start => pre.request,
            _ => pre.reconnection(),
        },
        action matches Action::Send(sent) ==> request_view(sent).target == pre.request.target,
        action matches Action::Send(sent) ==> request_view(sent).client == pre.request.client,
        action matches Action::Send(sent) ==> request_view(sent).extensions
            == pre.request.extensions,
{
}

/// Every request of a source accepts event streams, and a reconnection brings the last event id
/// along, behind any that the request of the source has of its own, and alone where it has none:
/// the ids of earlier reconnections do not gather. Its other headers are those of the first
/// request.
pub proof fn law_headers(request: RequestView, source: SourceView)
    requires
        source.request == SourceView::initial(request).request,
    ensures
        source.request.headers["accept"@].last() == encode_utf8("text/event-stream"@),
        source.reconnection().headers["accept"@].last() == encode_utf8("text/event-stream"@),
        source.reconnection().headers["last-event-id"@].last() == encode_utf8(
            source.last_event_id,
        ),
        !source.request.headers.contains_key("last-event-id"@) ==> source.reconnection().headers[
            "last-event-id"@] == seq![encode_utf8(source.last_event_id)],
        forall|name: Seq<char>|
            name != "last-event-id"@ ==> #[trigger] source.reconnection().headers.contains_key(name)
                == source.request.headers.contains_key(name)
                && source.reconnection().headers[name] == source.request.headers[name],
        forall|name: Seq<char>|
            name != "accept"@ ==> #[trigger] source.request.headers.contains_key(name)
                == request.headers.contains_key(name) && source.request.headers[name]
                == request.headers[name],
{
    reveal_strlit("accept");
    reveal_strlit("last-event-id");
    assert("accept"@.len() != "last-event-id"@.len());
}

/// The first request is the one that the source was given, with the header that accepts event
/// streams and no last event id added. Where it fails, the policy is asked with no last retry.
pub proof fn law_first_request<P: RetryPolicy>(
    request: RequestView,
    states: (SourceView, SourceView),
    policies: (P, P),
    actions: (Action, Action),
    error: ReqwestError,
)
    requires
        step(
            SourceView::initial(request),
            policies.0,
            Progress::Start,
            states.0,
            actions.0,
        ),
        step(states.0, policies.1, Progress::ResponseFailed(error), states.1, actions.1),
    ensures
        actions.0 matches Action::Send(sent) && request_view(sent) == request.with_header(
            "accept"@,
            encode_utf8("text/event-stream"@),
        ) && request_view(sent).headers.contains_key("last-event-id"@)
            == request.headers.contains_key("last-event-id"@) && request_view(
            sent,
        ).headers["last-event-id"@] == request.headers["last-event-id"@],
        states.0.awaits(Progress::ResponseFailed(error)),
        exists|answer: Option<Duration>| #[trigger]
            answers(policies.1, Error::Transport(error), None, answer) && states.1
                == states.0.retrying(answer),
{
    reveal_strlit("accept");
    reveal_strlit("last-event-id");
    assert("accept"@.len() != "last-event-id"@.len());
}

/// When a delay is over and the last event id can stand in a header, the request that goes out has
/// exactly that id where the request of the source has none of its own, whatever ids went out
/// before, and also where it is empty. Otherwise it is the request of the source, with room for one
/// header less.
pub proof fn law_reconnection_has_one_id<P: RetryPolicy>(
    pre: SourceView,
    policy: P,
    post: SourceView,
    action: Action,
)
    requires
        step(pre, policy, Progress::DelayElapsed, post, action),
        is_header_text(pre.last_event_id),
        !pre.request.headers.contains_key("last-event-id"@),
    ensures
        action matches Action::Send(sent) && request_view(sent) == (RequestView {
            headers: pre.request.headers.insert(
                "last-event-id"@,
                seq![encode_utf8(pre.last_event_id)],
            ),
            room: room_after(pre.request.room, "last-event-id"@),
            ..pre.request
        }),
{
    assert(Seq::<Seq<u8>>::empty().push(encode_utf8(pre.last_event_id)) =~= seq![
        encode_utf8(pre.last_event_id),
    ]);
}

/// To let go of the response and of the event stream changes nothing else, and to do so twice
/// changes nothing more.
pub proof fn law_cleared(source: SourceView)
    ensures
        source.cleared().next_response is None,
        !source.cleared().cur_stream,
        source.cleared().request == source.request,
        source.cleared().delay == source.delay,
        source.cleared().is_closed == source.is_closed,
        source.cleared().last_event_id == source.last_event_id,
        source.cleared().last_retry == source.last_retry,
        source.cleared().cleared() == source.cleared(),
{
}

/// The last event id is the id of the last event: an event sets it, and nothing else changes it.
pub proof fn law_last_event_id<P: RetryPolicy>(
    pre: SourceView,
    policy: P,
    progress: Progress,
    post: SourceView,
    action: Action,
)
    requires
        step(pre, policy, progress, post, action),
    ensures
        post.last_event_id == match progress {
            Progress::StreamEvent(event) => event.id@,
            _ => pre.last_event_id,
        },
{
}

/// After an event the source, should the event stream fail or end and the policy want a retry,
/// asks again with the id of that event once the delay is over. Where the id cannot stand in a
/// header it reports so, and closes.
pub proof fn law_reconnection_tells_last_event<P: RetryPolicy>(
    states: (SourceView, SourceView, SourceView, SourceView),
    policies: (P, P, P),
    event: MessageEvent,
    failure: Progress,
    actions: (Action, Action, Action),
    delay: Duration,
)
    requires
        states.0.wf(),
        states.0.awaits(Progress::StreamEvent(event)),
        step(states.0, policies.0, Progress::StreamEvent(event), states.1, actions.0),
        failure is StreamFailed || failure is StreamEnded,
        step(states.1, policies.1, failure, states.2, actions.1),
        actions.1 matches Action::Ready(_, Setup::Delay(found)) && found == delay,
        step(states.2, policies.2, Progress::DelayElapsed, states.3, actions.2),
    ensures
        actions.0 == Action::Ready(Some(Ok(Event::Message(event))), Setup::Nothing),
        states.2.delay == Some(delay),
        is_header_text(event.id@) ==> (actions.2 matches Action::Send(sent) && request_view(sent)
            == states.0.request.with_header("last-event-id"@, encode_utf8(event.id@))),
        !is_header_text(event.id@) ==> states.3.is_closed && (actions.2 matches Action::Ready(
            Some(Err(Error::InvalidLastEventId(id))),
            Setup::Nothing,
        ) && id@ == event.id@),
{
}

/// On an error the policy answers in view of the last retry, which has the number one where there
/// is one. A delay that it answers is waited for, and is then the last retry, again with the
/// number one.
pub proof fn law_policy_hears_last_retry<P: RetryPolicy>(
    pre: SourceView,
    policy: P,
    error: Error,
    post: SourceView,
    action: Action,
)
    requires
        pre.wf(),
        fails(pre, policy, error, post, action),
    ensures
        pre.last_retry matches Some(last_retry) ==> last_retry.0 == 1,
        exists|answer: Option<Duration>| #[trigger]
            answers(policy, error, pre.last_retry, answer) && match answer {
                Some(delay) => post.delay == Some(delay) && post.last_retry == Some((1usize, delay)),
                None => post.is_closed && post.last_retry == pre.last_retry,
            },
{
}

/// An error that a retry may mend is reported as it is, and leaves the source either waiting for
/// the delay that the policy named or closed, with no response and no event stream.
pub proof fn law_error_waits_or_closes<P: RetryPolicy>(
    pre: SourceView,
    policy: P,
    error: Error,
    post: SourceView,
    action: Action,
)
    requires
        !pre.is_closed,
        pre.delay is None,
        fails(pre, policy, error, post, action),
    ensures
        action matches Action::Ready(Some(Err(reported)), setup) && reported == error && match setup {
            Setup::Delay(delay) => post.delay == Some(delay) && post.ready_state()
                == ReadyState::Connecting,
            Setup::Nothing => post.ready_state() == ReadyState::Closed,
            Setup::Stream(_, _) => false,
        },
        post.next_response is None,
        !post.cur_stream,
{
}

/// A response that opens an event stream opens the source and ends the retries. The event stream
/// begins with the last event id.
pub proof fn law_event_stream_opens<P: RetryPolicy>(
    pre: SourceView,
    policy: P,
    response: reqwest::Response,
    post: SourceView,
    action: Action,
)
    requires
        pre.wf(),
        pre.awaits(Progress::ResponseArrived(response)),
        step(pre, policy, Progress::ResponseArrived(response), post, action),
        response_head(response) == Head::EventStream,
    ensures
        post.ready_state() == ReadyState::Open,
        post.last_retry is None,
        post.last_event_id == pre.last_event_id,
        action matches Action::Ready(item, Setup::Stream(opened, id)) && item == Some(
            Ok::<Event, Error>(Event::Open),
        ) && opened == response && id@ == pre.last_event_id,
{
}

/// Any other response closes the source, whatever its policy, and is reported.
pub proof fn law_other_response_closes<P: RetryPolicy>(
    pre: SourceView,
    policy: P,
    response: reqwest::Response,
    post: SourceView,
    action: Action,
)
    requires
        step(pre, policy, Progress::ResponseArrived(response), post, action),
        response_head(response) != Head::EventStream,
    ensures
        post.ready_state() == ReadyState::Closed,
        action matches Action::Ready(Some(Err(error)), Setup::Nothing) && rejects(error, response),
{
}

/// What a call reports, which brings an action where it is a poll.
pub open spec fn report(action: Option<Action>) -> Option<Result<Event, Error>> {
    match action {
        Some(Action::Ready(item, _)) => item,
        _ => None,
    }
}

/// What a call of a public function may turn a source into, and the action that it brings: the
/// source is closed or gets another policy, which brings none; or it makes a step.
pub open spec fn moves<P: RetryPolicy>(
    pre: SourceView,
    post: SourceView,
    action: Option<Action>,
) -> bool {
    match action {
        Some(action) => exists|policy: P, progress: Progress|
            pre.awaits(progress) && #[trigger] step(pre, policy, progress, post, action),
        None => post == (SourceView { is_closed: true, ..pre }) || post == pre,
    }
}

/// The states that a source goes through over any calls whatever, and the action of each call.
pub open spec fn is_history<P: RetryPolicy>(
    states: Seq<SourceView>,
    actions: Seq<Option<Action>>,
) -> bool {
    &&& states.len() == actions.len() + 1
    &&& forall|k: int|
        0 <= k < actions.len() ==> moves::<P>(states[k], states[k + 1], #[trigger] actions[k])
}

/// A history without its last call is one.
proof fn lemma_before<P: RetryPolicy>(states: Seq<SourceView>, actions: Seq<Option<Action>>)
    requires
        is_history::<P>(states, actions),
        0 < actions.len(),
    ensures
        is_history::<P>(states.drop_last(), actions.drop_last()),
        moves::<P>(states[actions.len() - 1], states.last(), actions.last()),
{
    assert forall|k: int| 0 <= k < actions.len() - 1 implies moves::<P>(
        states.drop_last()[k],
        states.drop_last()[k + 1],
        #[trigger] actions.drop_last()[k],
    ) by {
        assert(moves::<P>(states[k], states[k + 1], actions[k]));
    }
    let n = actions.len() - 1;
    assert(moves::<P>(states[n], states[n + 1], actions[n]));
}

/// A call keeps a source well formed, keeps its request, and does not open it again. It reports an
/// opening only where there is no event stream, and then there is one; an event only where there
/// is one, and it stays; and after an error there is none. Without a report the event stream stays
/// as it is.
pub proof fn law_call<P: RetryPolicy>(pre: SourceView, post: SourceView, action: Option<Action>)
    requires
        pre.wf(),
        moves::<P>(pre, post, action),
    ensures
        post.wf(),
        post.request == pre.request,
        pre.is_closed ==> post.is_closed && report(action) is None,
        match report(action) {
            Some(Ok(Event::Open)) => !pre.cur_stream && post.cur_stream,
            Some(Ok(Event::Message(_))) => pre.cur_stream && post.cur_stream,
            Some(Err(_)) => !post.cur_stream,
            None => post.cur_stream == pre.cur_stream,
        },
{
    if let Some(action) = action {
        let (policy, progress): (P, Progress) = choose|policy: P, progress: Progress|
            pre.awaits(progress) && #[trigger] step(pre, policy, progress, post, action);
        law_step_keeps_wf(pre, policy, progress, post, action);
    }
}

/// Over any calls whatever, a source stays well formed, keeps its request, and once closed stays
/// closed and reports nothing. Where the request has room for the last event id at first, it has
/// room whenever the source reconnects.
pub proof fn law_history<P: RetryPolicy>(
    states: Seq<SourceView>,
    actions: Seq<Option<Action>>,
    i: int,
    j: int,
)
    requires
        is_history::<P>(states, actions),
        states[0].wf(),
        0 <= i <= j < states.len(),
    ensures
        states[j].wf(),
        states[j].request == states[0].request,
        states[0].has_room() ==> states[j].can_reconnect(),
        states[i].is_closed ==> states[j].is_closed,
        states[i].is_closed && j < actions.len() ==> report(actions[j]) is None,
    decreases j,
{
    if 0 < j {
        law_history::<P>(states, actions, if i < j { i } else { j - 1 }, j - 1);
        assert(moves::<P>(states[j - 1], states[j - 1 + 1], actions[j - 1]));
        law_call::<P>(states[j - 1], states[j], actions[j - 1]);
    }
    if j < actions.len() {
        law_call::<P>(states[j], states[j + 1], actions[j]);
    }
}

/// What is reported over several calls, in order.
pub open spec fn items(actions: Seq<Option<Action>>) -> Seq<Result<Event, Error>>
    decreases actions.len(),
{
    if actions.len() == 0 {
        Seq::empty()
    } else {
        match report(actions.last()) {
            Some(item) => items(actions.drop_last()).push(item),
            None => items(actions.drop_last()),
        }
    }
}

/// Each opening comes first or directly after an error, and each event directly after an opening
/// or another event.
pub open spec fn are_in_order(items: Seq<Result<Event, Error>>) -> bool {
    forall|k: int|
        0 <= k < items.len() ==> match #[trigger] items[k] {
            Ok(Event::Open) => k == 0 || items[k - 1] is Err,
            Ok(Event::Message(_)) => 0 < k && items[k - 1] is Ok,
            Err(_) => true,
        }
}

/// A source reports one opening per connection, before the events of that connection, and no event
/// after an error until the next opening. It reads an event stream exactly while the last report
/// was an opening or an event.
pub proof fn law_reports_are_in_order<P: RetryPolicy>(
    states: Seq<SourceView>,
    actions: Seq<Option<Action>>,
)
    requires
        is_history::<P>(states, actions),
        states[0].wf(),
        !states[0].cur_stream,
    ensures
        are_in_order(items(actions)),
        states.last().cur_stream <==> 0 < items(actions).len() && items(actions).last() is Ok,
    decreases actions.len(),
{
    if 0 < actions.len() {
        let n = actions.len() - 1;
        let before = items(actions.drop_last());
        lemma_before::<P>(states, actions);
        law_reports_are_in_order::<P>(states.drop_last(), actions.drop_last());
        law_history::<P>(states, actions, 0, n);
        law_call::<P>(states[n], states.last(), actions.last());
        if let Some(item) = report(actions.last()) {
            assert(items(actions) =~= before.push(item));
            assert forall|k: int| 0 <= k < items(actions).len() implies match #[trigger] items(
                actions,
            )[k] {
                Ok(Event::Open) => k == 0 || items(actions)[k - 1] is Err,
                Ok(Event::Message(_)) => 0 < k && items(actions)[k - 1] is Ok,
                Err(_) => true,
            } by {
                if k < before.len() {
                    assert(items(actions)[k] == before[k]);
                }
            }
        }
    }
}

/// The last retry after several calls: the last delay that the driver was told to wait for, unless
/// an event stream was opened since, with the number one.
pub open spec fn last_retry(actions: Seq<Option<Action>>) -> Option<(usize, Duration)>
    decreases actions.len(),
{
    if actions.len() == 0 {
        None
    } else {
        match actions.last() {
            Some(Action::Ready(_, Setup::Delay(delay))) => Some((1usize, delay)),
            Some(Action::Ready(_, Setup::Stream(_, _))) => None,
            _ => last_retry(actions.drop_last()),
        }
    }
}

/// Over any calls whatever, a source knows the last retry since it was last connected. On an error
/// it tells the policy: nothing at first, then, as errors go on, each time the delay that was
/// answered the time before.
pub proof fn law_retries<P: RetryPolicy>(
    states: Seq<SourceView>,
    actions: Seq<Option<Action>>,
    policy: P,
    error: Error,
    post: SourceView,
    action: Action,
)
    requires
        is_history::<P>(states, actions),
        states[0].wf(),
        states[0].last_retry is None,
    ensures
        states.last().last_retry == last_retry(actions),
        fails(states.last(), policy, error, post, action) ==> exists|answer: Option<Duration>|
            #[trigger] answers(policy, error, last_retry(actions), answer) && match answer {
                Some(delay) => {
                    &&& action == Action::Ready(Some(Err(error)), Setup::Delay(delay))
                    &&& last_retry(actions.push(Some(action))) == Some((1usize, delay))
                },
                None => {
                    &&& action == Action::Ready(Some(Err(error)), Setup::Nothing)
                    &&& post.is_closed
                },
            },
    decreases actions.len(),
{
    if 0 < actions.len() {
        let n = actions.len() - 1;
        lemma_before::<P>(states, actions);
        law_retries::<P>(
            states.drop_last(),
            actions.drop_last(),
            policy,
            error,
            post,
            action,
        );
        law_history::<P>(states, actions, 0, n);
        assert(states.drop_last().last() == states[n]);
        if let Some(last) = actions.last() {
            let (policy, progress): (P, Progress) = choose|policy: P, progress: Progress|
                states[n].awaits(progress) && #[trigger] step(
                    states[n],
                    policy,
                    progress,
                    states.last(),
                    last,
                );
            assert(step(states[n], policy, progress, states.last(), last));
        }
    }
    assert(actions.push(Some(action)).drop_last() =~= actions);
}

/// The id of the last event that was reported over several calls, empty where there was none.
pub open spec fn last_reported_id(actions: Seq<Option<Action>>) -> Seq<char>
    decreases actions.len(),
{
    if actions.len() == 0 {
        Seq::empty()
    } else {
        match report(actions.last()) {
            Some(Ok(Event::Message(event))) => event.id@,
            _ => last_reported_id(actions.drop_last()),
        }
    }
}

/// Over any calls whatever, the last event id is the id of the last event that was reported.
pub proof fn law_last_reported_id<P: RetryPolicy>(
    states: Seq<SourceView>,
    actions: Seq<Option<Action>>,
    k: int,
)
    requires
        is_history::<P>(states, actions),
        states[0].last_event_id.len() == 0,
        0 <= k < states.len(),
    ensures
        states[k].last_event_id == last_reported_id(actions.take(k)),
    decreases k,
{
    if 0 < k {
        law_last_reported_id::<P>(states, actions, k - 1);
        assert(actions.take(k).drop_last() =~= actions.take(k - 1));
        assert(moves::<P>(states[k - 1], states[k - 1 + 1], actions[k - 1]));
    }
}

/// A connection goes on where the last one left off: each event stream that is opened begins with
/// the id of the last event that was reported, over all the connections before.
pub proof fn law_stream_resumes<P: RetryPolicy>(
    states: Seq<SourceView>,
    actions: Seq<Option<Action>>,
    k: int,
    response: reqwest::Response,
    id: String,
)
    requires
        is_history::<P>(states, actions),
        states[0].last_event_id.len() == 0,
        0 <= k < actions.len(),
        actions[k] matches Some(Action::Ready(_, Setup::Stream(opened, begun))) && opened
            == response && begun == id,
    ensures
        id@ == last_reported_id(actions.take(k)),
        report(actions[k]) matches Some(Ok(Event::Open)),
{
    law_last_reported_id::<P>(states, actions, k);
    assert(moves::<P>(states[k], states[k + 1], actions[k]));
}

/// Whether a call sends a request.
pub open spec fn sends(action: Option<Action>) -> bool {
    action matches Some(Action::Send(_))
}

/// The first request of a source is yet to be sent as long as no call has sent one, and never
/// again.
proof fn lemma_unsent<P: RetryPolicy>(
    states: Seq<SourceView>,
    actions: Seq<Option<Action>>,
    k: int,
)
    requires
        is_history::<P>(states, actions),
        states[0].wf(),
        states[0].next_response matches Some(FetchView::Unsent(_)),
        0 <= k < states.len(),
    ensures
        states[k].next_response matches Some(FetchView::Unsent(_)) <==> !exists|i: int|
            0 <= i < k && sends(#[trigger] actions[i]),
    decreases k,
{
    if 0 < k {
        lemma_unsent::<P>(states, actions, k - 1);
        law_history::<P>(states, actions, 0, k - 1);
        assert(moves::<P>(states[k - 1], states[k - 1 + 1], actions[k - 1]));
        assert(sends(actions[k - 1]) ==> !(states[k].next_response matches Some(
            FetchView::Unsent(_),
        )));
    }
}

/// What is sent over any calls whatever. The first request is that of the source. Every later one
/// brings along the id of the last event that was reported, empty where there was none, behind the
/// values that the request of the source has under that header, and is otherwise that request.
pub proof fn law_sends<P: RetryPolicy>(
    states: Seq<SourceView>,
    actions: Seq<Option<Action>>,
    k: int,
)
    requires
        is_history::<P>(states, actions),
        states[0].wf(),
        states[0].next_response matches Some(FetchView::Unsent(_)),
        states[0].last_event_id.len() == 0,
        0 <= k < actions.len(),
        sends(actions[k]),
    ensures
        actions[k] matches Some(Action::Send(sent)) && ({
            let (request, first) = (request_view(sent), states[0].request);
            if exists|i: int| 0 <= i < k && sends(#[trigger] actions[i]) {
                let id = last_reported_id(actions.take(k));
                let name = "last-event-id"@;
                &&& is_header_text(id)
                &&& request.headers.contains_key(name)
                &&& request.headers[name].last() == encode_utf8(id)
                &&& first.headers.contains_key(name) ==> request.headers[name].drop_last()
                    == first.headers[name]
                &&& !first.headers.contains_key(name) ==> request.headers[name].len() == 1
                &&& request.headers.remove(name) == first.headers.remove(name)
                &&& request.target == first.target
                &&& request.client == first.client
                &&& request.extensions == first.extensions
            } else {
                request == first
            }
        }),
{
    lemma_unsent::<P>(states, actions, k);
    law_history::<P>(states, actions, 0, k);
    law_last_reported_id::<P>(states, actions, k);
    assert(moves::<P>(states[k], states[k + 1], actions[k]));
    let name = "last-event-id"@;
    let first = states[0].request.headers;
    if let Some(Action::Send(sent)) = actions[k] {
        if exists|i: int| 0 <= i < k && sends(#[trigger] actions[i]) {
            let values = request_view(sent).headers[name];
            if first.contains_key(name) {
                assert(values.drop_last() =~= first[name]);
            }
            assert(request_view(sent).headers.remove(name) =~= first.remove(name));
        }
    }
}

/// What a call of a public function may turn a source into, what the driver comes back with where
/// it is a poll, and the action that it brings.
pub open spec fn polls<P: RetryPolicy>(
    pre: SourceView,
    post: SourceView,
    progress: Option<Progress>,
    action: Option<Action>,
) -> bool {
    match (progress, action) {
        (Some(progress), Some(action)) => pre.awaits(progress) && exists|policy: P| #[trigger]
            step(pre, policy, progress, post, action),
        (None, None) => post == (SourceView { is_closed: true, ..pre }) || post == pre,
        _ => false,
    }
}

/// The states that a source goes through over any calls whatever, what the driver comes back with,
/// and the action of each call.
pub open spec fn is_run<P: RetryPolicy>(
    states: Seq<SourceView>,
    progresses: Seq<Option<Progress>>,
    actions: Seq<Option<Action>>,
) -> bool {
    &&& states.len() == actions.len() + 1
    &&& progresses.len() == actions.len()
    &&& forall|k: int|
        0 <= k < actions.len() ==> polls::<P>(
            states[k],
            states[k + 1],
            progresses[k],
            #[trigger] actions[k],
        )
}

/// What holds of histories holds of runs.
pub proof fn law_run_is_history<P: RetryPolicy>(
    states: Seq<SourceView>,
    progresses: Seq<Option<Progress>>,
    actions: Seq<Option<Action>>,
)
    requires
        is_run::<P>(states, progresses, actions),
    ensures
        is_history::<P>(states, actions),
{
    assert forall|k: int| 0 <= k < actions.len() implies moves::<P>(
        states[k],
        states[k + 1],
        #[trigger] actions[k],
    ) by {
        assert(polls::<P>(states[k], states[k + 1], progresses[k], actions[k]));
    }
}

/// Whether a driver comes back from a delay that is over.
pub open spec fn elapses(progress: Option<Progress>) -> bool {
    progress matches Some(Progress::DelayElapsed)
}

/// A delay that was set up is there until it is over.
proof fn lemma_delay_stays<P: RetryPolicy>(
    states: Seq<SourceView>,
    progresses: Seq<Option<Progress>>,
    actions: Seq<Option<Action>>,
    i: int,
    j: int,
)
    requires
        is_run::<P>(states, progresses, actions),
        states[0].wf(),
        0 <= i < j < states.len(),
        actions[i] matches Some(Action::Ready(_, Setup::Delay(_))),
        forall|k: int| i < k < j ==> !elapses(#[trigger] progresses[k]),
    ensures
        states[j].delay is Some,
    decreases j,
{
    law_run_is_history::<P>(states, progresses, actions);
    law_history::<P>(states, actions, 0, j - 1);
    assert(polls::<P>(states[j - 1], states[j - 1 + 1], progresses[j - 1], actions[j - 1]));
    if i + 1 < j {
        lemma_delay_stays::<P>(states, progresses, actions, i, j - 1);
        assert(!elapses(progresses[j - 1]));
    }
}

/// A source that has set up a delay sends nothing until the driver comes back from it.
pub proof fn law_no_request_before_the_delay_is_over<P: RetryPolicy>(
    states: Seq<SourceView>,
    progresses: Seq<Option<Progress>>,
    actions: Seq<Option<Action>>,
    i: int,
    j: int,
)
    requires
        is_run::<P>(states, progresses, actions),
        states[0].wf(),
        0 <= i < j < actions.len(),
        actions[i] matches Some(Action::Ready(_, Setup::Delay(_))),
        sends(actions[j]),
    ensures
        exists|k: int| i < k <= j && elapses(#[trigger] progresses[k]),
{
    if forall|k: int| i < k < j ==> !elapses(#[trigger] progresses[k]) {
        lemma_delay_stays::<P>(states, progresses, actions, i, j);
        law_run_is_history::<P>(states, progresses, actions);
        law_history::<P>(states, actions, 0, j);
        assert(polls::<P>(states[j], states[j + 1], progresses[j], actions[j]));
        assert(elapses(progresses[j]));
    }
}

/// The events that a driver comes back with, in order.
pub open spec fn received(progresses: Seq<Option<Progress>>) -> Seq<MessageEvent>
    decreases progresses.len(),
{
    if progresses.len() == 0 {
        Seq::empty()
    } else {
        match progresses.last() {
            Some(Progress::StreamEvent(event)) => received(progresses.drop_last()).push(event),
            _ => received(progresses.drop_last()),
        }
    }
}

/// The events that are reported, in order.
pub open spec fn messages(items: Seq<Result<Event, Error>>) -> Seq<MessageEvent>
    decreases items.len(),
{
    if items.len() == 0 {
        Seq::empty()
    } else {
        match items.last() {
            Ok(Event::Message(event)) => messages(items.drop_last()).push(event),
            _ => messages(items.drop_last()),
        }
    }
}

/// Over any calls whatever, the events that come are the events that are reported: each of them,
/// once, as it is and in order.
pub proof fn law_events_are_reported<P: RetryPolicy>(
    states: Seq<SourceView>,
    progresses: Seq<Option<Progress>>,
    actions: Seq<Option<Action>>,
    k: int,
)
    requires
        is_run::<P>(states, progresses, actions),
        states[0].wf(),
        0 <= k <= actions.len(),
    ensures
        messages(items(actions.take(k))) == received(progresses.take(k)),
    decreases k,
{
    if 0 < k {
        law_events_are_reported::<P>(states, progresses, actions, k - 1);
        law_run_is_history::<P>(states, progresses, actions);
        law_history::<P>(states, actions, 0, k - 1);
        assert(actions.take(k).drop_last() =~= actions.take(k - 1));
        assert(progresses.take(k).drop_last() =~= progresses.take(k - 1));
        assert(polls::<P>(states[k - 1], states[k - 1 + 1], progresses[k - 1], actions[k - 1]));
        if let Some(item) = report(actions[k - 1]) {
            assert(items(actions.take(k)).drop_last() =~= items(actions.take(k - 1)));
        }
    }
}

/// A `Content-Type` announces an event stream exactly where it reads as text and the media type
/// parser finds `text` and `event-stream` in it, whatever else it may hold.
pub proof fn law_content_type(content_type: Seq<u8>)
    ensures
        announces_event_stream(content_type) <==> is_visible(content_type) && media_names(
            ascii_text(content_type),
        ) == Some(("text"@, "event-stream"@)),
{
}

/// Of two responses whose `Content-Type` reads as text with the same names in it, and which have
/// the same status, both open an event stream or neither does.
pub proof fn law_only_names_matter(
    a: reqwest::Response,
    b: reqwest::Response,
    content_types: (Seq<u8>, Seq<u8>),
)
    requires
        response_status(a) == response_status(b),
        response_content_type(a) == Some(content_types.0),
        response_content_type(b) == Some(content_types.1),
        is_visible(content_types.0),
        is_visible(content_types.1),
        media_names(ascii_text(content_types.0)) == media_names(ascii_text(content_types.1)),
    ensures
        response_head(a) == response_head(b),
        announces_event_stream(content_types.0) == announces_event_stream(content_types.1),
{
}

/// What a status and a `Content-Type` say: the status counts first, and only 200 will do; then
/// there has to be a `Content-Type`, with the names of an event stream.
pub proof fn law_head(status: u16, content_type: Option<Seq<u8>>)
    ensures
        head(status, content_type) == Head::WrongStatus <==> status != 200,
        head(status, content_type) == Head::EventStream <==> status == 200 && (content_type matches
            Some(found) && is_visible(found) && media_names(ascii_text(found)) == Some(
            ("text"@, "event-stream"@),
        )),
{
}

/// The `Content-Type` of a response is the first value under `content-type`.
pub proof fn law_first_content_type(response: reqwest::Response)
    ensures
        response_content_type(response) is Some <==> response_headers(response).contains_key(
            "content-type"@,
        ),
        response_content_type(response) matches Some(found) ==> found == response_headers(
            response,
        )["content-type"@][0],
        response_head(response) == head(
            response_status(response),
            response_content_type(response),
        ),
{
}

/// A response that opens no event stream is answered by one error: with its status, where that is
/// not 200, and else with its `Content-Type`, empty where there is none. The response comes back
/// with the error. One that opens an event stream is answered by none.
pub proof fn law_rejection(error: Error, response: reqwest::Response)
    requires
        rejects(error, response),
    ensures
        response_head(response) != Head::EventStream,
        response_status(response) != 200 ==> (error matches Error::InvalidStatusCode(
            status,
            rejected,
        ) && status == response_status(response) && rejected == response),
        response_status(response) == 200 ==> (error matches Error::InvalidContentType(
            value,
            rejected,
        ) && rejected == response && match response_content_type(response) {
            Some(found) => header_bytes(value) == found,
            None => header_bytes(value).len() == 0,
        }),
{
}

/// A `Content-Type` that reads `text/event-stream` in any case and nothing else is one that reads
/// so with no parameters.
pub proof fn law_no_parameters(content_type: Seq<u8>)
    requires
        is_visible(content_type),
        lower_text(ascii_text(content_type)) == "text/event-stream"@,
    ensures
        spells_event_stream(content_type),
        means_event_stream(content_type),
{
    let none = Seq::<Seq<char>>::empty();
    assert(event_stream_with(none) =~= "text/event-stream"@);
}

/// A `Content-Type` that reads `text/event-stream` in any case may have a parameter behind it, such
/// as `; charset=utf-8`.
pub proof fn law_one_parameter(
    content_type: Seq<u8>,
    spaces: Seq<char>,
    name: Seq<char>,
    value: Seq<char>,
)
    requires
        is_visible(content_type),
        are_spaces(spaces),
        is_token(name),
        is_token(value),
        lower_text(ascii_text(content_type)) == "text/event-stream"@ + seq![';'] + spaces + name
            + seq!['='] + value,
    ensures
        means_event_stream(content_type),
{
    let parameters = seq![parameter(spaces, name, value)];
    assert(parameters.drop_first().flatten() =~= Seq::<char>::empty());
    assert(parameters.flatten() =~= parameter(spaces, name, value));
    assert(event_stream_with(parameters) =~= "text/event-stream"@ + seq![';'] + spaces + name
        + seq!['='] + value);
}

/// Behind one parameter there may be more.
pub proof fn law_more_parameters(
    content_types: (Seq<u8>, Seq<u8>),
    spaces: Seq<char>,
    name: Seq<char>,
    value: Seq<char>,
)
    requires
        means_event_stream(content_types.0),
        is_visible(content_types.1),
        are_spaces(spaces),
        is_token(name),
        is_token(value),
        lower_text(ascii_text(content_types.1)) == lower_text(ascii_text(content_types.0))
            + seq![';'] + spaces + name + seq!['='] + value,
    ensures
        means_event_stream(content_types.1),
{
    let parameters: Seq<Seq<char>> = choose|parameters: Seq<Seq<char>>|
        lower_text(ascii_text(content_types.0)) == #[trigger] event_stream_with(parameters)
            && forall|i: int|
            0 <= i < parameters.len() ==> is_parameter(#[trigger] parameters[i]);
    let last = parameter(spaces, name, value);
    parameters.lemma_flatten_push(last);
    assert(event_stream_with(parameters.push(last)) =~= lower_text(
        ascii_text(content_types.1),
    ));
}

} // verus!
