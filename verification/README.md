# reqwest-eventsource

A source of server-sent events on top of `reqwest`. It asks for an event stream, reports the events
that come, and asks again, with the id of the last event, when a request or a stream fails.

The library under `src/` takes the decisions and is verified with Verus. The crate under `app/`
sends, waits and receives as the library says, and offers the events as a stream.

- `event_source`: the state machine. `EventSource::poll_next` takes what came of the last action
  and says what to do next.
- `laws`: what holds of the state machine over several calls.
- `response`, `media_type`: which responses open an event stream.
- `request`, `header`: the requests that go out.
- `error`, `event`, `retry`: what is reported, and who decides on retries.

What is taken on trust of `reqwest`, `reqwest-middleware`, `http` and `mime` stands next to the
calls, in `header`, `request`, `response`, `media_type` and `error`.
