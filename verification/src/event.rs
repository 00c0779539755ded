//! What an event source reports.
use core::time::Duration;
use vstd::prelude::*;

verus! {

/// An event that the server sent.
#[derive(Debug, Clone, PartialEq, Eq, Default)]
pub struct MessageEvent {
    /// The name of the event.
    pub event: String,
    /// The data of the event.
    pub data: String,
    /// The id of the event.
    pub id: String,
    /// The reconnection time that the server asks for.
    pub retry: Option<Duration>,
}

/// What an event source reports while all is well.
#[derive(Debug, Clone, PartialEq, Eq)]
pub enum Event {
    /// The connection is open.
    Open,
    /// The server sent an event.
    Message(MessageEvent),
}

impl From<MessageEvent> for Event {
    fn from(event: MessageEvent) -> (r: Self) {
        Event::Message(event)
    }
}

impl vstd::std_specs::convert::FromSpecImpl<MessageEvent> for Event {
    open spec fn obeys_from_spec() -> bool {
        true
    }

    open spec fn from_spec(event: MessageEvent) -> Event {
        Event::Message(event)
    }
}

} // verus!
