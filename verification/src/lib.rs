//! A source of server-sent events on top of `reqwest`, which reconnects when a request fails.
//!
//! The library takes the decisions: which request goes out, which response is taken, what is
//! reported, when to try again. [`event_source`] holds them as a state machine, [`step_laws`] what
//! holds of each of its steps, [`laws`] what holds over several calls, and [`sessions`] what comes
//! of some calls in a row. It sends, waits and receives nothing itself: a driver does.
pub mod error;
pub mod event;
pub mod event_source;
pub mod header;
pub mod laws;
pub mod media_type;
pub mod request;
pub mod response;
pub mod retry;
pub mod sessions;
pub mod step_laws;

pub use crate::error::{CannotCloneRequestError, Error, EventStreamError, ReqwestError};
pub use crate::event::{Event, MessageEvent};
pub use crate::event_source::{Action, EventSource, Progress, ReadyState, Setup};
pub use crate::retry::RetryPolicy;
