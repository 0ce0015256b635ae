//! The event stream: what the driver does with each thing that a conversation yields.

use crate::event::{server_events, ServerEvent, ServerEventView};
use crate::protocol::{EventMsg, EventMsgView};
use crate::translate::{dispatch_translated, emit_fatal, translated};
use vstd::prelude::*;

verus! {

/// A message of the agent together with the submission it belongs to.
#[derive(Debug, PartialEq, Eq)]
pub struct AgentEvent {
    /// Submission identifier.
    pub id: String,
    /// The message.
    pub msg: EventMsg,
}

/// Model of [`AgentEvent`].
pub struct AgentEventView {
    pub id: Seq<char>,
    pub msg: EventMsgView,
}

impl View for AgentEvent {
    type V = AgentEventView;

    open spec fn view(&self) -> AgentEventView {
        AgentEventView { id: self.id@, msg: self.msg@ }
    }
}

/// The view of what a conversation yields: an event, or the error that ends it.
pub open spec fn yielded(next: Result<AgentEvent, String>) -> Result<AgentEventView, Seq<char>> {
    match next {
        Ok(event) => Ok(event@),
        Err(message) => Err(message@),
    }
}

/// What to do after a conversation has yielded something.
#[derive(Debug, PartialEq, Eq)]
pub struct StreamStep {
    /// Events for the client, in order.
    pub events: Vec<ServerEvent>,
    /// Whether the shutdown flag is to be raised once the events are sent.
    pub raise_shutdown: bool,
    /// Whether the stream is over.
    pub done: bool,
}

/// The events at the end of a stream: the error, unless the session is closing anyway, and the
/// end of the session.
pub open spec fn stream_end(message: Seq<char>, shutting_down: bool) -> Seq<ServerEventView> {
    let error = if shutting_down {
        Seq::empty()
    } else {
        seq![ServerEventView::Fatal { message }]
    };
    error.push(ServerEventView::SessionEnded)
}

/// The events for the client after a conversation has yielded something.
pub open spec fn stream_events(
    next: Result<AgentEventView, Seq<char>>,
    shutting_down: bool,
) -> Seq<ServerEventView> {
    match next {
        Ok(event) => translated(event.msg, Some(event.id)),
        Err(message) => stream_end(message, shutting_down),
    }
}

/// Decides what to do with what a conversation has yielded. `shutting_down` is the state of the
/// shutdown flag at that moment.
pub fn run_event_stream(next: Result<AgentEvent, String>, shutting_down: bool) -> (r: StreamStep)
    ensures
        server_events(r.events@) == stream_events(yielded(next), shutting_down),
        r.raise_shutdown == (next is Err),
        r.done == (next is Err),
{
    let mut events: Vec<ServerEvent> = Vec::new();
    assert(server_events(events@) =~= Seq::<ServerEventView>::empty());
    match next {
        Ok(event) => {
            dispatch_translated(&mut events, event.msg, Some(event.id.as_str()));
            assert(server_events(events@) =~= translated(event.msg@, Some(event.id@)));
            StreamStep { events, raise_shutdown: false, done: false }
        },
        Err(message) => {
            if !shutting_down {
                emit_fatal(&mut events, message);
            }
            let ghost before = events@;
            events.push(ServerEvent::SessionEnded);
            assert(server_events(events@) =~= server_events(before).push(
                ServerEventView::SessionEnded,
            ));
            assert(server_events(events@) =~= stream_end(message@, shutting_down));
            StreamStep { events, raise_shutdown: true, done: true }
        },
    }
}

} // verus!
