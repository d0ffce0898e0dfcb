//! The listener's decisions: what the program does after it tried to bind the
//! listening socket, and after each attempt to accept a connection.

use vstd::prelude::*;

verus! {

/// What happened on the listening socket.
#[derive(Clone, Copy, Debug, PartialEq, Eq, Structural)]
pub enum ListenerEvent {
    /// The listening socket is bound.
    Bound,
    /// The listening socket could not be bound.
    BindFailed,
    /// A connection was accepted.
    Accepted,
    /// An attempt to accept a connection failed.
    AcceptFailed,
}

/// What the program has to do next.
#[derive(Clone, Copy, Debug, PartialEq, Eq, Structural)]
pub enum ListenerAction {
    /// Give up: without the listening socket there is nothing to run.
    Abort,
    /// Wait for the next connection.
    Accept,
    /// Start an independent session for the accepted connection, then wait for the
    /// next connection.
    SpawnSession,
}

/// The listener's policy: only a failed bind ends the process, every accepted
/// connection gets a session, and a failed accept is passed over.
pub open spec fn listener_action(event: ListenerEvent) -> ListenerAction {
    match event {
        ListenerEvent::Bound => ListenerAction::Accept,
        ListenerEvent::BindFailed => ListenerAction::Abort,
        ListenerEvent::Accepted => ListenerAction::SpawnSession,
        ListenerEvent::AcceptFailed => ListenerAction::Accept,
    }
}

/// Says what the program has to do after an event on the listening socket.
pub fn on_listener_event(event: ListenerEvent) -> (action: ListenerAction)
    ensures
        action == listener_action(event),
{
    match event {
        ListenerEvent::Bound => ListenerAction::Accept,
        ListenerEvent::BindFailed => ListenerAction::Abort,
        ListenerEvent::Accepted => ListenerAction::SpawnSession,
        ListenerEvent::AcceptFailed => ListenerAction::Accept,
    }
}

/// Once the socket is bound the listener never gives up: no accepted or failed
/// connection ends the process.
pub proof fn law_accept_loop_goes_on(event: ListenerEvent)
    requires
        !(event is BindFailed),
    ensures
        !(listener_action(event) is Abort),
{
}

} // verus!
