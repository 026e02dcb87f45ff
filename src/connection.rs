//! The decisions of one client connection: what to do with each inbound
//! message and with the outcome of each hand-off to the queue.
use vstd::prelude::*;
use crate::types::{AppCommand, Command};

verus! {

/// What happened on a connection.
#[derive(Clone, Debug)]
pub enum ConnectionEvent {
    /// A text message that decodes as a command.
    Decoded(AppCommand),
    /// A text message that is not a well-formed command.
    Malformed,
    /// A message that carries no text (binary, ping, pong).
    NonText,
    /// The connection was closed by either side, or failed.
    Closed,
    /// The last command was accepted by the queue.
    Enqueued,
    /// The queue no longer takes commands: the worker has shut down.
    QueueClosed,
}

/// What the connection is to do next.
#[derive(Clone, Copy, Debug, PartialEq, Eq, Structural)]
pub enum ConnectionAction {
    /// Hand the command to the queue, waiting while it is full.
    Enqueue(Command),
    /// Report a decode error, drop the message, and receive the next one.
    ReportDecodeError,
    /// Receive the next message.
    Receive,
    /// End this connection; other connections and the worker go on.
    Close,
}

/// The decision that a connection makes on each event.
pub open spec fn spec_on_event(ev: ConnectionEvent) -> ConnectionAction {
    match ev {
        ConnectionEvent::Decoded(c) => ConnectionAction::Enqueue(c.spec_resolve()),
        ConnectionEvent::Malformed => ConnectionAction::ReportDecodeError,
        ConnectionEvent::NonText => ConnectionAction::Receive,
        ConnectionEvent::Closed => ConnectionAction::Close,
        ConnectionEvent::Enqueued => ConnectionAction::Receive,
        ConnectionEvent::QueueClosed => ConnectionAction::Close,
    }
}

/// Decides what a connection does on an event: a decoded command goes to
/// the queue with its axis resolved; a malformed message is reported and
/// dropped while the connection stays open; a closed connection or a closed
/// queue ends the connection.
pub fn on_event(ev: &ConnectionEvent) -> (a: ConnectionAction)
    ensures
        a == spec_on_event(*ev),
{
    match ev {
        ConnectionEvent::Decoded(c) => ConnectionAction::Enqueue(c.resolve()),
        ConnectionEvent::Malformed => ConnectionAction::ReportDecodeError,
        ConnectionEvent::NonText => ConnectionAction::Receive,
        ConnectionEvent::Closed => ConnectionAction::Close,
        ConnectionEvent::Enqueued => ConnectionAction::Receive,
        ConnectionEvent::QueueClosed => ConnectionAction::Close,
    }
}

/// A malformed message never reaches the device state: it yields no command,
/// the connection stays open, and the error is reported.
pub proof fn lemma_malformed_reaches_nothing()
    ensures
        spec_on_event(ConnectionEvent::Malformed) == ConnectionAction::ReportDecodeError,
        forall|c: Command| spec_on_event(ConnectionEvent::Malformed) != ConnectionAction::Enqueue(c),
        spec_on_event(ConnectionEvent::Malformed) != ConnectionAction::Close,
{
}

} // verus!
