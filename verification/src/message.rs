//! The wire vocabulary between a client and the router: the commands a client
//! may send and the events the router may push back.

use crate::session::SessionId;
use vstd::prelude::*;

verus! {

/// A command issued by a client. The set is closed: every command is matched
/// exhaustively wherever one is handled.
#[derive(Clone, Copy, Debug, PartialEq, Eq, Hash, Structural)]
pub enum ClientCommand {
    /// The client announces itself; it carries no payload.
    Connect,
}

/// An event pushed to a client over its stream.
#[derive(Clone, Debug, PartialEq, Eq)]
pub enum ServerEvent {
    /// A greeting with its text.
    Welcome(String),
    /// The addressed session is not (or no longer) known.
    SessionExpired,
}

/// What an event is, with its text as a sequence of characters.
pub enum EventView {
    Welcome(Seq<char>),
    SessionExpired,
}

impl View for ServerEvent {
    type V = EventView;

    open spec fn view(&self) -> EventView {
        match self {
            ServerEvent::Welcome(text) => EventView::Welcome(text@),
            ServerEvent::SessionExpired => EventView::SessionExpired,
        }
    }
}

/// An entry of the dispatcher's queue.
#[derive(Clone, Copy, Debug, PartialEq, Eq, Hash, Structural)]
pub enum WorkerMessage {
    /// A command that a client addressed to a session.
    FromFrontend(SessionId, ClientCommand),
}

/// The text of the greeting that answers `Connect`.
pub open spec fn welcome_text() -> Seq<char> {
    "Hello from Rust"@
}

impl ServerEvent {
    /// The greeting that answers `Connect`.
    pub fn welcome() -> (event: ServerEvent)
        ensures
            event@ == EventView::Welcome(welcome_text()),
    {
        ServerEvent::Welcome("Hello from Rust".to_owned())
    }
}

} // verus!
