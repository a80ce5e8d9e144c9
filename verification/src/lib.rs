//! A session-addressed event router.
//!
//! A client logs in and gets a session identity, opens an event stream that
//! is bound to that session, and sends commands out of band; the router
//! delivers the events that a command causes to the live stream of the
//! session concerned, in the order in which the commands arrived.
//!
//! The crate decides and does not perform input or output. Its functions map
//! the state of the registry and a request to the next state and to what is
//! to be sent, and the program around it moves the bytes:
//!
//! * [`registry::Registry`] records the authenticated sessions and the handle
//!   of each live connection.
//! * [`dispatcher::dispatch`] turns a queued command into deliveries.
//! * [`endpoint`] holds the answers of the login, command and stream
//!   endpoints.
//! * [`credential`] is the replaceable check of a credential.
//! * [`laws`] states and proves what holds of all of this together.

pub mod credential;
pub mod dispatcher;
pub mod endpoint;
pub mod laws;
pub mod message;
pub mod registry;
pub mod session;
