//! The session registry: the single source of truth for who is authenticated
//! and who is currently listening.
//!
//! The registry is generic in the handle `H` that stands for the sending end
//! of a connection's bounded event queue. It never looks inside a handle: it
//! stores it, hands out references to it, and gives it back when the
//! connection is replaced or closed. A session has at most one connection at
//! any time, and only an authenticated session has one.
//!
//! Lookups and deliveries take the registry by shared reference and may run
//! side by side; logging in, opening and closing a stream take it by
//! exclusive reference. A delivery is decided under the shared reference and
//! performed by the caller, so nobody waits on a full queue while holding the
//! registry exclusively.

use crate::credential::{default_password, CredentialVerifier, SharedPassword};
use crate::message::{EventView, ServerEvent};
use crate::session::{is_random_version, SessionId};
use std::collections::HashMap;
use vstd::prelude::*;

verus! {

/// Where a session stands in its life cycle.
#[derive(Clone, Copy, Debug, PartialEq, Eq, Structural)]
pub enum SessionPhase {
    /// No login has produced this identity.
    Unauthenticated,
    /// Logged in, with no live stream.
    Authenticated,
    /// Logged in, with a live stream.
    StreamActive,
}

/// The registry as a mathematical value: the usernames of the authenticated
/// sessions and the handle of each live connection.
pub struct RegistryView<H> {
    pub sessions: Map<SessionId, Seq<char>>,
    pub connections: Map<SessionId, H>,
}

impl<H> RegistryView<H> {
    /// The registry in which nobody is authenticated.
    pub open spec fn empty() -> Self {
        RegistryView { sessions: Map::empty(), connections: Map::empty() }
    }

    /// Whether `id` belongs to an authenticated session.
    pub open spec fn is_authenticated(self, id: SessionId) -> bool {
        self.sessions.contains_key(id)
    }

    /// The handle of the live connection of `id`, if it has one.
    pub open spec fn connection(self, id: SessionId) -> Option<H> {
        if self.connections.contains_key(id) {
            Some(self.connections[id])
        } else {
            None
        }
    }

    /// Every live connection belongs to an authenticated session.
    pub open spec fn consistent(self) -> bool {
        forall|id: SessionId| self.connections.contains_key(id) ==> self.sessions.contains_key(id)
    }

    /// Where `id` stands in its life cycle.
    pub open spec fn phase(self, id: SessionId) -> SessionPhase {
        if !self.sessions.contains_key(id) {
            SessionPhase::Unauthenticated
        } else if self.connections.contains_key(id) {
            SessionPhase::StreamActive
        } else {
            SessionPhase::Authenticated
        }
    }

    /// Where `event`, addressed to `id`, goes: to the live connection of
    /// `id`, or nowhere if `id` has none.
    pub open spec fn deliver(self, id: SessionId, event: EventView) -> Option<DeliveryView<H>> {
        if self.connections.contains_key(id) {
            Some(DeliveryView { session: id, handle: self.connections[id], event })
        } else {
            None
        }
    }

    /// The registry after `id` has been recorded as the session of
    /// `username`. Connections are untouched.
    pub open spec fn enroll(self, id: SessionId, username: Seq<char>) -> Self {
        RegistryView { sessions: self.sessions.insert(id, username), connections: self.connections }
    }

    /// The registry after a stream was opened for `id` with `handle`: an
    /// authenticated session gets `handle` as its one connection, in place of
    /// any earlier one; for any other identity nothing changes.
    pub open spec fn open(self, id: SessionId, handle: H) -> Self {
        if self.sessions.contains_key(id) {
            RegistryView { sessions: self.sessions, connections: self.connections.insert(id, handle) }
        } else {
            self
        }
    }

    /// The answer to a request to open a stream for `id` with `handle`: an
    /// authenticated session is told which handle it replaced, any other
    /// identity gets its handle back with the session-expired notice.
    pub open spec fn opening(self, id: SessionId, handle: H) -> StreamOpening<H> {
        if self.sessions.contains_key(id) {
            StreamOpening::Registered { superseded: self.connection(id) }
        } else {
            StreamOpening::Unauthenticated { handle, notice: ServerEvent::SessionExpired }
        }
    }

    /// The registry after the connection of `id` went away. The session
    /// itself stays authenticated.
    pub open spec fn close(self, id: SessionId) -> Self {
        RegistryView { sessions: self.sessions, connections: self.connections.remove(id) }
    }
}

/// What became of a request to open a stream.
#[derive(Debug, PartialEq, Eq)]
pub enum StreamOpening<H> {
    /// The session is authenticated and the new handle is now its connection.
    /// `superseded` is the handle of the connection that it replaced, if
    /// there was one; events no longer reach it.
    Registered { superseded: Option<H> },
    /// The session is not authenticated. The handle comes back together with
    /// the one `notice` that is owed to the client before its stream ends.
    Unauthenticated { handle: H, notice: ServerEvent },
}

impl<H> StreamOpening<H> {
    /// The events that the stream endpoint itself owes the client at the
    /// opening, before any command is handled.
    pub open spec fn notices(self) -> Seq<EventView> {
        match self {
            StreamOpening::Registered { .. } => Seq::empty(),
            StreamOpening::Unauthenticated { notice, .. } => seq![notice@],
        }
    }
}

/// An event on its way to a connection.
#[derive(Debug, PartialEq, Eq)]
pub struct Delivery<'a, H> {
    /// The session that the event is addressed to.
    pub session: SessionId,
    /// The connection that receives it.
    pub handle: &'a H,
    /// The event itself.
    pub event: ServerEvent,
}

/// A delivery as a mathematical value.
pub struct DeliveryView<H> {
    pub session: SessionId,
    pub handle: H,
    pub event: EventView,
}

impl<'a, H> View for Delivery<'a, H> {
    type V = DeliveryView<H>;

    open spec fn view(&self) -> DeliveryView<H> {
        DeliveryView { session: self.session, handle: *self.handle, event: self.event@ }
    }
}

/// An authenticated session together with its connection, if any.
struct Entry<H> {
    username: String,
    connection: Option<H>,
}

/// The registry of sessions and their live connections.
pub struct Registry<H> {
    entries: HashMap<u128, Entry<H>>,
}

impl<H> View for Registry<H> {
    type V = RegistryView<H>;

    closed spec fn view(&self) -> RegistryView<H> {
        RegistryView {
            sessions: Map::new(
                |id: SessionId| self.entries@.contains_key(id.0),
                |id: SessionId| self.entries@[id.0].username@,
            ),
            connections: Map::new(
                |id: SessionId|
                    self.entries@.contains_key(id.0) && self.entries@[id.0].connection is Some,
                |id: SessionId| self.entries@[id.0].connection->0,
            ),
        }
    }
}

impl<H> Registry<H> {
    /// A registry in which nobody is authenticated.
    pub fn new() -> (registry: Self)
        ensures
            registry@ == RegistryView::<H>::empty(),
    {
        let registry = Registry { entries: HashMap::new() };
        assert(registry@.sessions =~= Map::empty());
        assert(registry@.connections =~= Map::empty());
        registry
    }

    /// In every registry, each live connection belongs to an authenticated
    /// session.
    pub proof fn lemma_view_is_consistent(&self)
        ensures
            self@.consistent(),
    {
    }

    /// Records `id` as the session of `username`, whatever `id` is: this is
    /// the step of a login that follows the check of the credential and the
    /// minting of the identity. An identity that is already present keeps its
    /// connection and takes the new username.
    pub fn enroll(&mut self, id: SessionId, username: &str)
        ensures
            final(self)@ == old(self)@.enroll(id, username@),
    {
        let connection = match self.entries.remove(&id.0) {
            Some(entry) => {
                let Entry { username: _, connection } = entry;
                connection
            },
            None => None,
        };
        self.entries.insert(id.0, Entry { username: username.to_owned(), connection });
        assert(self@.sessions =~= old(self)@.sessions.insert(id, username@));
        assert(self@.connections =~= old(self)@.connections);
    }

    /// Checks a credential with `verifier` and, if it is accepted, mints a
    /// new identity and records the session under it.
    ///
    /// A rejected credential changes nothing. Which identity is minted is
    /// left to the random source; whichever it is, the registry afterwards is
    /// the old one with that session enrolled. That the identity was not in
    /// use before rests on the 128 random bits alone.
    pub fn authenticate<V: CredentialVerifier>(
        &mut self,
        verifier: &V,
        username: &str,
        credential: &str,
    ) -> (outcome: Option<SessionId>)
        ensures
            outcome is Some <==> verifier.accepts(username@, credential@),
            match outcome {
                Some(id) => is_random_version(id.0) && final(self)@ == old(self)@.enroll(
                    id,
                    username@,
                ),
                None => final(self)@ == old(self)@,
            },
    {
        if verifier.verify(username, credential) {
            let id = SessionId::generate();
            self.enroll(id, username);
            Some(id)
        } else {
            None
        }
    }

    /// Logs in with the verifier of the default build: the password `pw` is
    /// accepted for every username, and nothing else is.
    pub fn try_login(&mut self, username: &str, password: &str) -> (outcome: Option<SessionId>)
        ensures
            outcome is Some <==> password@ == default_password(),
            match outcome {
                Some(id) => is_random_version(id.0) && final(self)@ == old(self)@.enroll(
                    id,
                    username@,
                ),
                None => final(self)@ == old(self)@,
            },
    {
        let verifier = SharedPassword::stub();
        self.authenticate(&verifier, username, password)
    }

    /// Opens a stream for `id` with `handle` as the sending end of its queue.
    ///
    /// For an authenticated session, `handle` becomes its connection and the
    /// handle it replaces, if any, is handed back. For any other identity the
    /// registry stays as it is, and `handle` comes back with the
    /// session-expired notice that the caller owes the client.
    pub fn register_stream(&mut self, id: SessionId, handle: H) -> (opening: StreamOpening<H>)
        ensures
            final(self)@ == old(self)@.open(id, handle),
            opening == old(self)@.opening(id, handle),
    {
        match self.entries.remove(&id.0) {
            Some(entry) => {
                let Entry { username, connection } = entry;
                self.entries.insert(id.0, Entry { username, connection: Some(handle) });
                assert(self@.sessions =~= old(self)@.sessions);
                assert(self@.connections =~= old(self)@.connections.insert(id, handle));
                StreamOpening::Registered { superseded: connection }
            },
            None => {
                assert(self@.sessions =~= old(self)@.sessions);
                assert(self@.connections =~= old(self)@.connections);
                StreamOpening::Unauthenticated { handle, notice: ServerEvent::SessionExpired }
            },
        }
    }

    /// Forgets the connection of `id`, because its stream ended, and hands
    /// its handle back. The session stays authenticated.
    pub fn close_stream(&mut self, id: SessionId) -> (closed: Option<H>)
        ensures
            final(self)@ == old(self)@.close(id),
            closed == old(self)@.connection(id),
    {
        match self.entries.remove(&id.0) {
            Some(entry) => {
                let Entry { username, connection } = entry;
                self.entries.insert(id.0, Entry { username, connection: None });
                assert(self@.sessions =~= old(self)@.sessions);
                assert(self@.connections =~= old(self)@.connections.remove(id));
                connection
            },
            None => {
                assert(self@.sessions =~= old(self)@.sessions);
                assert(self@.connections =~= old(self)@.connections.remove(id));
                None
            },
        }
    }

    /// The handle of the live connection of `id`, if it has one.
    pub fn connection(&self, id: SessionId) -> (handle: Option<&H>)
        ensures
            match handle {
                Some(h) => self@.connection(id) == Some(*h),
                None => self@.connection(id) is None,
            },
    {
        match self.entries.get(&id.0) {
            Some(entry) => match &entry.connection {
                Some(handle) => Some(handle),
                None => None,
            },
            None => None,
        }
    }

    /// Addresses `event` to `id`: if the session has a live connection, the
    /// event is on its way to it; otherwise the event is dropped, which is no
    /// error.
    pub fn deliver(&self, id: SessionId, event: ServerEvent) -> (delivery: Option<Delivery<'_, H>>)
        ensures
            match delivery {
                Some(d) => self@.deliver(id, event@) == Some(d@),
                None => self@.deliver(id, event@) is None,
            },
    {
        match self.connection(id) {
            Some(handle) => Some(Delivery { session: id, handle, event }),
            None => None,
        }
    }

    /// Whether `id` belongs to an authenticated session.
    pub fn is_authenticated(&self, id: SessionId) -> (known: bool)
        ensures
            known == self@.is_authenticated(id),
    {
        self.entries.contains_key(&id.0)
    }

    /// Where `id` stands in its life cycle.
    pub fn phase(&self, id: SessionId) -> (phase: SessionPhase)
        ensures
            phase == self@.phase(id),
    {
        match self.entries.get(&id.0) {
            None => SessionPhase::Unauthenticated,
            Some(entry) => match &entry.connection {
                Some(_) => SessionPhase::StreamActive,
                None => SessionPhase::Authenticated,
            },
        }
    }

    /// The username that `id` logged in with, if it is authenticated.
    pub fn username(&self, id: SessionId) -> (name: Option<&str>)
        ensures
            match name {
                Some(text) => self@.is_authenticated(id) && text@ == self@.sessions[id],
                None => !self@.is_authenticated(id),
            },
    {
        match self.entries.get(&id.0) {
            Some(entry) => Some(entry.username.as_str()),
            None => None,
        }
    }
}

} // verus!
