//! The decisions of the three boundary operations: login, command ingress
//! and the event stream. Reading requests and writing responses is left to
//! the caller; what is answered is decided here.

use crate::credential::CredentialVerifier;
use crate::message::{ClientCommand, WorkerMessage};
use crate::registry::Registry;
use crate::session::{hyphenated_text, is_random_version, SessionId};
use vstd::prelude::*;
use vstd::string::StringExecFns;

verus! {

/// Seconds of silence on a stream after which a keep-alive marker is sent.
pub const KEEP_ALIVE_SECONDS: u64 = 1;

/// The text of the keep-alive marker. It is a comment, not an event.
pub const KEEP_ALIVE_TEXT: &'static str = "keep-alive-text";

/// The path that a login is redirected to: after a success it carries the
/// new session's identity, after a failure only a flag that tells nothing
/// about which field was wrong.
pub open spec fn redirect_target(outcome: Option<SessionId>) -> Seq<char> {
    match outcome {
        Some(id) => "/?session_id="@ + hyphenated_text(id.0),
        None => "/?login_failed=1"@,
    }
}

/// The answer to a login.
#[derive(Clone, Debug, PartialEq, Eq)]
pub struct LoginResponse {
    /// The session that the login created, if it succeeded.
    pub session: Option<SessionId>,
    /// The path to redirect the client to.
    pub location: String,
}

/// The path that a login with this outcome is redirected to.
pub fn login_redirect(outcome: Option<SessionId>) -> (location: String)
    ensures
        location@ == redirect_target(outcome),
{
    match outcome {
        Some(id) => {
            let mut location = String::from_str("/?session_id=");
            let text = id.to_text();
            location.append(text.as_str());
            location
        },
        None => String::from_str("/?login_failed=1"),
    }
}

/// Handles a login: checks the credential with `verifier`, creates the
/// session if it is accepted, and says where to redirect the client.
///
/// A rejected credential creates no session and leads to the failure path.
pub fn handle_login<H, V: CredentialVerifier>(
    registry: &mut Registry<H>,
    verifier: &V,
    username: &str,
    password: &str,
) -> (response: LoginResponse)
    ensures
        response.session is Some <==> verifier.accepts(username@, password@),
        response.location@ == redirect_target(response.session),
        match response.session {
            Some(id) => is_random_version(id.0) && final(registry)@ == old(registry)@.enroll(
                id,
                username@,
            ),
            None => final(registry)@ == old(registry)@,
        },
{
    let session = registry.authenticate(verifier, username, password);
    LoginResponse { session, location: login_redirect(session) }
}

/// Handles a command that a client addressed to `session`: the entry to put
/// on the dispatcher's queue.
///
/// Nothing is checked here. Whether the session is authenticated or has a
/// live stream shows only when the dispatcher delivers.
pub fn handle_send(session: SessionId, command: ClientCommand) -> (message: WorkerMessage)
    ensures
        message == WorkerMessage::FromFrontend(session, command),
{
    WorkerMessage::FromFrontend(session, command)
}

} // verus!
