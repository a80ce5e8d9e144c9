//! Credential checking, kept apart from the registry so that another scheme
//! can be put in its place.

use vstd::prelude::*;

verus! {

/// Decides whether a credential is valid for a username.
pub trait CredentialVerifier {
    /// The credentials that this verifier accepts.
    spec fn accepts(&self, username: Seq<char>, credential: Seq<char>) -> bool;

    /// Checks one submission.
    fn verify(&self, username: &str, credential: &str) -> (accepted: bool)
        ensures
            accepted == self.accepts(username@, credential@),
    ;
}

/// A verifier that knows a single password and accepts it for every
/// username. It is a stand-in for a real scheme and intentionally weak.
pub struct SharedPassword {
    password: String,
}

/// The password of the default build.
pub open spec fn default_password() -> Seq<char> {
    "pw"@
}

impl SharedPassword {
    /// The password that this verifier accepts.
    pub closed spec fn password(&self) -> Seq<char> {
        self.password@
    }

    /// A verifier that accepts `password` and nothing else.
    pub fn new(password: &str) -> (verifier: SharedPassword)
        ensures
            verifier.password() == password@,
    {
        SharedPassword { password: password.to_owned() }
    }

    /// The verifier of the default build, which accepts the password `pw`.
    pub fn stub() -> (verifier: SharedPassword)
        ensures
            verifier.password() == default_password(),
    {
        SharedPassword::new("pw")
    }
}

impl CredentialVerifier for SharedPassword {
    open spec fn accepts(&self, username: Seq<char>, credential: Seq<char>) -> bool {
        credential == self.password()
    }

    fn verify(&self, username: &str, credential: &str) -> (accepted: bool) {
        let given = credential.to_owned();
        given == self.password
    }
}

} // verus!
