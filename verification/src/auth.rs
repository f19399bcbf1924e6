//! The authentication state machine: the credential lifecycle
//! `Unauthenticated -> Authenticating -> Authenticated`, and back on
//! reset.
//!
//! The machine owns the in-memory credentials and decides every
//! transition; the caller performs the outside work (the environment
//! lookup, the credential-store read, write and delete) and hands the
//! outcomes back as plain values. While one store read is in flight, a
//! second `authenticate` call is told to await it rather than issue a
//! redundant read.

use vstd::prelude::*;
use crate::error::{CompletionError, CredentialField};

verus! {

/// A read-only credential snapshot handed to one in-flight request.
pub struct Credentials {
    pub api_key: String,
    pub api_url: String,
    pub deployment_name: String,
    pub api_version: String,
}

pub struct CredentialsV {
    pub api_key: Seq<char>,
    pub api_url: Seq<char>,
    pub deployment_name: Seq<char>,
    pub api_version: Seq<char>,
}

impl View for Credentials {
    type V = CredentialsV;

    open spec fn view(&self) -> CredentialsV {
        CredentialsV {
            api_key: self.api_key@,
            api_url: self.api_url@,
            deployment_name: self.deployment_name@,
            api_version: self.api_version@,
        }
    }
}

/// The lifecycle states.
#[derive(Clone, Copy, PartialEq, Eq, Structural, Debug)]
pub enum AuthPhase {
    Unauthenticated,
    Authenticating,
    Authenticated,
}

/// An authentication failure.
#[derive(Clone, Copy, PartialEq, Eq, Structural, Debug)]
pub enum AuthError {
    /// Neither the environment nor the credential store yielded a key.
    CredentialsNotFound,
    /// The credential-store write failed; the in-memory state was left
    /// untouched, since pretending success would mislead the caller.
    StoreWriteFailed,
}

/// The in-memory value of the state machine.
pub struct StateV {
    pub api_key: Option<Seq<char>>,
    pub api_url: Option<Seq<char>>,
    pub deployment_name: Option<Seq<char>>,
    pub api_version: Option<Seq<char>>,
    pub api_key_from_env: bool,
    pub reading_store: bool,
}

/// Authentication completes when a key is held.
pub open spec fn spec_is_authenticated(s: StateV) -> bool {
    s.api_key is Some
}

/// The machine never reads the store while it already holds a key.
pub open spec fn spec_wf(s: StateV) -> bool {
    s.reading_store ==> s.api_key is None
}

pub open spec fn spec_phase(s: StateV) -> AuthPhase {
    if s.reading_store {
        AuthPhase::Authenticating
    } else if spec_is_authenticated(s) {
        AuthPhase::Authenticated
    } else {
        AuthPhase::Unauthenticated
    }
}

/// The endpoint identifier that keys the credential store: the stored
/// URL, or empty while none is configured.
pub open spec fn spec_resolved_url(s: StateV) -> Seq<char> {
    match s.api_url {
        Some(u) => u,
        None => Seq::empty(),
    }
}

/// The fresh state.
pub open spec fn spec_initial_state() -> StateV {
    StateV {
        api_key: None,
        api_url: None,
        deployment_name: None,
        api_version: None,
        api_key_from_env: false,
        reading_store: false,
    }
}

/// What the caller must do to finish an `authenticate` call.
pub enum AuthStep {
    /// Nothing: authentication already succeeded earlier.
    AlreadyAuthenticated,
    /// Nothing but await the read already in flight: no second read is
    /// issued.
    AwaitInFlight,
    /// Nothing: the environment variable supplied the key, which wins
    /// over stored credentials and disables manual reset.
    CompletedFromEnvironment,
    /// Read the credential store under this endpoint identifier and hand
    /// the outcome to `finish_authenticate`.
    ReadStore { api_url: String },
}

pub enum AuthStepV {
    AlreadyAuthenticated,
    AwaitInFlight,
    CompletedFromEnvironment,
    ReadStore { api_url: Seq<char> },
}

impl View for AuthStep {
    type V = AuthStepV;

    open spec fn view(&self) -> AuthStepV {
        match self {
            AuthStep::AlreadyAuthenticated => AuthStepV::AlreadyAuthenticated,
            AuthStep::AwaitInFlight => AuthStepV::AwaitInFlight,
            AuthStep::CompletedFromEnvironment => AuthStepV::CompletedFromEnvironment,
            AuthStep::ReadStore { api_url } => AuthStepV::ReadStore { api_url: api_url@ },
        }
    }
}

/// The credential whose absence `snapshot` reports: the first missing
/// one, in the order key, URL, deployment name, API version.
pub open spec fn spec_first_missing(s: StateV) -> CredentialField {
    if s.api_key is None {
        CredentialField::ApiKey
    } else if s.api_url is None {
        CredentialField::ApiUrl
    } else if s.deployment_name is None {
        CredentialField::DeploymentName
    } else {
        CredentialField::ApiVersion
    }
}

/// The `authenticate` transition: idempotent once authenticated; a second
/// call during a read awaits it; the environment key wins over the store;
/// otherwise a store read begins.
pub open spec fn spec_authenticate(s: StateV, env_key: Option<Seq<char>>) -> (StateV, AuthStepV) {
    if spec_is_authenticated(s) {
        (s, AuthStepV::AlreadyAuthenticated)
    } else if s.reading_store {
        (s, AuthStepV::AwaitInFlight)
    } else {
        match env_key {
            Some(k) => (
                StateV { api_key: Some(k), api_key_from_env: true, ..s },
                AuthStepV::CompletedFromEnvironment,
            ),
            None => (
                StateV { reading_store: true, ..s },
                AuthStepV::ReadStore { api_url: spec_resolved_url(s) },
            ),
        }
    }
}

/// The transition on a finished store read: a key authenticates; no key
/// returns the machine to `Unauthenticated` and the call fails.
pub open spec fn spec_finish_authenticate(s: StateV, read: Option<Seq<char>>) -> (StateV, bool) {
    match read {
        Some(k) => (
            StateV { api_key: Some(k), api_key_from_env: false, reading_store: false, ..s },
            true,
        ),
        None => (StateV { reading_store: false, ..s }, false),
    }
}

/// The transition on a finished credential write: success installs all
/// four fields and authenticates whatever the prior state was; failure
/// leaves the state untouched.
pub open spec fn spec_set_credentials(
    s: StateV,
    api_key: Seq<char>,
    api_url: Seq<char>,
    deployment_name: Seq<char>,
    api_version: Seq<char>,
    write_ok: bool,
) -> (StateV, bool) {
    if write_ok {
        (
            StateV {
                api_key: Some(api_key),
                api_url: Some(api_url),
                deployment_name: Some(deployment_name),
                api_version: Some(api_version),
                api_key_from_env: false,
                reading_store: false,
            },
            true,
        )
    } else {
        (s, false)
    }
}

/// The `reset` transition: everything is cleared, unconditionally. The
/// store delete that accompanies it is best-effort; its outcome is not
/// even an input here.
pub open spec fn spec_reset(s: StateV) -> StateV {
    spec_initial_state()
}

/// The authentication state machine.
pub struct State {
    api_key: Option<String>,
    api_url: Option<String>,
    deployment_name: Option<String>,
    api_version: Option<String>,
    api_key_from_env: bool,
    reading_store: bool,
}

impl View for State {
    type V = StateV;

    closed spec fn view(&self) -> StateV {
        StateV {
            api_key: match self.api_key {
                Some(ref s) => Some(s@),
                None => None,
            },
            api_url: match self.api_url {
                Some(ref s) => Some(s@),
                None => None,
            },
            deployment_name: match self.deployment_name {
                Some(ref s) => Some(s@),
                None => None,
            },
            api_version: match self.api_version {
                Some(ref s) => Some(s@),
                None => None,
            },
            api_key_from_env: self.api_key_from_env,
            reading_store: self.reading_store,
        }
    }
}

impl State {
    pub fn new() -> (r: State)
        ensures
            r@ == spec_initial_state(),
    {
        State {
            api_key: None,
            api_url: None,
            deployment_name: None,
            api_version: None,
            api_key_from_env: false,
            reading_store: false,
        }
    }

    pub fn is_authenticated(&self) -> (r: bool)
        ensures
            r == spec_is_authenticated(self@),
    {
        self.api_key.is_some()
    }

    /// Whether the key came from the environment, which disables manual
    /// reset in the caller's interface.
    pub fn api_key_from_env(&self) -> (r: bool)
        ensures
            r == self@.api_key_from_env,
    {
        self.api_key_from_env
    }

    pub fn phase(&self) -> (r: AuthPhase)
        ensures
            r == spec_phase(self@),
    {
        if self.reading_store {
            AuthPhase::Authenticating
        } else if self.api_key.is_some() {
            AuthPhase::Authenticated
        } else {
            AuthPhase::Unauthenticated
        }
    }

    /// Begins authentication. The environment lookup's outcome is handed
    /// in; a returned `ReadStore` step obliges the caller to read the
    /// store and call `finish_authenticate` with what it found.
    pub fn authenticate(&mut self, env_api_key: Option<String>) -> (r: AuthStep)
        ensures
            final(self)@ == spec_authenticate(old(self)@, env_api_key.deep_view()).0,
            r@ == spec_authenticate(old(self)@, env_api_key.deep_view()).1,
            spec_wf(old(self)@) ==> spec_wf(final(self)@),
    {
        if self.api_key.is_some() {
            return AuthStep::AlreadyAuthenticated;
        }
        if self.reading_store {
            return AuthStep::AwaitInFlight;
        }
        match env_api_key {
            Some(k) => {
                self.api_key = Some(k);
                self.api_key_from_env = true;
                AuthStep::CompletedFromEnvironment
            },
            None => {
                self.reading_store = true;
                let api_url = match &self.api_url {
                    Some(u) => u.clone(),
                    None => String::new(),
                };
                AuthStep::ReadStore { api_url }
            },
        }
    }

    /// Finishes authentication with what the store read yielded.
    pub fn finish_authenticate(&mut self, read: Option<String>) -> (r: Result<(), AuthError>)
        requires
            spec_phase(old(self)@) is Authenticating,
        ensures
            final(self)@ == spec_finish_authenticate(old(self)@, read.deep_view()).0,
            r is Ok == spec_finish_authenticate(old(self)@, read.deep_view()).1,
            r is Err ==> (r matches Err(e) && e == AuthError::CredentialsNotFound),
            spec_wf(final(self)@),
    {
        self.reading_store = false;
        match read {
            Some(k) => {
                self.api_key = Some(k);
                self.api_key_from_env = false;
                Ok(())
            },
            None => Err(AuthError::CredentialsNotFound),
        }
    }

    /// Installs credentials after the store write finished: success
    /// updates the in-memory state and authenticates whatever the prior
    /// state was; a write failure propagates and changes nothing.
    pub fn set_credentials(
        &mut self,
        api_key: String,
        api_url: String,
        deployment_name: String,
        api_version: String,
        write_ok: bool,
    ) -> (r: Result<(), AuthError>)
        ensures
            final(self)@ == spec_set_credentials(
                old(self)@,
                api_key@,
                api_url@,
                deployment_name@,
                api_version@,
                write_ok,
            ).0,
            r is Ok == write_ok,
            r is Err ==> (r matches Err(e) && e == AuthError::StoreWriteFailed),
            write_ok ==> spec_phase(final(self)@) is Authenticated,
            spec_wf(final(self)@) == (write_ok || spec_wf(old(self)@)),
    {
        if !write_ok {
            return Err(AuthError::StoreWriteFailed);
        }
        self.api_key = Some(api_key);
        self.api_url = Some(api_url);
        self.deployment_name = Some(deployment_name);
        self.api_version = Some(api_version);
        self.api_key_from_env = false;
        self.reading_store = false;
        Ok(())
    }

    /// Clears the in-memory state unconditionally and returns the
    /// endpoint identifier whose stored secret the caller should delete,
    /// best-effort: a store failure there is logged by the caller and
    /// cannot undo this transition.
    pub fn reset(&mut self) -> (r: String)
        ensures
            final(self)@ == spec_reset(old(self)@),
            spec_phase(final(self)@) is Unauthenticated,
            r@ == spec_resolved_url(old(self)@),
            spec_wf(final(self)@),
    {
        let api_url = match &self.api_url {
            Some(u) => u.clone(),
            None => String::new(),
        };
        self.api_key = None;
        self.api_url = None;
        self.deployment_name = None;
        self.api_version = None;
        self.api_key_from_env = false;
        self.reading_store = false;
        api_url
    }

    /// The snapshot an in-flight request takes: all four fields, or the
    /// first missing one as a `MissingCredential` error, surfaced before
    /// any network call.
    pub fn snapshot(&self) -> (r: Result<Credentials, CompletionError>)
        ensures
            match r {
                Ok(c) => {
                    &&& self@.api_key == Some(c@.api_key)
                    &&& self@.api_url == Some(c@.api_url)
                    &&& self@.deployment_name == Some(c@.deployment_name)
                    &&& self@.api_version == Some(c@.api_version)
                },
                Err(e) => {
                    &&& (e@ matches crate::error::CompletionErrorV::MissingCredential(f) && f
                        == spec_first_missing(self@))
                },
            },
            r is Ok <==> (self@.api_key is Some && self@.api_url is Some
                && self@.deployment_name is Some && self@.api_version is Some),
    {
        let api_key = match &self.api_key {
            Some(k) => k.clone(),
            None => {
                return Err(CompletionError::MissingCredential(CredentialField::ApiKey));
            },
        };
        let api_url = match &self.api_url {
            Some(u) => u.clone(),
            None => {
                return Err(CompletionError::MissingCredential(CredentialField::ApiUrl));
            },
        };
        let deployment_name = match &self.deployment_name {
            Some(d) => d.clone(),
            None => {
                return Err(CompletionError::MissingCredential(CredentialField::DeploymentName));
            },
        };
        let api_version = match &self.api_version {
            Some(v) => v.clone(),
            None => {
                return Err(CompletionError::MissingCredential(CredentialField::ApiVersion));
            },
        };
        Ok(Credentials { api_key, api_url, deployment_name, api_version })
    }
}

/// At-most-one-in-flight law: from `Unauthenticated`, a first
/// `authenticate` without an environment key issues the one store read
/// and moves to `Authenticating`; a second call arriving before the read
/// completes changes nothing and issues no second read.
pub proof fn lemma_single_store_read(s: StateV, env2: Option<Seq<char>>)
    requires
        spec_wf(s),
        spec_phase(s) is Unauthenticated,
    ensures
        spec_authenticate(s, None).1 is ReadStore,
        spec_phase(spec_authenticate(s, None).0) is Authenticating,
        spec_authenticate(spec_authenticate(s, None).0, env2).1 is AwaitInFlight,
        spec_authenticate(spec_authenticate(s, None).0, env2).0 == spec_authenticate(s, None).0,
{
}

/// Idempotence law: once authenticated, `authenticate` succeeds
/// immediately and changes nothing.
pub proof fn lemma_authenticate_idempotent(s: StateV, env_key: Option<Seq<char>>)
    requires
        spec_phase(s) is Authenticated,
    ensures
        spec_authenticate(s, env_key).0 == s,
        spec_authenticate(s, env_key).1 is AlreadyAuthenticated,
{
}

/// Reset law: `reset` lands in `Unauthenticated` from every state; the
/// outcome of the accompanying store delete is not even an input of the
/// transition, so a failing delete cannot keep the machine authenticated.
pub proof fn lemma_reset_unconditional(s: StateV)
    ensures
        spec_phase(spec_reset(s)) is Unauthenticated,
        !spec_is_authenticated(spec_reset(s)),
{
}

} // verus!
