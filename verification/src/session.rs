//! The stored session and what of it is shown.

use vstd::prelude::*;
use vstd::string::*;
use crate::error::AppError;

verus! {

/// The name under which the credential store files the session.
pub const SERVICE_NAME: &'static str = "blue-horizon";

/// The key of the session within [`SERVICE_NAME`].
pub const SESSION_KEY: &'static str = "session";

/// A session as kept in the credential store.
#[derive(Clone, Debug)]
pub struct StoredSession {
    pub did: String,
    pub handle: String,
    pub access_jwt: String,
    pub refresh_jwt: String,
    pub service_url: String,
}

/// What of a session is shown: everything but the tokens.
#[derive(Clone, Debug)]
pub struct SessionInfo {
    pub did: String,
    pub handle: String,
    pub service_url: String,
    pub is_authenticated: bool,
}

impl SessionInfo {
    /// The shown part of a stored session.
    pub fn from(session: &StoredSession) -> (info: SessionInfo)
        ensures
            info.did@ == session.did@,
            info.handle@ == session.handle@,
            info.service_url@ == session.service_url@,
            info.is_authenticated,
    {
        SessionInfo {
            did: session.did.clone(),
            handle: session.handle.clone(),
            service_url: session.service_url.clone(),
            is_authenticated: true,
        }
    }
}

/// Answers the question for the current session from what reading the
/// credential store gave: a session is shown, a missing one is no error, any
/// other failure is handed on.
pub fn session_info(stored: Result<StoredSession, AppError>) -> (shown: Result<
    Option<SessionInfo>,
    AppError,
>)
    ensures
        match stored {
            Ok(session) => {
                &&& shown matches Ok(Some(info))
                &&& info.did@ == session.did@
                &&& info.handle@ == session.handle@
                &&& info.service_url@ == session.service_url@
                &&& info.is_authenticated
            },
            Err(AppError::SessionNotFound) => shown matches Ok(None),
            Err(error) => shown == Err::<Option<SessionInfo>, AppError>(error),
        },
{
    match stored {
        Ok(session) => Ok(Some(SessionInfo::from(&session))),
        Err(AppError::SessionNotFound) => Ok(None),
        Err(error) => Err(error),
    }
}

/// Where credentials are kept.
#[derive(Clone, Copy, Debug, PartialEq, Eq, Structural)]
pub enum KeyringBackend {
    /// The secret service, in its persistent default collection.
    SecretService,
    /// Whatever the platform offers, as it is.
    PlatformDefault,
}

/// Chooses the credential store for an operating system, named as the
/// standard library names it: on Linux the secret service has to be set up
/// for sessions to outlive the process, elsewhere nothing is to be done.
pub fn init_keyring(os: &str) -> (backend: KeyringBackend)
    ensures
        backend == if os@ == "linux"@ {
            KeyringBackend::SecretService
        } else {
            KeyringBackend::PlatformDefault
        },
{
    if os.to_owned() == String::from_str("linux") {
        KeyringBackend::SecretService
    } else {
        KeyringBackend::PlatformDefault
    }
}

/// A failure of the session store.
#[derive(Debug)]
pub struct StoreError(pub String);

impl StoreError {
    /// The text shown for the failure.
    pub fn message(&self) -> (text: String)
        ensures
            text@ == "StoreError: "@ + self.0@,
    {
        String::from_str("StoreError: ").concat(self.0.as_str())
    }
}

} // verus!
