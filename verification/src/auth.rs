//! Signing in.

use vstd::prelude::*;
use vstd::string::*;

verus! {

/// What a user enters to sign in.
pub struct LoginRequest {
    pub identifier: String,
    pub password: String,
    /// The service to sign in at; see [`default_service`].
    pub service: String,
}

/// What signing in gives back.
pub struct LoginResponse {
    pub did: String,
    pub handle: String,
    pub service: String,
}

/// The service that is signed in at where the request names none.
pub fn default_service() -> (service: String)
    ensures
        service@ == "https://bsky.social"@,
{
    String::from_str("https://bsky.social")
}

} // verus!
