//! The login exchange with the judge.

use vstd::prelude::*;

verus! {

/// The credentials sent to log in.
pub struct LoginRequest {
    pub username: String,
    pub password: String,
}

/// The judge's answer to a login: the token that authorises later requests.
pub struct LoginResponse {
    pub access_token: String,
}

} // verus!
