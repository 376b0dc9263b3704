//! What requests carry.

use vstd::prelude::*;

verus! {

/// What a request to log in carries.
#[derive(Clone, Debug, PartialEq, Eq)]
pub struct AuthLogin {
    pub username: String,
    pub password: String,
}

/// What a request to renew the session carries.
#[derive(Clone, Debug, PartialEq, Eq)]
pub struct AuthRefresh {
    pub token: String,
}

} // verus!
