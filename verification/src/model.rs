//! The bodies of the requests and responses of the HTTP interface, as plain
//! data.

use vstd::prelude::*;

verus! {

/// Query of a registration request.
#[derive(Debug)]
pub struct UserRegisterQuery {
    /// Language tag for the message of the response.
    pub lang: String,
}

/// Body of a registration request.
#[derive(Debug)]
pub struct UserRegisterBody {
    pub nickname: String,
    pub email: String,
    pub password: String,
}

/// Payload of a successful registration: nothing of the new user is sent
/// back.
#[derive(Debug, Clone, Copy, PartialEq, Eq, Structural)]
pub struct UserRegisterResponseData;

impl View for UserRegisterResponseData {
    type V = UserRegisterResponseData;

    open spec fn view(&self) -> UserRegisterResponseData {
        *self
    }
}

/// Body of a login request.
#[derive(Debug)]
pub struct UserLoginBody {
    pub email: String,
    pub password: String,
}

/// Body of a profile update: a field that is absent stays as it is.
#[derive(Debug)]
pub struct SetUserProfileBody {
    pub nickname: Option<String>,
    pub password: Option<String>,
}

/// Body of a type change.
#[derive(Debug)]
pub struct SetUserTypeBody {
    pub user_type: String,
}

/// Payload of the health check.
#[derive(Debug)]
pub struct HealthCheckResponseData {
    pub status: String,
}

} // verus!
