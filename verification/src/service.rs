//! The account operations: registration, login, profile lookup, profile
//! update and type change.
//!
//! No operation touches the user store. Each runs until it needs the store,
//! then stops with a request and with what it has to remember; it is
//! resumed with the store's reply, and in the end stops with its result.
//! What an operation does is stated as a function of what it is given, of
//! the store's replies and of what the machine contributes (a salt, an
//! identifier, the time).

pub mod login;
pub mod profile;
pub mod register;
pub mod role;
pub mod update;

pub use login::{
    login_begin, login_request, login_resume, login_sign_request, signature_fits, user_login,
    user_login_resume, LoginPending, LoginWait, TOKEN_TTL_SECONDS,
};
pub use profile::{
    get_login_user_info, get_login_user_info_resume, profile_begin, profile_of_bearer,
    profile_resume, ProfilePending,
};
pub use register::{
    is_id_char, is_user_id, register_admitted, register_begin, register_draft, register_prepare,
    register_requested_at, register_resume, user_register, user_register_at,
    user_register_resume, RegisterDraw, RegisterPending, RegisterWait, REGISTRATIONS_PER_WINDOW,
    REGISTRATION_COST, USER_ID_LENGTH,
};
pub use role::{
    set_user_type, set_user_type_resume, type_begin, type_change_of_bearer, type_resume,
    TypePending, TypeWait,
};
pub use update::{
    attempt_text, hash_fits, set_user_profile, set_user_profile_resume, update_begin,
    update_of_bearer, update_prepare, update_resume, UpdatePending, UpdateWait,
};

use crate::error::AppError;
use crate::rate_limit::RateLimiter;
use crate::store::{Query, StoreRequest};
use vstd::prelude::*;

verus! {

/// Where an operation stands after it was started or resumed.
#[derive(Debug)]
pub enum Step<P, T> {
    /// The store is to carry out the request; the operation is then to be
    /// resumed with the reply and with the second field.
    Ask(StoreRequest, P),
    /// The operation is over.
    Done(Result<T, AppError>),
}

/// A step as the contracts speak of it.
pub ghost enum Move<P, T> {
    Ask(Query, P),
    Done(Result<T, AppError>),
}

impl<P: View, T: View> View for Step<P, T> {
    type V = Move<P::V, T::V>;

    open spec fn view(&self) -> Move<P::V, T::V> {
        match self {
            Step::Ask(request, pending) => Move::Ask(request@, pending@),
            Step::Done(Ok(value)) => Move::Done(Ok(value@)),
            Step::Done(Err(kind)) => Move::Done(Err(*kind)),
        }
    }
}

/// What the operations share: the limiter that guards registration and
/// the secret that tokens are signed with.
#[derive(Debug)]
pub struct AppState {
    pub rate_limiter: RateLimiter,
    pub jwt_token: String,
}

} // verus!
