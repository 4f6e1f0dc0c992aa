//! Profile lookup: the bearer of a token is shown the record stored under
//! the token's subject.

use crate::error::AppError;
use crate::service::{AppState, Move, Step};
use crate::store::{Answer, Query, StoreReply, StoreRequest};
use crate::token;
use crate::token::{checked_view, is_check_of, AuthToken, AuthTokenView};
use crate::user::{UserProfile, UserProfileView};
use vstd::prelude::*;

verus! {

/// What a suspended profile lookup remembers: nothing.
#[derive(Debug, Clone, Copy, PartialEq, Eq, Structural)]
pub struct ProfilePending;

impl View for ProfilePending {
    type V = ProfilePending;

    open spec fn view(&self) -> ProfilePending {
        *self
    }
}

/// How a profile lookup starts, given what the check of the token said:
/// the subject of the token is looked up by e-mail address.
pub open spec fn profile_begin(checked: Result<AuthTokenView, AppError>) -> Move<
    ProfilePending,
    UserProfileView,
> {
    match checked {
        Ok(said) => Move::Ask(Query::FindByEmail(said.subject), ProfilePending),
        Err(kind) => Move::Done(Err(kind)),
    }
}

/// How a profile lookup ends after the store's answer.
pub open spec fn profile_resume(answer: Answer) -> Move<ProfilePending, UserProfileView> {
    match answer {
        Answer::Failed => Move::Done(Err(AppError::Database)),
        Answer::Found(Some(user)) => Move::Done(Ok(user.profile())),
        Answer::Found(None) => Move::Done(Err(AppError::UserNotFound)),
        _ => Move::Done(Err(AppError::Error)),
    }
}

/// Starts a profile lookup for the bearer of a token that was checked.
pub fn profile_of_bearer(checked: Result<AuthToken, AppError>) -> (step: Step<
    ProfilePending,
    UserProfile,
>)
    ensures
        step@ == profile_begin(checked_view(checked)),
{
    match checked {
        Ok(said) => Step::Ask(StoreRequest::FindByEmail(said.subject), ProfilePending),
        Err(kind) => Step::Done(Err(kind)),
    }
}

/// Starts a profile lookup: checks the token now, then does what
/// `profile_of_bearer` does with what the check said.
pub fn get_login_user_info(state: &AppState, token: String) -> (step: Step<
    ProfilePending,
    UserProfile,
>)
    ensures
        exists|checked: Result<AuthTokenView, AppError>|
            is_check_of(token@, state.jwt_token@, checked) && step@ == #[trigger] profile_begin(
                checked,
            ),
{
    let checked = token::verify(token.as_str(), state.jwt_token.as_str());
    let ghost said = checked_view(checked);
    let step = profile_of_bearer(checked);
    assert(is_check_of(token@, state.jwt_token@, said) && step@ == profile_begin(said));
    step
}

/// Resumes a profile lookup with the store's reply.
pub fn get_login_user_info_resume(pending: ProfilePending, reply: StoreReply) -> (step: Step<
    ProfilePending,
    UserProfile,
>)
    ensures
        step@ == profile_resume(reply@),
{
    match reply {
        StoreReply::Failed => Step::Done(Err(AppError::Database)),
        StoreReply::Found(Some(user)) => Step::Done(Ok(user.into_profile())),
        StoreReply::Found(None) => Step::Done(Err(AppError::UserNotFound)),
        _ => Step::Done(Err(AppError::Error)),
    }
}

} // verus!
