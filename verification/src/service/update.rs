//! Profile update: the bearer of a token changes the nickname, the
//! password or both on the record stored under the token's subject.

use crate::error::AppError;
use crate::password;
use crate::password::{carries, password_matches, HashVersion, DEFAULT_COST};
use crate::service::{AppState, Move, Step};
use crate::store::{Answer, Query, StoreReply, StoreRequest};
use crate::text::{ok_text, opt_text};
use crate::token;
use crate::token::{checked_view, is_check_of, AuthToken, AuthTokenView};
use crate::user::{UserPatch, UserPatchView};
use vstd::prelude::*;

verus! {

/// What a suspended profile update remembers.
#[derive(Debug)]
pub enum UpdatePending {
    /// Waiting for the user; holds the new nickname and the new password,
    /// as far as the request names them.
    Lookup { nickname: Option<String>, password: Option<String> },
    /// Waiting for the update to be written.
    Write,
}

/// An `UpdatePending` as the contracts speak of it.
pub ghost enum UpdateWait {
    Lookup { nickname: Option<Seq<char>>, password: Option<Seq<char>> },
    Write,
}

impl View for UpdatePending {
    type V = UpdateWait;

    open spec fn view(&self) -> UpdateWait {
        match self {
            UpdatePending::Lookup { nickname, password } => UpdateWait::Lookup {
                nickname: opt_text(*nickname),
                password: opt_text(*password),
            },
            UpdatePending::Write => UpdateWait::Write,
        }
    }
}

/// Whether `hashed` can be the outcome of hashing the new password of the
/// update that waits in `wait`.
pub open spec fn hash_fits(wait: UpdateWait, hashed: Option<Seq<char>>) -> bool {
    match (wait, hashed) {
        (UpdateWait::Lookup { password: Some(password), .. }, Some(hash)) => password_matches(
            password,
            hash,
        ) && carries(hash, HashVersion::TwoB, DEFAULT_COST),
        _ => true,
    }
}

/// How a profile update starts, given what the check of the token said.
pub open spec fn update_begin(
    checked: Result<AuthTokenView, AppError>,
    nickname: Option<Seq<char>>,
    password: Option<Seq<char>>,
) -> Move<UpdateWait, bool> {
    match checked {
        Ok(said) => Move::Ask(
            Query::FindByEmail(said.subject),
            UpdateWait::Lookup { nickname, password },
        ),
        Err(kind) => Move::Done(Err(kind)),
    }
}

/// How a profile update goes on after the store's answer, where `hashed`
/// is the hash of the new password, if hashing gives one. Only the fields
/// that the request names are written; a write that the store refuses
/// ends the update with `false`, not with an error.
pub open spec fn update_resume(wait: UpdateWait, answer: Answer, hashed: Option<Seq<char>>) -> Move<
    UpdateWait,
    bool,
> {
    match (wait, answer) {
        (UpdateWait::Lookup { .. }, Answer::Failed) => Move::Done(Err(AppError::Database)),
        (UpdateWait::Lookup { .. }, Answer::Found(None)) => Move::Done(
            Err(AppError::UserNotFound),
        ),
        (UpdateWait::Lookup { nickname, password }, Answer::Found(Some(user))) => {
            if password is Some && hashed is None {
                Move::Done(Err(AppError::Error))
            } else {
                Move::Ask(
                    Query::Update(
                        user.id,
                        UserPatchView {
                            nickname,
                            password: if password is Some {
                                hashed
                            } else {
                                None
                            },
                            user_type: None,
                        },
                    ),
                    UpdateWait::Write,
                )
            }
        },
        (UpdateWait::Write, Answer::Written) => Move::Done(Ok(true)),
        (UpdateWait::Write, Answer::Failed) => Move::Done(Ok(false)),
        _ => Move::Done(Err(AppError::Error)),
    }
}

/// The hash that an attempt at hashing gave, where one was made and gave
/// one.
pub open spec fn attempt_text(hashed: Option<Result<String, AppError>>) -> Option<Seq<char>> {
    match hashed {
        Some(outcome) => ok_text(outcome),
        None => None,
    }
}

/// Starts a profile update for the bearer of a token that was checked.
pub fn update_of_bearer(
    checked: Result<AuthToken, AppError>,
    nickname: Option<String>,
    password: Option<String>,
) -> (step: Step<UpdatePending, bool>)
    ensures
        step@ == update_begin(checked_view(checked), opt_text(nickname), opt_text(password)),
{
    match checked {
        Ok(said) => Step::Ask(
            StoreRequest::FindByEmail(said.subject),
            UpdatePending::Lookup { nickname, password },
        ),
        Err(kind) => Step::Done(Err(kind)),
    }
}

/// Starts a profile update: checks the token now, then does what
/// `update_of_bearer` does with what the check said.
pub fn set_user_profile(
    state: &AppState,
    token: String,
    nickname: Option<String>,
    password: Option<String>,
) -> (step: Step<UpdatePending, bool>)
    ensures
        exists|checked: Result<AuthTokenView, AppError>|
            is_check_of(token@, state.jwt_token@, checked) && step@ == #[trigger] update_begin(
                checked,
                opt_text(nickname),
                opt_text(password),
            ),
{
    let checked = token::verify(token.as_str(), state.jwt_token.as_str());
    let ghost said = checked_view(checked);
    let ghost name = opt_text(nickname);
    let ghost word = opt_text(password);
    let step = update_of_bearer(checked, nickname, password);
    assert(is_check_of(token@, state.jwt_token@, said) && step@ == update_begin(said, name, word));
    step
}

/// Goes on with a profile update whose user was found, given the outcome
/// of hashing the new password where the request names one.
pub fn update_prepare(
    id: u32,
    nickname: Option<String>,
    hashed: Option<Result<String, AppError>>,
) -> (step: Step<UpdatePending, bool>)
    ensures
        match hashed {
            Some(Err(_)) => step@ == Move::<UpdateWait, bool>::Done(Err(AppError::Error)),
            Some(Ok(hash)) => step@ == Move::<UpdateWait, bool>::Ask(
                Query::Update(
                    id,
                    UserPatchView {
                        nickname: opt_text(nickname),
                        password: Some(hash@),
                        user_type: None,
                    },
                ),
                UpdateWait::Write,
            ),
            None => step@ == Move::<UpdateWait, bool>::Ask(
                Query::Update(
                    id,
                    UserPatchView { nickname: opt_text(nickname), password: None, user_type: None },
                ),
                UpdateWait::Write,
            ),
        },
{
    match hashed {
        Some(Err(_)) => Step::Done(Err(AppError::Error)),
        Some(Ok(hash)) => Step::Ask(
            StoreRequest::Update(id, UserPatch { nickname, password: Some(hash), user_type: None }),
            UpdatePending::Write,
        ),
        None => Step::Ask(
            StoreRequest::Update(id, UserPatch { nickname, password: None, user_type: None }),
            UpdatePending::Write,
        ),
    }
}

/// Resumes a profile update with the store's reply.
///
/// Where the user was found and the request names a new password, the
/// password is hashed under a fresh salt: the step is then the one that
/// `update_resume` gives for some outcome of the hashing that `hash_fits`
/// admits. Everywhere else that outcome plays no part.
pub fn set_user_profile_resume(pending: UpdatePending, reply: StoreReply) -> (step: Step<
    UpdatePending,
    bool,
>)
    ensures
        exists|hashed: Option<Seq<char>>|
            hash_fits(pending@, hashed) && step@ == #[trigger] update_resume(
                pending@,
                reply@,
                hashed,
            ),
{
    let ghost wait = pending@;
    let ghost answer = reply@;
    match pending {
        UpdatePending::Lookup { nickname, password } => match reply {
            StoreReply::Found(Some(user)) => {
                let hashed = match password {
                    Some(password) => Some(password::hash_default(password.as_str())),
                    None => None,
                };
                let ghost drawn = attempt_text(hashed);
                let step = update_prepare(user.id, nickname, hashed);
                proof {
                    assert(hash_fits(wait, drawn));
                    assert(step@ == update_resume(wait, answer, drawn));
                }
                step
            },
            StoreReply::Failed => {
                let step = Step::Done(Err(AppError::Database));
                assert(step@ == update_resume(wait, answer, None));
                step
            },
            StoreReply::Found(None) => {
                let step = Step::Done(Err(AppError::UserNotFound));
                assert(step@ == update_resume(wait, answer, None));
                step
            },
            _ => {
                let step = Step::Done(Err(AppError::Error));
                assert(step@ == update_resume(wait, answer, None));
                step
            },
        },
        UpdatePending::Write => {
            let step = match reply {
                StoreReply::Written => Step::Done(Ok(true)),
                StoreReply::Failed => Step::Done(Ok(false)),
                _ => Step::Done(Err(AppError::Error)),
            };
            assert(step@ == update_resume(wait, answer, None));
            step
        },
    }
}

} // verus!
