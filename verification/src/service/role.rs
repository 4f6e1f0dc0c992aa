//! Type change: an `admin` gives another user, who is not `root`, the type
//! `admin` or the type `normal`.

use crate::error::AppError;
use crate::service::{AppState, Move, Step};
use crate::store::{Answer, Query, StoreReply, StoreRequest};
use crate::token;
use crate::token::{checked_view, is_check_of, AuthToken, AuthTokenView};
use crate::user::{grantable, is_grantable, UserPatch, UserPatchView};
use vstd::prelude::*;

verus! {

/// What a suspended type change remembers.
#[derive(Debug)]
pub enum TypePending {
    /// Waiting for the caller's record.
    Caller { user_id: u32, user_type: String },
    /// Waiting for the target's record.
    Target { user_type: String },
    /// Waiting for the change to be written.
    Write,
}

/// A `TypePending` as the contracts speak of it.
pub ghost enum TypeWait {
    Caller { user_id: u32, user_type: Seq<char> },
    Target { user_type: Seq<char> },
    Write,
}

impl View for TypePending {
    type V = TypeWait;

    open spec fn view(&self) -> TypeWait {
        match self {
            TypePending::Caller { user_id, user_type } => TypeWait::Caller {
                user_id: *user_id,
                user_type: user_type@,
            },
            TypePending::Target { user_type } => TypeWait::Target { user_type: user_type@ },
            TypePending::Write => TypeWait::Write,
        }
    }
}

/// How a type change starts, given what the check of the token said: the
/// caller is looked up by e-mail address.
pub open spec fn type_begin(
    checked: Result<AuthTokenView, AppError>,
    user_id: u32,
    user_type: Seq<char>,
) -> Move<TypeWait, bool> {
    match checked {
        Ok(said) => Move::Ask(
            Query::FindByEmail(said.subject),
            TypeWait::Caller { user_id, user_type },
        ),
        Err(kind) => Move::Done(Err(kind)),
    }
}

/// How a type change goes on after the store's answer. Only an `admin` may
/// change a type, never that of a `root` user, and only to `admin` or
/// `normal`: nobody is made `root`, and nothing else is a type. A caller
/// who is not in the store is no `admin`; a target that is not in the store
/// is reported as `Unauthorized`.
pub open spec fn type_resume(wait: TypeWait, answer: Answer) -> Move<TypeWait, bool> {
    match (wait, answer) {
        (_, Answer::Failed) => Move::Done(Err(AppError::Database)),
        (TypeWait::Caller { user_id, user_type }, Answer::Found(Some(caller))) => {
            if caller.is_admin() {
                Move::Ask(Query::FindById(user_id), TypeWait::Target { user_type })
            } else {
                Move::Done(Err(AppError::Forbidden))
            }
        },
        (TypeWait::Caller { .. }, Answer::Found(None)) => Move::Done(Err(AppError::Forbidden)),
        (TypeWait::Target { .. }, Answer::Found(None)) => Move::Done(Err(AppError::Unauthorized)),
        (TypeWait::Target { user_type }, Answer::Found(Some(target))) => {
            if target.is_root() || !is_grantable(user_type) {
                Move::Done(Err(AppError::Forbidden))
            } else {
                Move::Ask(
                    Query::Update(
                        target.id,
                        UserPatchView {
                            nickname: None,
                            password: None,
                            user_type: Some(user_type),
                        },
                    ),
                    TypeWait::Write,
                )
            }
        },
        (TypeWait::Write, Answer::Written) => Move::Done(Ok(true)),
        _ => Move::Done(Err(AppError::Error)),
    }
}

/// Starts a type change for the bearer of a token that was checked.
pub fn type_change_of_bearer(
    checked: Result<AuthToken, AppError>,
    user_id: u32,
    user_type: String,
) -> (step: Step<TypePending, bool>)
    ensures
        step@ == type_begin(checked_view(checked), user_id, user_type@),
{
    match checked {
        Ok(said) => Step::Ask(
            StoreRequest::FindByEmail(said.subject),
            TypePending::Caller { user_id, user_type },
        ),
        Err(kind) => Step::Done(Err(kind)),
    }
}

/// Starts a type change: checks the token now, then does what
/// `type_change_of_bearer` does with what the check said.
pub fn set_user_type(state: &AppState, token: String, user_id: u32, user_type: String) -> (step:
    Step<TypePending, bool>)
    ensures
        exists|checked: Result<AuthTokenView, AppError>|
            is_check_of(token@, state.jwt_token@, checked) && step@ == #[trigger] type_begin(
                checked,
                user_id,
                user_type@,
            ),
{
    let checked = token::verify(token.as_str(), state.jwt_token.as_str());
    let ghost said = checked_view(checked);
    let step = type_change_of_bearer(checked, user_id, user_type);
    assert(is_check_of(token@, state.jwt_token@, said) && step@ == type_begin(
        said,
        user_id,
        user_type@,
    ));
    step
}

/// Resumes a type change with the store's reply.
pub fn set_user_type_resume(pending: TypePending, reply: StoreReply) -> (step: Step<
    TypePending,
    bool,
>)
    ensures
        step@ == type_resume(pending@, reply@),
{
    match reply {
        StoreReply::Failed => Step::Done(Err(AppError::Database)),
        reply => match pending {
            TypePending::Caller { user_id, user_type } => match reply {
                StoreReply::Found(Some(caller)) => {
                    if caller.is_admin() {
                        Step::Ask(
                            StoreRequest::FindById(user_id),
                            TypePending::Target { user_type },
                        )
                    } else {
                        Step::Done(Err(AppError::Forbidden))
                    }
                },
                StoreReply::Found(None) => Step::Done(Err(AppError::Forbidden)),
                _ => Step::Done(Err(AppError::Error)),
            },
            TypePending::Target { user_type } => match reply {
                StoreReply::Found(None) => Step::Done(Err(AppError::Unauthorized)),
                StoreReply::Found(Some(target)) => {
                    if target.is_root() || !grantable(user_type.as_str()) {
                        Step::Done(Err(AppError::Forbidden))
                    } else {
                        Step::Ask(
                            StoreRequest::Update(
                                target.id,
                                UserPatch {
                                    nickname: None,
                                    password: None,
                                    user_type: Some(user_type),
                                },
                            ),
                            TypePending::Write,
                        )
                    }
                },
                _ => Step::Done(Err(AppError::Error)),
            },
            TypePending::Write => match reply {
                StoreReply::Written => Step::Done(Ok(true)),
                _ => Step::Done(Err(AppError::Error)),
            },
        },
    }
}

} // verus!
