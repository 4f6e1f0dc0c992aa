//! Login: who offers the password of a stored user gets a token issued to
//! that user's e-mail address.

use crate::error::AppError;
use crate::password;
use crate::password::password_matches;
use crate::service::{AppState, Move, Step};
use crate::store::{Answer, Query, StoreReply, StoreRequest};
use crate::text::ok_text;
use crate::token;
use crate::token::{answers, SignRequest, SignRequestView};
use crate::user::{User, UserView};
use vstd::prelude::*;

verus! {

/// The lifetime of a token issued at login: thirty days.
pub const TOKEN_TTL_SECONDS: i64 = 2_592_000;

/// What a suspended login remembers: the password that was offered.
#[derive(Debug)]
pub struct LoginPending {
    pub password: String,
}

/// A `LoginPending` as the contracts speak of it.
pub ghost struct LoginWait {
    pub password: Seq<char>,
}

impl View for LoginPending {
    type V = LoginWait;

    open spec fn view(&self) -> LoginWait {
        LoginWait { password: self.password@ }
    }
}

/// How a login starts: the user is looked up by e-mail address.
pub open spec fn login_begin(email: Seq<char>, password: Seq<char>) -> Move<LoginWait, Seq<char>> {
    Move::Ask(Query::FindByEmail(email), LoginWait { password })
}

/// How a login ends after the store's answer, where `token` is the token
/// that signing gives. A token is asked for only where the password
/// matches the stored hash, and there the login ends with it.
pub open spec fn login_resume(wait: LoginWait, answer: Answer, token: Seq<char>) -> Move<
    LoginWait,
    Seq<char>,
> {
    match answer {
        Answer::Failed => Move::Done(Err(AppError::Database)),
        Answer::Found(None) => Move::Done(Err(AppError::UserNotFound)),
        Answer::Found(Some(user)) => if password_matches(wait.password, user.password) {
            Move::Done(Ok(token))
        } else {
            Move::Done(Err(AppError::PasswordIncorrect))
        },
        _ => Move::Done(Err(AppError::Error)),
    }
}

/// What a login asks of the signer for `user`: a token for the user's
/// e-mail address, signed with the service's secret, that lives for
/// `TOKEN_TTL_SECONDS`.
pub open spec fn login_request(secret: Seq<char>, user: UserView) -> SignRequestView {
    SignRequestView { subject: user.email, secret, ttl_seconds: TOKEN_TTL_SECONDS }
}

/// Whether `token` can be what signing gives at the end of the login that
/// waits in `wait` and got `answer`: where the password matches, a token
/// that answers the login's request for the user found.
pub open spec fn signature_fits(
    secret: Seq<char>,
    wait: LoginWait,
    answer: Answer,
    token: Seq<char>,
) -> bool {
    match answer {
        Answer::Found(Some(user)) => password_matches(wait.password, user.password) ==> answers(
            token,
            login_request(secret, user),
        ),
        _ => true,
    }
}

/// Starts a login.
pub fn user_login(email: String, password: String) -> (step: Step<LoginPending, String>)
    ensures
        step@ == login_begin(email@, password@),
{
    Step::Ask(StoreRequest::FindByEmail(email), LoginPending { password })
}

/// What a login asks of the signer for the user who logged in.
pub fn login_sign_request<'a>(state: &'a AppState, user: User) -> (request: SignRequest<'a>)
    ensures
        request@ == login_request(state.jwt_token@, user@),
{
    SignRequest {
        subject: user.email,
        secret: state.jwt_token.as_str(),
        ttl_seconds: TOKEN_TTL_SECONDS,
    }
}

/// Resumes a login with the store's reply.
///
/// Where the password matches the stored hash, the signer is handed the
/// request that `login_sign_request` makes, and the login ends with the
/// token that the signer gives: the step is the one that `login_resume`
/// gives for some token that `signature_fits` admits. Everywhere else the
/// signer is not asked.
pub fn user_login_resume(state: &AppState, pending: LoginPending, reply: StoreReply) -> (step: Step<
    LoginPending,
    String,
>)
    ensures
        exists|token: Seq<char>|
            signature_fits(state.jwt_token@, pending@, reply@, token) && step@
                == #[trigger] login_resume(pending@, reply@, token),
{
    let ghost wait = pending@;
    let ghost answer = reply@;
    let ghost secret = state.jwt_token@;
    match reply {
        StoreReply::Found(Some(user)) => {
            if password::verify(pending.password.as_str(), user.password.as_str()) {
                let issued = token::issue(login_sign_request(state, user));
                let ghost token = ok_text(issued)->0;
                let step = Step::Done(issued);
                assert(signature_fits(secret, wait, answer, token) && step@ == login_resume(
                    wait,
                    answer,
                    token,
                ));
                step
            } else {
                let step = Step::Done(Err(AppError::PasswordIncorrect));
                assert(step@ == login_resume(wait, answer, Seq::empty()));
                step
            }
        },
        reply => {
            let step = match reply {
                StoreReply::Failed => Step::Done(Err(AppError::Database)),
                StoreReply::Found(None) => Step::Done(Err(AppError::UserNotFound)),
                _ => Step::Done(Err(AppError::Error)),
            };
            assert(step@ == login_resume(wait, answer, Seq::empty()));
            step
        },
    }
}

} // verus!
