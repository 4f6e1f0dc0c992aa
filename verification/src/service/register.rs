//! Registration: a client that the limiter admits is registered under an
//! e-mail address that is still free, as `root` if the store is empty and
//! as `normal` otherwise.

use crate::clock::now_seconds;
use crate::error::AppError;
use crate::model::UserRegisterResponseData;
use crate::password;
use crate::password::{carries, password_matches, HashVersion};
use crate::rate_limit::{admits, after_request, request_at, Windows};
use crate::service::{AppState, Move, Step};
use crate::store::{Answer, Query, StoreReply, StoreRequest};
use crate::text::ok_text;
use crate::user::{default_avatar, type_normal, NewUser, NewUserView};
use vstd::prelude::*;

verus! {

/// Registrations admitted per client and window.
pub const REGISTRATIONS_PER_WINDOW: usize = 1;

/// The bcrypt cost at which registration hashes a password.
pub const REGISTRATION_COST: u32 = 8;

/// The length of the identifier that a user gets at registration.
pub const USER_ID_LENGTH: usize = 8;

/// Whether `c` may occur in a user's identifier.
pub open spec fn is_id_char(c: char) -> bool {
    ('0' <= c <= '9') || ('a' <= c <= 'z') || ('A' <= c <= 'Z')
}

/// Whether `id` can be the identifier of a user.
pub open spec fn is_user_id(id: Seq<char>) -> bool {
    &&& id.len() == USER_ID_LENGTH
    &&& forall|i: int| 0 <= i < id.len() ==> is_id_char(#[trigger] id[i])
}

/// `helpers::uuid::nanoid` over `helpers::uuid::Alphabet::DEFAULT`: a text
/// of `length` characters, each drawn at random from the digits and the
/// letters of both cases. A length of zero would never return, and the
/// function computes with eight times the length.
#[verifier::external_body]
fn random_id(length: usize) -> (id: String)
    requires
        0 < length,
        8 * length <= usize::MAX,
    ensures
        id@.len() == length,
        forall|i: int| 0 <= i < id@.len() ==> is_id_char(#[trigger] id@[i]),
{
    helpers::uuid::nanoid(&helpers::uuid::Alphabet::DEFAULT, length)
}

/// What a suspended registration remembers.
#[derive(Debug)]
pub enum RegisterPending {
    /// Waiting to learn whether the e-mail address is taken.
    Lookup { nickname: String, email: String, password: String },
    /// Waiting to learn whether the store is empty.
    Count { user: NewUser },
    /// Waiting for the new user to be written.
    Insert,
}

/// A `RegisterPending` as the contracts speak of it.
pub ghost enum RegisterWait {
    Lookup { nickname: Seq<char>, email: Seq<char>, password: Seq<char> },
    Count { user: NewUserView },
    Insert,
}

impl View for RegisterPending {
    type V = RegisterWait;

    open spec fn view(&self) -> RegisterWait {
        match self {
            RegisterPending::Lookup { nickname, email, password } => RegisterWait::Lookup {
                nickname: nickname@,
                email: email@,
                password: password@,
            },
            RegisterPending::Count { user } => RegisterWait::Count { user: user@ },
            RegisterPending::Insert => RegisterWait::Insert,
        }
    }
}

/// What the machine contributes to a registration.
pub ghost struct RegisterDraw {
    /// The hash of the password, unless hashing failed.
    pub hashed: Option<Seq<char>>,
    /// The identifier drawn for the user.
    pub user_id: Seq<char>,
    /// The time of the registration.
    pub created_at: i64,
}

impl RegisterDraw {
    /// What holds of every contribution to the registration that waits in
    /// `wait`.
    pub open spec fn fits(self, wait: RegisterWait) -> bool {
        &&& is_user_id(self.user_id)
        &&& match (wait, self.hashed) {
            (RegisterWait::Lookup { password, .. }, Some(hash)) => password_matches(password, hash)
                && carries(hash, HashVersion::TwoA, REGISTRATION_COST),
            _ => true,
        }
    }
}

/// The registration before its type is decided.
pub open spec fn register_draft(
    nickname: Seq<char>,
    email: Seq<char>,
    hash: Seq<char>,
    user_id: Seq<char>,
    created_at: i64,
) -> NewUserView {
    NewUserView {
        user_id,
        nickname,
        password: hash,
        email,
        user_type: type_normal(),
        avatar: default_avatar(),
        is_email_verified: false,
        is_phone_verified: false,
        created_at,
    }
}

/// How a registration starts: a client over its limit is turned away,
/// every other is looked up by e-mail address.
pub open spec fn register_begin(
    allowed: bool,
    nickname: Seq<char>,
    email: Seq<char>,
    password: Seq<char>,
) -> Move<RegisterWait, UserRegisterResponseData> {
    if allowed {
        Move::Ask(Query::FindByEmail(email), RegisterWait::Lookup { nickname, email, password })
    } else {
        Move::Done(Err(AppError::FrequencyLimited))
    }
}

/// How a registration goes on after the store's answer.
pub open spec fn register_resume(wait: RegisterWait, answer: Answer, draw: RegisterDraw) -> Move<
    RegisterWait,
    UserRegisterResponseData,
> {
    match (wait, answer) {
        (_, Answer::Failed) => Move::Done(Err(AppError::Database)),
        (RegisterWait::Lookup { .. }, Answer::Found(Some(_))) => Move::Done(
            Err(AppError::UserExists),
        ),
        (RegisterWait::Lookup { nickname, email, .. }, Answer::Found(None)) => match draw.hashed {
            Some(hash) => Move::Ask(
                Query::IsEmpty,
                RegisterWait::Count {
                    user: register_draft(nickname, email, hash, draw.user_id, draw.created_at),
                },
            ),
            None => Move::Done(Err(AppError::Error)),
        },
        (RegisterWait::Count { user }, Answer::Empty(first)) => Move::Ask(
            Query::Insert(user.typed(first)),
            RegisterWait::Insert,
        ),
        (RegisterWait::Insert, Answer::Written) => Move::Done(Ok(UserRegisterResponseData)),
        _ => Move::Done(Err(AppError::Error)),
    }
}

/// Whether `step` and `after` are what a registration request of
/// `client_ip` at the instant `now` leads to.
pub open spec fn register_requested_at(
    before: Windows,
    qps: u64,
    client_ip: Seq<char>,
    now: nat,
    nickname: Seq<char>,
    email: Seq<char>,
    password: Seq<char>,
    after: Windows,
    step: Move<RegisterWait, UserRegisterResponseData>,
) -> bool {
    &&& after == after_request(before, client_ip, REGISTRATIONS_PER_WINDOW as nat, now, qps)
    &&& step == register_begin(
        admits(before, client_ip, REGISTRATIONS_PER_WINDOW as nat, now, qps),
        nickname,
        email,
        password,
    )
}

/// Starts a registration whose client was admitted or turned away by the
/// limiter.
pub fn register_admitted(allowed: bool, nickname: String, email: String, password: String) -> (step:
    Step<RegisterPending, UserRegisterResponseData>)
    ensures
        step@ == register_begin(allowed, nickname@, email@, password@),
{
    if allowed {
        let lookup = email.clone();
        Step::Ask(
            StoreRequest::FindByEmail(lookup),
            RegisterPending::Lookup { nickname, email, password },
        )
    } else {
        Step::Done(Err(AppError::FrequencyLimited))
    }
}

/// Starts a registration requested by `client_ip` at the instant `now` of
/// the limiter's clock.
pub fn user_register_at(
    state: &mut AppState,
    client_ip: &str,
    nickname: String,
    email: String,
    password: String,
    now: u128,
) -> (step: Step<RegisterPending, UserRegisterResponseData>)
    ensures
        final(state).jwt_token == old(state).jwt_token,
        final(state).rate_limiter.window_seconds() == old(state).rate_limiter.window_seconds(),
        register_requested_at(
            old(state).rate_limiter@,
            old(state).rate_limiter.window_seconds(),
            client_ip@,
            now as nat,
            nickname@,
            email@,
            password@,
            final(state).rate_limiter@,
            step@,
        ),
{
    let allowed = state.rate_limiter.check_and_update_at(client_ip, REGISTRATIONS_PER_WINDOW, now);
    register_admitted(allowed, nickname, email, password)
}

/// Starts a registration requested by `client_ip` now: consults the
/// limiter at the clock's reading, then does what `user_register_at` does.
pub fn user_register(
    state: &mut AppState,
    client_ip: &str,
    nickname: String,
    email: String,
    password: String,
) -> (step: Step<RegisterPending, UserRegisterResponseData>)
    ensures
        final(state).jwt_token == old(state).jwt_token,
        final(state).rate_limiter.window_seconds() == old(state).rate_limiter.window_seconds(),
        exists|now: nat| #[trigger]
            register_requested_at(
                old(state).rate_limiter@,
                old(state).rate_limiter.window_seconds(),
                client_ip@,
                now,
                nickname@,
                email@,
                password@,
                final(state).rate_limiter@,
                step@,
            ),
{
    let ghost before = state.rate_limiter@;
    let ghost qps = state.rate_limiter.window_seconds();
    let allowed = state.rate_limiter.check_and_update(client_ip, REGISTRATIONS_PER_WINDOW);
    let step = register_admitted(allowed, nickname, email, password);
    proof {
        let now = choose|now: nat| #[trigger]
            request_at(
                before,
                client_ip@,
                REGISTRATIONS_PER_WINDOW as nat,
                now,
                qps,
                allowed,
                state.rate_limiter@,
            );
        assert(register_requested_at(
            before,
            qps,
            client_ip@,
            now,
            nickname@,
            email@,
            password@,
            state.rate_limiter@,
            step@,
        ));
    }
    step
}

/// Goes on with a registration that found its e-mail address free, given
/// the outcome of hashing the password, the identifier drawn and the time.
pub fn register_prepare(
    nickname: String,
    email: String,
    hashed: Result<String, AppError>,
    user_id: String,
    created_at: i64,
) -> (step: Step<RegisterPending, UserRegisterResponseData>)
    ensures
        step@ == register_resume(
            RegisterWait::Lookup { nickname: nickname@, email: email@, password: Seq::empty() },
            Answer::Found(None),
            RegisterDraw {
                hashed: ok_text(hashed),
                user_id: user_id@,
                created_at,
            },
        ),
{
    match hashed {
        Ok(hash) => {
            let user = NewUser {
                user_id,
                nickname,
                password: hash,
                email,
                user_type: "normal".to_owned(),
                avatar: "v2/avatars/default.png".to_owned(),
                is_email_verified: false,
                is_phone_verified: false,
                created_at,
            };
            Step::Ask(StoreRequest::IsEmpty, RegisterPending::Count { user })
        },
        Err(_) => Step::Done(Err(AppError::Error)),
    }
}

/// Resumes a registration with the store's reply.
///
/// Where the e-mail address turned out to be free, the password is hashed,
/// an identifier is drawn and the clock is read: the step is then the one
/// that `register_resume` gives for some contribution of the machine that
/// `RegisterDraw::fits` admits. Everywhere else the contribution plays no
/// part.
pub fn user_register_resume(pending: RegisterPending, reply: StoreReply) -> (step: Step<
    RegisterPending,
    UserRegisterResponseData,
>)
    ensures
        exists|draw: RegisterDraw|
            draw.fits(pending@) && step@ == #[trigger] register_resume(pending@, reply@, draw),
{
    let ghost wait = pending@;
    let ghost answer = reply@;
    let ghost blank = RegisterDraw {
        hashed: None,
        user_id: Seq::new(USER_ID_LENGTH as nat, |i: int| '0'),
        created_at: 0,
    };
    let step = match reply {
        StoreReply::Failed => Step::Done(Err(AppError::Database)),
        reply => match pending {
            RegisterPending::Lookup { nickname, email, password } => match reply {
                StoreReply::Found(Some(_)) => Step::Done(Err(AppError::UserExists)),
                StoreReply::Found(None) => {
                    let hashed = password::hash(password.as_str(), REGISTRATION_COST);
                    let user_id = random_id(USER_ID_LENGTH);
                    let created_at = now_seconds();
                    let ghost draw = RegisterDraw {
                        hashed: ok_text(hashed),
                        user_id: user_id@,
                        created_at,
                    };
                    let step = register_prepare(nickname, email, hashed, user_id, created_at);
                    proof {
                        assert(draw.fits(wait));
                        assert(step@ == register_resume(wait, answer, draw));
                    }
                    return step;
                },
                _ => Step::Done(Err(AppError::Error)),
            },
            RegisterPending::Count { user } => match reply {
                StoreReply::Empty(first) => {
                    let mut user = user;
                    if first {
                        user.user_type = "root".to_owned();
                    } else {
                        user.user_type = "normal".to_owned();
                    }
                    Step::Ask(StoreRequest::Insert(user), RegisterPending::Insert)
                },
                _ => Step::Done(Err(AppError::Error)),
            },
            RegisterPending::Insert => match reply {
                StoreReply::Written => Step::Done(Ok(UserRegisterResponseData)),
                _ => Step::Done(Err(AppError::Error)),
            },
        },
    };
    proof {
        assert(blank.fits(wait));
        assert(step@ == register_resume(wait, answer, blank));
    }
    step
}

} // verus!
