//! What the account operations come to when the store answers truthfully.
//!
//! `run` plays an operation against a picture of the store: every request
//! is answered as `StoreModel` says, and the store changes as the request
//! asks. The laws below are stated of such runs, for every store and every
//! input.

use crate::error::AppError;
use crate::model::UserRegisterResponseData;
use crate::password::password_matches;
use crate::service::{
    login_begin, login_resume, profile_begin, profile_resume, register_begin, register_draft,
    register_resume, signature_fits, type_begin, type_resume, update_begin, update_resume,
    LoginWait, Move, ProfilePending, RegisterDraw, RegisterWait, TypeWait, UpdateWait,
    TOKEN_TTL_SECONDS,
};
use crate::store::{
    count_roots, status_active, status_deleted, stored, Answer, StoreModel,
};
use crate::token::{is_check_of, reads_as, signed_under, token_claims, AuthTokenView};
use crate::user::{
    is_grantable, is_user_type, type_admin, type_normal, type_root, UserPatchView,
    UserProfileView, UserView,
};
use vstd::prelude::*;

verus! {

/// The result of an operation that stands at `at`, and the store that it
/// leaves behind, where the store answers truthfully and gives a new user
/// the key `fresh`. An operation that asks more than `patience` times is
/// cut short with the generic error.
pub open spec fn run<P, T>(
    store: StoreModel,
    at: Move<P, T>,
    resume: spec_fn(P, Answer) -> Move<P, T>,
    fresh: u32,
    patience: nat,
) -> (Result<T, AppError>, StoreModel)
    decreases patience,
{
    match at {
        Move::Done(result) => (result, store),
        Move::Ask(query, wait) => if patience == 0 {
            (Err(AppError::Error), store)
        } else {
            run(
                store.after(query, fresh),
                resume(wait, store.answer(query)),
                resume,
                fresh,
                (patience - 1) as nat,
            )
        },
    }
}

/// A registration from start to end.
pub open spec fn registration(
    store: StoreModel,
    allowed: bool,
    nickname: Seq<char>,
    email: Seq<char>,
    password: Seq<char>,
    draw: RegisterDraw,
    fresh: u32,
) -> (Result<UserRegisterResponseData, AppError>, StoreModel) {
    run(
        store,
        register_begin(allowed, nickname, email, password),
        |wait: RegisterWait, answer: Answer| register_resume(wait, answer, draw),
        fresh,
        3,
    )
}

/// A login from start to end.
pub open spec fn login(
    store: StoreModel,
    email: Seq<char>,
    password: Seq<char>,
    signed: Seq<char>,
) -> (Result<Seq<char>, AppError>, StoreModel) {
    run(
        store,
        login_begin(email, password),
        |wait: LoginWait, answer: Answer| login_resume(wait, answer, signed),
        0,
        1,
    )
}

/// A profile lookup from start to end.
pub open spec fn profile_lookup(store: StoreModel, checked: Result<AuthTokenView, AppError>) -> (
    Result<UserProfileView, AppError>,
    StoreModel,
) {
    run(
        store,
        profile_begin(checked),
        |wait: ProfilePending, answer: Answer| profile_resume(answer),
        0,
        1,
    )
}

/// A profile update from start to end.
pub open spec fn profile_update(
    store: StoreModel,
    checked: Result<AuthTokenView, AppError>,
    nickname: Option<Seq<char>>,
    password: Option<Seq<char>>,
    hashed: Option<Seq<char>>,
) -> (Result<bool, AppError>, StoreModel) {
    run(
        store,
        update_begin(checked, nickname, password),
        |wait: UpdateWait, answer: Answer| update_resume(wait, answer, hashed),
        0,
        2,
    )
}

/// A type change from start to end.
pub open spec fn type_change(
    store: StoreModel,
    checked: Result<AuthTokenView, AppError>,
    user_id: u32,
    user_type: Seq<char>,
) -> (Result<bool, AppError>, StoreModel) {
    run(
        store,
        type_begin(checked, user_id, user_type),
        |wait: TypeWait, answer: Answer| type_resume(wait, answer),
        0,
        3,
    )
}

/// A client that the limiter turns away is refused with `FrequencyLimited`
/// before the store is asked anything.
pub proof fn law_limited_client_is_turned_away(
    store: StoreModel,
    nickname: Seq<char>,
    email: Seq<char>,
    password: Seq<char>,
    draw: RegisterDraw,
    fresh: u32,
)
    ensures
        registration(store, false, nickname, email, password, draw, fresh) == (
            Err::<UserRegisterResponseData, AppError>(AppError::FrequencyLimited),
            store,
        ),
{
    reveal_with_fuel(run, 4);
}

/// The first user of a store becomes `root`: a registration into a store
/// that counts as empty adds one user, with the type `root`. After a
/// registration into a store without users, the store holds that user
/// alone.
pub proof fn law_first_user_is_root(
    store: StoreModel,
    nickname: Seq<char>,
    email: Seq<char>,
    password: Seq<char>,
    draw: RegisterDraw,
    fresh: u32,
)
    requires
        store.is_vacant(),
        !store.holds_email(email),
        draw.hashed is Some,
    ensures
        ({
            let (result, after) = registration(
                store,
                true,
                nickname,
                email,
                password,
                draw,
                fresh,
            );
            &&& result == Ok::<UserRegisterResponseData, AppError>(UserRegisterResponseData)
            &&& after.users == store.users.push(
                stored(
                    register_draft(
                        nickname,
                        email,
                        draw.hashed->0,
                        draw.user_id,
                        draw.created_at,
                    ).typed(true),
                    fresh,
                ),
            )
            &&& after.users.last().user_type == type_root()
            &&& after.users.last().email == email
            &&& after.users.last().nickname == nickname
            &&& store == StoreModel::empty() ==> after.users.len() == 1
        }),
{
    reveal_with_fuel(run, 4);
}

/// Every later user becomes `normal`: a registration into a store that
/// holds a user who is not deleted, and none with the same e-mail address,
/// adds one user, with the type `normal`, and changes no other.
pub proof fn law_later_user_is_normal(
    store: StoreModel,
    nickname: Seq<char>,
    email: Seq<char>,
    password: Seq<char>,
    draw: RegisterDraw,
    fresh: u32,
)
    requires
        !store.is_vacant(),
        !store.holds_email(email),
        draw.hashed is Some,
    ensures
        ({
            let (result, after) = registration(
                store,
                true,
                nickname,
                email,
                password,
                draw,
                fresh,
            );
            &&& result == Ok::<UserRegisterResponseData, AppError>(UserRegisterResponseData)
            &&& after.users == store.users.push(
                stored(
                    register_draft(
                        nickname,
                        email,
                        draw.hashed->0,
                        draw.user_id,
                        draw.created_at,
                    ).typed(false),
                    fresh,
                ),
            )
            &&& after.users.last().user_type == type_normal()
        }),
{
    reveal_with_fuel(run, 4);
}

/// Registration makes no second `root`: a user that a registration adds
/// to a store that holds a user who is not deleted is not `root`.
pub proof fn law_registration_adds_no_second_root(
    store: StoreModel,
    allowed: bool,
    nickname: Seq<char>,
    email: Seq<char>,
    password: Seq<char>,
    draw: RegisterDraw,
    fresh: u32,
)
    requires
        !store.is_vacant(),
    ensures
        ({
            let after = registration(store, allowed, nickname, email, password, draw, fresh).1;
            &&& store.users.len() <= after.users.len() <= store.users.len() + 1
            &&& forall|i: int|
                0 <= i < after.users.len() && #[trigger] after.users[i].is_root() ==> i
                    < store.users.len() && store.users[i] == after.users[i]
        }),
{
    reveal_with_fuel(run, 4);
    reveal_strlit("root");
    reveal_strlit("normal");
    assert(type_root().len() != type_normal().len());
}

/// An e-mail address registers once: a registration under an address that
/// the store holds is refused with `UserExists`, and the store stays as it
/// is.
pub proof fn law_duplicate_email_is_refused(
    store: StoreModel,
    nickname: Seq<char>,
    email: Seq<char>,
    password: Seq<char>,
    draw: RegisterDraw,
    fresh: u32,
)
    requires
        store.holds_email(email),
    ensures
        registration(store, true, nickname, email, password, draw, fresh) == (
            Err::<UserRegisterResponseData, AppError>(AppError::UserExists),
            store,
        ),
{
    reveal_with_fuel(run, 4);
}

/// Of two registrations into an empty store under different e-mail
/// addresses, the first makes a `root` user and the second a `normal` one;
/// registering the first address once more is refused and adds nothing.
pub proof fn law_root_then_normal(
    first_nickname: Seq<char>,
    first_email: Seq<char>,
    first_password: Seq<char>,
    first_draw: RegisterDraw,
    first_key: u32,
    second_nickname: Seq<char>,
    second_email: Seq<char>,
    second_password: Seq<char>,
    second_draw: RegisterDraw,
    second_key: u32,
)
    requires
        first_email != second_email,
        first_draw.hashed is Some,
        second_draw.hashed is Some,
    ensures
        ({
            let one = registration(
                StoreModel::empty(),
                true,
                first_nickname,
                first_email,
                first_password,
                first_draw,
                first_key,
            ).1;
            let (result, two) = registration(
                one,
                true,
                second_nickname,
                second_email,
                second_password,
                second_draw,
                second_key,
            );
            &&& result is Ok
            &&& two.users.len() == 2
            &&& two.users[0].email == first_email && two.users[0].user_type == type_root()
            &&& two.users[1].email == second_email && two.users[1].user_type == type_normal()
            &&& registration(
                two,
                true,
                second_nickname,
                first_email,
                second_password,
                second_draw,
                second_key,
            ) == (Err::<UserRegisterResponseData, AppError>(AppError::UserExists), two)
        }),
{
    let none = StoreModel::empty();
    assert(!none.holds_email(first_email));
    law_first_user_is_root(
        none,
        first_nickname,
        first_email,
        first_password,
        first_draw,
        first_key,
    );
    let one = registration(
        StoreModel::empty(),
        true,
        first_nickname,
        first_email,
        first_password,
        first_draw,
        first_key,
    ).1;
    assert(!one.holds_email(second_email));
    assert(!one.is_vacant()) by {
        reveal_strlit("active");
        reveal_strlit("deleted");
        assert(status_active().len() != status_deleted().len());
        assert(one.users[0].status == status_active());
    }
    law_later_user_is_normal(
        one,
        second_nickname,
        second_email,
        second_password,
        second_draw,
        second_key,
    );
    let two = registration(
        one,
        true,
        second_nickname,
        second_email,
        second_password,
        second_draw,
        second_key,
    ).1;
    assert(two.users[0] == one.users[0]);
    assert(two.holds_email(first_email));
    law_duplicate_email_is_refused(
        two,
        second_nickname,
        first_email,
        second_password,
        second_draw,
        second_key,
    );
}

/// Registration keeps e-mail addresses unique: in a store where no two
/// users share an address, none do after a registration, however it ends.
pub proof fn law_registration_keeps_emails_unique(
    store: StoreModel,
    allowed: bool,
    nickname: Seq<char>,
    email: Seq<char>,
    password: Seq<char>,
    draw: RegisterDraw,
    fresh: u32,
)
    requires
        store.emails_are_unique(),
    ensures
        registration(store, allowed, nickname, email, password, draw, fresh).1.emails_are_unique(),
{
    reveal_with_fuel(run, 4);
    let after = registration(store, allowed, nickname, email, password, draw, fresh).1;
    if after != store {
        assert(!store.holds_email(email));
        assert forall|i: int, j: int| 0 <= i < j < after.users.len() implies after.users[i].email
            != after.users[j].email by {
            if j == store.users.len() {
                assert(store.users[i].email != email);
            }
        }
    }
}

/// Looking changes nothing: a login and a profile lookup leave the store
/// as it is, however they end.
pub proof fn law_reading_changes_nothing(
    store: StoreModel,
    email: Seq<char>,
    password: Seq<char>,
    signed: Seq<char>,
    checked: Result<AuthTokenView, AppError>,
)
    ensures
        login(store, email, password, signed).1 == store,
        profile_lookup(store, checked).1 == store,
{
    reveal_with_fuel(run, 2);
}

/// Who a user is does not change: a profile update and a type change,
/// however they end, leave the users of the store in their places, each
/// with its key, its identifier, its e-mail address and its time of
/// creation; and a profile update leaves every type as it is.
pub proof fn law_updates_keep_identity(
    store: StoreModel,
    checked: Result<AuthTokenView, AppError>,
    nickname: Option<Seq<char>>,
    password: Option<Seq<char>>,
    hashed: Option<Seq<char>>,
    user_id: u32,
    user_type: Seq<char>,
    i: int,
)
    requires
        0 <= i < store.users.len(),
    ensures
        ({
            let updated = profile_update(store, checked, nickname, password, hashed).1;
            let retyped = type_change(store, checked, user_id, user_type).1;
            &&& updated.users.len() == store.users.len()
            &&& updated.users[i] == (UserView {
                nickname: updated.users[i].nickname,
                password: updated.users[i].password,
                ..store.users[i]
            })
            &&& retyped.users.len() == store.users.len()
            &&& retyped.users[i] == (UserView {
                user_type: retyped.users[i].user_type,
                ..store.users[i]
            })
        }),
{
    reveal_with_fuel(run, 4);
}

/// A wrong password issues no token: a login with a password that does not
/// match the stored hash ends with `PasswordIncorrect`, whatever signing
/// would have given.
pub proof fn law_wrong_password_gets_no_token(
    store: StoreModel,
    email: Seq<char>,
    password: Seq<char>,
    signed: Seq<char>,
)
    requires
        store.find_by_email(email) matches Some(user) && !password_matches(password, user.password),
    ensures
        login(store, email, password, signed) == (
            Err::<Seq<char>, AppError>(AppError::PasswordIncorrect),
            store,
        ),
{
    reveal_with_fuel(run, 2);
}

/// A login with the right password returns the token that signing gives.
pub proof fn law_right_password_gets_the_token(
    store: StoreModel,
    email: Seq<char>,
    password: Seq<char>,
    token: Seq<char>,
)
    requires
        store.find_by_email(email) matches Some(user) && password_matches(password, user.password),
    ensures
        login(store, email, password, token) == (Ok::<Seq<char>, AppError>(token), store),
{
    reveal_with_fuel(run, 2);
}

/// Who registered can log in: after a registration under a new e-mail
/// address, a login under that address with the password of the
/// registration returns the token that signing gives, and a login with a
/// password that the stored hash does not match returns
/// `PasswordIncorrect`.
pub proof fn law_registered_user_can_log_in(
    store: StoreModel,
    nickname: Seq<char>,
    email: Seq<char>,
    password: Seq<char>,
    draw: RegisterDraw,
    fresh: u32,
    token: Seq<char>,
    other: Seq<char>,
)
    requires
        !store.holds_email(email),
        draw.hashed is Some,
        draw.fits(RegisterWait::Lookup { nickname, email, password }),
    ensures
        ({
            let after = registration(store, true, nickname, email, password, draw, fresh).1;
            &&& login(after, email, password, token) == (
                Ok::<Seq<char>, AppError>(token),
                after,
            )
            &&& !password_matches(other, draw.hashed->0) ==> login(after, email, other, token)
                == (Err::<Seq<char>, AppError>(AppError::PasswordIncorrect), after)
        }),
{
    reveal_with_fuel(run, 4);
    let after = registration(store, true, nickname, email, password, draw, fresh).1;
    let added = stored(
        register_draft(nickname, email, draw.hashed->0, draw.user_id, draw.created_at).typed(
            store.is_vacant(),
        ),
        fresh,
    );
    assert(after.users == store.users.push(added));
    let last = store.users.len() as int;
    assert(after.users[last].email == email);
    assert(after.holds_email(email));
    let found = choose|i: int|
        0 <= i < after.users.len() && #[trigger] after.users[i].email == email;
    if found < last {
        assert(store.users[found].email == email);
        assert(store.holds_email(email));
    }
    assert(after.find_by_email(email) == Some(added));
}

/// A login under an e-mail address that the store does not hold ends with
/// `UserNotFound`.
pub proof fn law_unknown_user_cannot_log_in(
    store: StoreModel,
    email: Seq<char>,
    password: Seq<char>,
    signed: Seq<char>,
)
    requires
        !store.holds_email(email),
    ensures
        login(store, email, password, signed) == (
            Err::<Seq<char>, AppError>(AppError::UserNotFound),
            store,
        ),
{
    reveal_with_fuel(run, 2);
}

/// The bearer of a token sees the record stored under the token's subject:
/// its nickname, e-mail address and type, as they stand in the store.
pub proof fn law_profile_is_as_stored(store: StoreModel, said: AuthTokenView)
    requires
        store.holds_email(said.subject),
    ensures
        profile_lookup(store, Ok(said)) == (
            Ok::<UserProfileView, AppError>(store.find_by_email(said.subject)->0.profile()),
            store,
        ),
        store.find_by_email(said.subject)->0.email == said.subject,
{
    reveal_with_fuel(run, 2);
}

/// The token of a login opens the profile of the user who logged in: where
/// a login succeeds, its token is signed with the service's secret and
/// expires `TOKEN_TTL_SECONDS` after its issue; and where that token is
/// accepted, the profile lookup returns the nickname, e-mail address and
/// type stored under the e-mail address of the login.
pub proof fn law_login_token_opens_stored_profile(
    store: StoreModel,
    secret: Seq<char>,
    email: Seq<char>,
    password: Seq<char>,
    signed: Seq<char>,
    said: AuthTokenView,
)
    requires
        signature_fits(
            secret,
            LoginWait { password },
            Answer::Found(store.find_by_email(email)),
            signed,
        ),
        login(store, email, password, signed).0 matches Ok(token) && reads_as(token, said),
    ensures
        ({
            let token = login(store, email, password, signed).0->Ok_0;
            &&& signed_under(token, secret)
            &&& token_claims(token) matches Some(claims) && said.expiry == claims.1
                + TOKEN_TTL_SECONDS
            &&& said.subject == email
            &&& store.find_by_email(email) matches Some(user) && user.email == email
                && password_matches(password, user.password) && profile_lookup(store, Ok(said))
                == (Ok::<UserProfileView, AppError>(user.profile()), store)
        }),
{
    reveal_with_fuel(run, 2);
}

/// A token whose subject the store no longer holds gets `UserNotFound`.
pub proof fn law_profile_of_missing_user(store: StoreModel, said: AuthTokenView)
    requires
        !store.holds_email(said.subject),
    ensures
        profile_lookup(store, Ok(said)) == (
            Err::<UserProfileView, AppError>(AppError::UserNotFound),
            store,
        ),
{
    reveal_with_fuel(run, 2);
}

/// A token that the secret did not sign opens nothing, and neither does
/// one whose payload cannot be read: whatever the check of such a token
/// comes to, each operation that takes a token ends with `InvalidToken`
/// and leaves the store as it is.
pub proof fn law_token_that_does_not_fit_opens_nothing(
    store: StoreModel,
    token: Seq<char>,
    secret: Seq<char>,
    checked: Result<AuthTokenView, AppError>,
    nickname: Option<Seq<char>>,
    password: Option<Seq<char>>,
    hashed: Option<Seq<char>>,
    user_id: u32,
    user_type: Seq<char>,
)
    requires
        is_check_of(token, secret, checked),
        !signed_under(token, secret) || token_claims(token) is None,
    ensures
        profile_lookup(store, checked) == (
            Err::<UserProfileView, AppError>(AppError::InvalidToken),
            store,
        ),
        profile_update(store, checked, nickname, password, hashed) == (
            Err::<bool, AppError>(AppError::InvalidToken),
            store,
        ),
        type_change(store, checked, user_id, user_type) == (
            Err::<bool, AppError>(AppError::InvalidToken),
            store,
        ),
{
    reveal_with_fuel(run, 4);
}

/// A token that does not pass the check opens nothing: each operation that
/// takes a token ends with the kind of the check's failure and leaves the
/// store as it is.
pub proof fn law_refused_token_opens_nothing(
    store: StoreModel,
    kind: AppError,
    nickname: Option<Seq<char>>,
    password: Option<Seq<char>>,
    hashed: Option<Seq<char>>,
    user_id: u32,
    user_type: Seq<char>,
)
    ensures
        profile_lookup(store, Err(kind)) == (Err::<UserProfileView, AppError>(kind), store),
        profile_update(store, Err(kind), nickname, password, hashed) == (
            Err::<bool, AppError>(kind),
            store,
        ),
        type_change(store, Err(kind), user_id, user_type) == (Err::<bool, AppError>(kind), store),
{
    reveal_with_fuel(run, 4);
}

/// A profile update writes the fields that the request names and no
/// others: the nickname if one is given, the hash of the password if one
/// is given, each on the bearer's record alone.
pub proof fn law_update_writes_named_fields(
    store: StoreModel,
    said: AuthTokenView,
    nickname: Option<Seq<char>>,
    password: Option<Seq<char>>,
    hashed: Option<Seq<char>>,
)
    requires
        store.holds_email(said.subject),
        password is Some ==> hashed is Some,
    ensures
        ({
            let bearer = store.find_by_email(said.subject)->0;
            let patch = UserPatchView {
                nickname,
                password: if password is Some {
                    hashed
                } else {
                    None
                },
                user_type: None,
            };
            let (result, after) = profile_update(store, Ok(said), nickname, password, hashed);
            &&& result == Ok::<bool, AppError>(true)
            &&& after == store.updated(bearer.id, patch)
            &&& after.users.len() == store.users.len()
            &&& forall|i: int|
                0 <= i < store.users.len() ==> #[trigger] after.users[i] == if store.users[i].id
                    == bearer.id {
                    store.users[i].patched(patch)
                } else {
                    store.users[i]
                }
        }),
{
    reveal_with_fuel(run, 3);
    let bearer = store.find_by_email(said.subject)->0;
    assert(store.holds_id(bearer.id));
}

/// Only an `admin` changes types: a caller whose record is missing or has
/// another type gets `Forbidden`, and the store stays as it is.
pub proof fn law_non_admin_is_forbidden(
    store: StoreModel,
    said: AuthTokenView,
    user_id: u32,
    user_type: Seq<char>,
)
    requires
        !(store.find_by_email(said.subject) matches Some(caller) && caller.is_admin()),
    ensures
        type_change(store, Ok(said), user_id, user_type) == (
            Err::<bool, AppError>(AppError::Forbidden),
            store,
        ),
{
    reveal_with_fuel(run, 4);
}

/// The `root` user is out of reach: an `admin` who targets a `root` user
/// gets `Forbidden`, and the store, the target's type with it, stays as it
/// is.
pub proof fn law_root_is_protected(
    store: StoreModel,
    said: AuthTokenView,
    user_id: u32,
    user_type: Seq<char>,
)
    requires
        store.find_by_email(said.subject) matches Some(caller) && caller.is_admin(),
        store.find_by_id(user_id) matches Some(target) && target.is_root(),
    ensures
        type_change(store, Ok(said), user_id, user_type) == (
            Err::<bool, AppError>(AppError::Forbidden),
            store,
        ),
{
    reveal_with_fuel(run, 4);
}

/// A target that the store does not hold is reported as `Unauthorized`.
pub proof fn law_missing_target_is_unauthorized(
    store: StoreModel,
    said: AuthTokenView,
    user_id: u32,
    user_type: Seq<char>,
)
    requires
        store.find_by_email(said.subject) matches Some(caller) && caller.is_admin(),
        !store.holds_id(user_id),
    ensures
        type_change(store, Ok(said), user_id, user_type) == (
            Err::<bool, AppError>(AppError::Unauthorized),
            store,
        ),
{
    reveal_with_fuel(run, 4);
}

/// An `admin` changes the type of any user but `root`, to `admin` or to
/// `normal`: the change succeeds, the users with the target's key get the
/// new type, and nothing else in the store changes.
pub proof fn law_admin_changes_type(
    store: StoreModel,
    said: AuthTokenView,
    user_id: u32,
    user_type: Seq<char>,
)
    requires
        store.find_by_email(said.subject) matches Some(caller) && caller.is_admin(),
        store.find_by_id(user_id) matches Some(target) && !target.is_root(),
        is_grantable(user_type),
    ensures
        ({
            let (result, after) = type_change(store, Ok(said), user_id, user_type);
            &&& result == Ok::<bool, AppError>(true)
            &&& after.users.len() == store.users.len()
            &&& forall|i: int|
                0 <= i < store.users.len() ==> #[trigger] after.users[i] == if store.users[i].id
                    == user_id {
                    UserView { user_type, ..store.users[i] }
                } else {
                    store.users[i]
                }
        }),
{
    reveal_with_fuel(run, 4);
    let target = store.find_by_id(user_id)->0;
    assert(target.id == user_id);
    assert(store.holds_id(target.id));
}

/// Nobody is made `root`, and nothing but `admin` and `normal` is given:
/// a type change that asks for another type writes nothing, whoever asks
/// and whoever is the target; where caller and target would have passed, it
/// ends with `Forbidden`.
pub proof fn law_other_types_are_not_given(
    store: StoreModel,
    checked: Result<AuthTokenView, AppError>,
    user_id: u32,
    user_type: Seq<char>,
)
    requires
        !is_grantable(user_type),
    ensures
        type_change(store, checked, user_id, user_type).0 is Err,
        type_change(store, checked, user_id, user_type).1 == store,
        (checked matches Ok(said) && store.find_by_email(said.subject) matches Some(caller)
            && caller.is_admin() && store.holds_id(user_id)) ==> type_change(
            store,
            checked,
            user_id,
            user_type,
        ).0 == Err::<bool, AppError>(AppError::Forbidden),
{
    reveal_with_fuel(run, 4);
}

/// Among users of whom each is `root` exactly where the other is, there
/// are as many `root` users on one side as on the other.
proof fn lemma_same_roots(one: Seq<UserView>, other: Seq<UserView>)
    requires
        one.len() == other.len(),
        forall|i: int| 0 <= i < one.len() ==> one[i].is_root() == other[i].is_root(),
    ensures
        count_roots(one) == count_roots(other),
    decreases one.len(),
{
    if one.len() > 0 {
        lemma_same_roots(one.drop_last(), other.drop_last());
    }
}

/// Changes keep the `root` users: in a store whose keys are unique, there
/// are as many `root` users after a type change as before, however it
/// ends and whatever type it asks for; the same holds of a profile update;
/// and where every user had one of the three types, every user still has.
pub proof fn law_changes_keep_the_roots(
    store: StoreModel,
    checked: Result<AuthTokenView, AppError>,
    user_id: u32,
    user_type: Seq<char>,
    nickname: Option<Seq<char>>,
    password: Option<Seq<char>>,
    hashed: Option<Seq<char>>,
)
    requires
        store.ids_are_unique(),
    ensures
        type_change(store, checked, user_id, user_type).1.roots() == store.roots(),
        profile_update(store, checked, nickname, password, hashed).1.roots() == store.roots(),
        store.types_are_valid() ==> type_change(
            store,
            checked,
            user_id,
            user_type,
        ).1.types_are_valid(),
        store.types_are_valid() ==> profile_update(
            store,
            checked,
            nickname,
            password,
            hashed,
        ).1.types_are_valid(),
{
    reveal_with_fuel(run, 4);
    reveal_strlit("root");
    reveal_strlit("admin");
    reveal_strlit("normal");
    assert(type_root().len() != type_admin().len());
    assert(type_root().len() != type_normal().len());
    let retyped = type_change(store, checked, user_id, user_type).1;
    let updated = profile_update(store, checked, nickname, password, hashed).1;
    if retyped != store {
        let target = store.find_by_id(user_id)->0;
        let at = choose|i: int|
            0 <= i < store.users.len() && #[trigger] store.users[i].id == user_id;
        assert(target == store.users[at]);
        assert forall|i: int| 0 <= i < store.users.len() implies store.users[i].is_root()
            == retyped.users[i].is_root() by {
            if store.users[i].id == target.id {
                assert(i == at);
            }
        }
        assert forall|i: int| 0 <= i < retyped.users.len() && store.types_are_valid()
            implies is_user_type((#[trigger] retyped.users[i]).user_type) by {
            assert(is_user_type(store.users[i].user_type));
        }
    }
    lemma_same_roots(store.users, retyped.users);
    assert forall|i: int| 0 <= i < store.users.len() implies store.users[i].is_root()
        == updated.users[i].is_root() by {}
    assert forall|i: int| 0 <= i < updated.users.len() && store.types_are_valid()
        implies is_user_type((#[trigger] updated.users[i]).user_type) by {
        assert(is_user_type(store.users[i].user_type));
    }
    lemma_same_roots(store.users, updated.users);
}

/// Registration counts the `root` users: a registration that succeeds in a
/// store that counts as empty adds one `root` user, and every other
/// registration, however it ends, leaves their number as it is; and where
/// every user had one of the three types, every user still has.
pub proof fn law_registration_counts_the_roots(
    store: StoreModel,
    allowed: bool,
    nickname: Seq<char>,
    email: Seq<char>,
    password: Seq<char>,
    draw: RegisterDraw,
    fresh: u32,
)
    ensures
        ({
            let (result, after) = registration(
                store,
                allowed,
                nickname,
                email,
                password,
                draw,
                fresh,
            );
            &&& after.roots() == store.roots() + if result is Ok && store.is_vacant() {
                1nat
            } else {
                0nat
            }
            &&& store.types_are_valid() ==> after.types_are_valid()
        }),
{
    reveal_with_fuel(run, 4);
    reveal_strlit("root");
    reveal_strlit("normal");
    assert(type_root().len() != type_normal().len());
    let after = registration(store, allowed, nickname, email, password, draw, fresh).1;
    if after != store {
        assert(after.users.drop_last() =~= store.users);
        assert forall|i: int| 0 <= i < after.users.len() && store.types_are_valid()
            implies is_user_type((#[trigger] after.users[i]).user_type) by {
            if i < store.users.len() {
                assert(is_user_type(store.users[i].user_type));
            }
        }
    }
}

} // verus!
