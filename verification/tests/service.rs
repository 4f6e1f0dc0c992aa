use auth_core::error::AppError;
use auth_core::model::UserRegisterResponseData;
use auth_core::password;
use auth_core::rate_limit::RateLimiter;
use auth_core::service::{
    get_login_user_info, get_login_user_info_resume, login_sign_request, register_prepare,
    set_user_profile,
    set_user_profile_resume, set_user_type, set_user_type_resume, user_login, user_login_resume,
    user_register, user_register_at, user_register_resume, AppState, RegisterPending, Step,
    TypePending, UpdatePending,
};
use auth_core::store::{StoreReply, StoreRequest};
use auth_core::token;
use auth_core::user::{NewUser, User, UserProfile};

/// A store in memory that answers as a working store would.
struct Store {
    users: Vec<User>,
    next_id: u32,
    requests: usize,
    broken: bool,
}

impl Store {
    fn new() -> Store {
        Store { users: Vec::new(), next_id: 1, requests: 0, broken: false }
    }

    fn by_email(&self, email: &str) -> Option<&User> {
        self.users.iter().find(|u| u.email == email)
    }

    fn perform(&mut self, request: StoreRequest) -> StoreReply {
        self.requests += 1;
        if self.broken {
            return StoreReply::Failed;
        }
        match request {
            StoreRequest::FindByEmail(email) => StoreReply::Found(self.by_email(&email).cloned()),
            StoreRequest::FindById(id) => {
                StoreReply::Found(self.users.iter().find(|u| u.id == id).cloned())
            }
            StoreRequest::IsEmpty => {
                StoreReply::Empty(self.users.iter().all(|u| u.status == "deleted"))
            }
            StoreRequest::Insert(new) => {
                let id = self.next_id;
                self.next_id += 1;
                self.users.push(stored(new, id));
                StoreReply::Written
            }
            StoreRequest::Update(id, patch) => match self.users.iter_mut().find(|u| u.id == id) {
                Some(user) => {
                    if let Some(nickname) = patch.nickname {
                        user.nickname = nickname;
                    }
                    if let Some(password) = patch.password {
                        user.password = password;
                    }
                    if let Some(user_type) = patch.user_type {
                        user.user_type = user_type;
                    }
                    StoreReply::Written
                }
                None => StoreReply::Failed,
            },
        }
    }
}

fn stored(new: NewUser, id: u32) -> User {
    User {
        id,
        user_id: new.user_id,
        nickname: new.nickname,
        password: new.password,
        email: new.email,
        avatar: new.avatar,
        user_type: new.user_type,
        status: "active".to_string(),
        is_email_verified: new.is_email_verified,
        is_phone_verified: new.is_phone_verified,
        failed_login_attempts: 0,
        last_login_ip: None,
        last_login_at: None,
        created_at: new.created_at,
        updated_at: None,
        deleted_at: None,
    }
}

fn drive<P, T>(
    store: &mut Store,
    mut step: Step<P, T>,
    resume: impl Fn(P, StoreReply) -> Step<P, T>,
) -> Result<T, AppError> {
    loop {
        match step {
            Step::Done(result) => return result,
            Step::Ask(request, pending) => {
                let reply = store.perform(request);
                step = resume(pending, reply);
            }
        }
    }
}

fn state() -> AppState {
    AppState { rate_limiter: RateLimiter::new(60), jwt_token: "top secret".to_string() }
}

fn register(
    state: &mut AppState,
    store: &mut Store,
    ip: &str,
    nickname: &str,
    email: &str,
    password: &str,
) -> Result<UserRegisterResponseData, AppError> {
    let step = user_register(state, ip, nickname.to_string(), email.to_string(), password.to_string());
    drive(store, step, user_register_resume)
}

fn login(state: &AppState, store: &mut Store, email: &str, password: &str) -> Result<String, AppError> {
    let step = user_login(email.to_string(), password.to_string());
    drive(store, step, |pending, reply| user_login_resume(state, pending, reply))
}

fn profile(state: &AppState, store: &mut Store, token: &str) -> Result<UserProfile, AppError> {
    let step = get_login_user_info(state, token.to_string());
    drive(store, step, get_login_user_info_resume)
}

fn update(
    state: &AppState,
    store: &mut Store,
    token: &str,
    nickname: Option<&str>,
    password: Option<&str>,
) -> Result<bool, AppError> {
    let step = set_user_profile(
        state,
        token.to_string(),
        nickname.map(|s| s.to_string()),
        password.map(|s| s.to_string()),
    );
    drive(store, step, set_user_profile_resume)
}

fn change_type(
    state: &AppState,
    store: &mut Store,
    token: &str,
    user_id: u32,
    user_type: &str,
) -> Result<bool, AppError> {
    let step = set_user_type(state, token.to_string(), user_id, user_type.to_string());
    drive(store, step, set_user_type_resume)
}

/// A store with Alice (root), Bob (normal) and Carol (admin).
fn populated(state: &mut AppState) -> Store {
    let mut store = Store::new();
    register(state, &mut store, "10.0.0.1", "Alice", "a@x.com", "pw123456").unwrap();
    register(state, &mut store, "10.0.0.2", "Bob", "b@x.com", "pw123456").unwrap();
    register(state, &mut store, "10.0.0.3", "Carol", "c@x.com", "pw-carol").unwrap();
    store.users[2].user_type = "admin".to_string();
    store
}

#[test]
fn first_user_becomes_root() {
    let mut state = state();
    let mut store = Store::new();
    assert_eq!(
        register(&mut state, &mut store, "10.0.0.1", "Alice", "a@x.com", "pw123456"),
        Ok(UserRegisterResponseData)
    );
    assert_eq!(store.users.len(), 1);
    assert_eq!(store.users[0].user_type, "root");
}

#[test]
fn second_user_becomes_normal() {
    let mut state = state();
    let mut store = Store::new();
    register(&mut state, &mut store, "10.0.0.1", "Alice", "a@x.com", "pw123456").unwrap();
    assert_eq!(
        register(&mut state, &mut store, "10.0.0.2", "Bob", "b@x.com", "pw123456"),
        Ok(UserRegisterResponseData)
    );
    assert_eq!(store.users.len(), 2);
    assert_eq!(store.users[0].user_type, "root");
    assert_eq!(store.users[1].user_type, "normal");
}

#[test]
fn store_of_deleted_users_counts_as_empty() {
    let mut state = state();
    let mut store = Store::new();
    register(&mut state, &mut store, "10.0.0.1", "Alice", "a@x.com", "pw123456").unwrap();
    store.users[0].status = "deleted".to_string();
    register(&mut state, &mut store, "10.0.0.2", "Bob", "b@x.com", "pw123456").unwrap();
    assert_eq!(store.users[1].user_type, "root");
    register(&mut state, &mut store, "10.0.0.3", "Carol", "c@x.com", "pw123456").unwrap();
    assert_eq!(store.users[2].user_type, "normal");
}

#[test]
fn duplicate_email_is_refused_and_adds_no_row() {
    let mut state = state();
    let mut store = Store::new();
    register(&mut state, &mut store, "10.0.0.1", "Alice", "a@x.com", "pw123456").unwrap();
    assert_eq!(
        register(&mut state, &mut store, "10.0.0.2", "Alice again", "a@x.com", "other-pw"),
        Err(AppError::UserExists)
    );
    assert_eq!(store.users.len(), 1);
    assert_eq!(store.users[0].nickname, "Alice");
}

#[test]
fn registered_user_has_the_fields_that_registration_decides() {
    let mut state = state();
    let mut store = Store::new();
    register(&mut state, &mut store, "10.0.0.1", "Alice", "a@x.com", "pw123456").unwrap();
    let user = &store.users[0];
    assert_eq!(user.nickname, "Alice");
    assert_eq!(user.email, "a@x.com");
    assert_eq!(user.avatar, "v2/avatars/default.png");
    assert!(!user.is_email_verified);
    assert!(!user.is_phone_verified);
    assert_eq!(user.user_id.chars().count(), 8);
    assert!(user.user_id.chars().all(|c| c.is_ascii_alphanumeric()));
    assert_ne!(user.password, "pw123456");
    assert!(user.password.starts_with("$2a$08$"));
    assert!(password::verify("pw123456", &user.password));
    let now = std::time::SystemTime::now()
        .duration_since(std::time::UNIX_EPOCH)
        .unwrap()
        .as_secs() as i64;
    assert!((now - user.created_at).abs() <= 5);
}

#[test]
fn user_ids_differ() {
    let mut state = state();
    let mut store = Store::new();
    register(&mut state, &mut store, "10.0.0.1", "Alice", "a@x.com", "pw123456").unwrap();
    register(&mut state, &mut store, "10.0.0.2", "Bob", "b@x.com", "pw123456").unwrap();
    assert_ne!(store.users[0].user_id, store.users[1].user_id);
    assert_ne!(store.users[0].password, store.users[1].password);
}

#[test]
fn second_registration_of_a_client_in_the_window_is_limited() {
    let mut state = state();
    let mut store = Store::new();
    register(&mut state, &mut store, "10.0.0.1", "Alice", "a@x.com", "pw123456").unwrap();
    let asked = store.requests;
    assert_eq!(
        register(&mut state, &mut store, "10.0.0.1", "Bob", "b@x.com", "pw123456"),
        Err(AppError::FrequencyLimited)
    );
    assert_eq!(store.requests, asked);
    assert_eq!(store.users.len(), 1);
}

#[test]
fn client_is_admitted_again_after_the_window() {
    const SECOND: u128 = 1_000_000_000;
    let mut state = state();
    let step = user_register_at(
        &mut state,
        "10.0.0.1",
        "Alice".to_string(),
        "a@x.com".to_string(),
        "pw123456".to_string(),
        0,
    );
    assert!(matches!(step, Step::Ask(StoreRequest::FindByEmail(_), RegisterPending::Lookup { .. })));
    let step = user_register_at(
        &mut state,
        "10.0.0.1",
        "Bob".to_string(),
        "b@x.com".to_string(),
        "pw123456".to_string(),
        59 * SECOND,
    );
    assert!(matches!(step, Step::Done(Err(AppError::FrequencyLimited))));
    let step = user_register_at(
        &mut state,
        "10.0.0.1",
        "Bob".to_string(),
        "b@x.com".to_string(),
        "pw123456".to_string(),
        60 * SECOND,
    );
    match step {
        Step::Ask(StoreRequest::FindByEmail(email), RegisterPending::Lookup { nickname, .. }) => {
            assert_eq!(email, "b@x.com");
            assert_eq!(nickname, "Bob");
        }
        other => panic!("{:?}", other),
    }
}

#[test]
fn registration_asks_the_store_in_order() {
    let mut state = state();
    let step = user_register(
        &mut state,
        "10.0.0.1",
        "Alice".to_string(),
        "a@x.com".to_string(),
        "pw123456".to_string(),
    );
    let pending = match step {
        Step::Ask(StoreRequest::FindByEmail(email), pending) => {
            assert_eq!(email, "a@x.com");
            pending
        }
        other => panic!("{:?}", other),
    };
    let pending = match user_register_resume(pending, StoreReply::Found(None)) {
        Step::Ask(StoreRequest::IsEmpty, pending) => pending,
        other => panic!("{:?}", other),
    };
    let pending = match user_register_resume(pending, StoreReply::Empty(false)) {
        Step::Ask(StoreRequest::Insert(user), pending) => {
            assert_eq!(user.user_type, "normal");
            assert_eq!(user.email, "a@x.com");
            pending
        }
        other => panic!("{:?}", other),
    };
    assert!(matches!(
        user_register_resume(pending, StoreReply::Written),
        Step::Done(Ok(UserRegisterResponseData))
    ));
}

#[test]
fn failed_hashing_ends_the_registration() {
    let step = register_prepare(
        "Alice".to_string(),
        "a@x.com".to_string(),
        Err(AppError::Error),
        "Ab3dEf9h".to_string(),
        1_700_000_000,
    );
    assert!(matches!(step, Step::Done(Err(AppError::Error))));
}

#[test]
fn prepared_registration_waits_for_the_count() {
    let step = register_prepare(
        "Alice".to_string(),
        "a@x.com".to_string(),
        Ok("$2a$08$hash".to_string()),
        "Ab3dEf9h".to_string(),
        1_700_000_000,
    );
    match step {
        Step::Ask(StoreRequest::IsEmpty, RegisterPending::Count { user }) => {
            assert_eq!(
                user,
                NewUser {
                    user_id: "Ab3dEf9h".to_string(),
                    nickname: "Alice".to_string(),
                    password: "$2a$08$hash".to_string(),
                    email: "a@x.com".to_string(),
                    user_type: "normal".to_string(),
                    avatar: "v2/avatars/default.png".to_string(),
                    is_email_verified: false,
                    is_phone_verified: false,
                    created_at: 1_700_000_000,
                }
            );
        }
        other => panic!("{:?}", other),
    }
}

#[test]
fn store_failure_is_a_database_error() {
    let mut state = state();
    let mut store = populated(&mut state);
    let alice = login(&state, &mut store, "a@x.com", "pw123456").unwrap();
    store.broken = true;
    assert_eq!(
        register(&mut state, &mut store, "10.0.0.9", "Dave", "d@x.com", "pw123456"),
        Err(AppError::Database)
    );
    assert_eq!(login(&state, &mut store, "a@x.com", "pw123456"), Err(AppError::Database));
    assert_eq!(profile(&state, &mut store, &alice), Err(AppError::Database));
    assert_eq!(update(&state, &mut store, &alice, Some("A"), None), Err(AppError::Database));
    assert_eq!(change_type(&state, &mut store, &alice, 2, "admin"), Err(AppError::Database));
}

#[test]
fn store_failure_at_any_step_of_registration() {
    let lookup = || RegisterPending::Lookup {
        nickname: "A".to_string(),
        email: "a@x.com".to_string(),
        password: "pw".to_string(),
    };
    assert!(matches!(
        user_register_resume(lookup(), StoreReply::Failed),
        Step::Done(Err(AppError::Database))
    ));
    assert!(matches!(
        user_register_resume(RegisterPending::Insert, StoreReply::Failed),
        Step::Done(Err(AppError::Database))
    ));
}

#[test]
fn reply_out_of_turn_is_an_internal_error() {
    let lookup = RegisterPending::Lookup {
        nickname: "A".to_string(),
        email: "a@x.com".to_string(),
        password: "pw".to_string(),
    };
    assert!(matches!(
        user_register_resume(lookup, StoreReply::Written),
        Step::Done(Err(AppError::Error))
    ));
    assert!(matches!(
        user_register_resume(RegisterPending::Insert, StoreReply::Empty(true)),
        Step::Done(Err(AppError::Error))
    ));
    assert!(matches!(
        set_user_type_resume(TypePending::Write, StoreReply::Found(None)),
        Step::Done(Err(AppError::Error))
    ));
    assert!(matches!(
        set_user_profile_resume(UpdatePending::Write, StoreReply::Empty(false)),
        Step::Done(Err(AppError::Error))
    ));
    let state = state();
    let step = user_login("a@x.com".to_string(), "pw".to_string());
    let pending = match step {
        Step::Ask(_, pending) => pending,
        other => panic!("{:?}", other),
    };
    assert!(matches!(
        user_login_resume(&state, pending, StoreReply::Written),
        Step::Done(Err(AppError::Error))
    ));
}

#[test]
fn login_token_opens_the_stored_profile() {
    let mut state = state();
    let mut store = populated(&mut state);
    let token = login(&state, &mut store, "b@x.com", "pw123456").unwrap();
    assert_eq!(
        profile(&state, &mut store, &token),
        Ok(UserProfile {
            nickname: "Bob".to_string(),
            email: "b@x.com".to_string(),
            user_type: "normal".to_string(),
        })
    );
    let token = login(&state, &mut store, "a@x.com", "pw123456").unwrap();
    assert_eq!(
        profile(&state, &mut store, &token),
        Ok(UserProfile {
            nickname: "Alice".to_string(),
            email: "a@x.com".to_string(),
            user_type: "root".to_string(),
        })
    );
}

#[test]
fn login_token_names_the_user_and_lasts_thirty_days() {
    let mut state = state();
    let mut store = populated(&mut state);
    let now = std::time::SystemTime::now()
        .duration_since(std::time::UNIX_EPOCH)
        .unwrap()
        .as_secs() as i64;
    let issued = login(&state, &mut store, "b@x.com", "pw123456").unwrap();
    let said = token::verify(&issued, "top secret").unwrap();
    assert_eq!(said.subject, "b@x.com");
    assert!((said.expiry - (now + 2_592_000)).abs() <= 5);
    assert!(token::verify(&issued, "another secret").is_err());
    assert!(token::verify(&issued, "").is_err());
}

#[test]
fn login_asks_the_signer_for_thirty_days_under_the_secret() {
    let state = state();
    let mut new = stored(
        NewUser {
            user_id: "Ab3dEf9h".to_string(),
            nickname: "Bob".to_string(),
            password: "$2a$08$hash".to_string(),
            email: "b@x.com".to_string(),
            user_type: "normal".to_string(),
            avatar: "v2/avatars/default.png".to_string(),
            is_email_verified: false,
            is_phone_verified: false,
            created_at: 1_700_000_000,
        },
        7,
    );
    new.nickname = "Bobby".to_string();
    let request = login_sign_request(&state, new);
    assert_eq!(request.subject, "b@x.com");
    assert_eq!(request.secret, "top secret");
    assert_eq!(request.ttl_seconds, 2_592_000);
    assert_eq!(request.ttl_seconds, 30 * 24 * 60 * 60);
}

#[test]
fn wrong_password_is_refused() {
    let mut state = state();
    let mut store = populated(&mut state);
    assert_eq!(login(&state, &mut store, "b@x.com", "wrong"), Err(AppError::PasswordIncorrect));
    assert_eq!(login(&state, &mut store, "b@x.com", ""), Err(AppError::PasswordIncorrect));
    assert_eq!(login(&state, &mut store, "b@x.com", "pw-carol"), Err(AppError::PasswordIncorrect));
}

#[test]
fn unreadable_stored_hash_is_a_wrong_password() {
    let mut state = state();
    let mut store = populated(&mut state);
    store.users[1].password = "not a hash".to_string();
    assert_eq!(login(&state, &mut store, "b@x.com", "pw123456"), Err(AppError::PasswordIncorrect));
}

#[test]
fn unknown_user_cannot_log_in() {
    let mut state = state();
    let mut store = populated(&mut state);
    assert_eq!(login(&state, &mut store, "z@x.com", "pw123456"), Err(AppError::UserNotFound));
}

#[test]
fn bad_token_is_invalid_everywhere() {
    let mut state = state();
    let mut store = populated(&mut state);
    let asked = store.requests;
    let foreign = token::sign("c@x.com".to_string(), "another secret", 3600).unwrap();
    let expired = token::sign("c@x.com".to_string(), "top secret", -3600).unwrap();
    for bad in ["", "garbage", foreign.as_str(), expired.as_str()] {
        assert_eq!(profile(&state, &mut store, bad), Err(AppError::InvalidToken));
        assert_eq!(update(&state, &mut store, bad, Some("X"), None), Err(AppError::InvalidToken));
        assert_eq!(change_type(&state, &mut store, bad, 2, "admin"), Err(AppError::InvalidToken));
    }
    assert_eq!(store.requests, asked);
    assert_eq!(store.users[1].user_type, "normal");
}

#[test]
fn profile_of_a_user_who_is_gone() {
    let mut state = state();
    let mut store = populated(&mut state);
    let token = login(&state, &mut store, "b@x.com", "pw123456").unwrap();
    store.users.remove(1);
    assert_eq!(profile(&state, &mut store, &token), Err(AppError::UserNotFound));
    assert_eq!(update(&state, &mut store, &token, Some("B"), None), Err(AppError::UserNotFound));
}

#[test]
fn update_changes_the_nickname_only() {
    let mut state = state();
    let mut store = populated(&mut state);
    let before = store.users.clone();
    let token = login(&state, &mut store, "b@x.com", "pw123456").unwrap();
    assert_eq!(update(&state, &mut store, &token, Some("Bobby"), None), Ok(true));
    assert_eq!(store.users[1], User { nickname: "Bobby".to_string(), ..before[1].clone() });
    assert_eq!(store.users[0], before[0]);
    assert_eq!(store.users[2], before[2]);
}

#[test]
fn update_changes_the_password_only() {
    let mut state = state();
    let mut store = populated(&mut state);
    let before = store.users.clone();
    let token = login(&state, &mut store, "b@x.com", "pw123456").unwrap();
    assert_eq!(update(&state, &mut store, &token, None, Some("new-password")), Ok(true));
    assert_ne!(store.users[1].password, before[1].password);
    assert_ne!(store.users[1].password, "new-password");
    assert_eq!(
        User { password: before[1].password.clone(), ..store.users[1].clone() },
        before[1]
    );
    assert!(store.users[1].password.starts_with("$2b$12$"));
    assert!(password::verify("new-password", &store.users[1].password));
}

#[test]
fn update_of_nothing_changes_nothing() {
    let mut state = state();
    let mut store = populated(&mut state);
    let before = store.users.clone();
    let token = login(&state, &mut store, "b@x.com", "pw123456").unwrap();
    assert_eq!(update(&state, &mut store, &token, None, None), Ok(true));
    assert_eq!(store.users, before);
}

#[test]
fn update_that_the_store_refuses_is_false() {
    assert!(matches!(
        set_user_profile_resume(UpdatePending::Write, StoreReply::Failed),
        Step::Done(Ok(false))
    ));
    assert!(matches!(
        set_user_profile_resume(UpdatePending::Write, StoreReply::Written),
        Step::Done(Ok(true))
    ));
}

#[test]
fn non_admin_cannot_change_types() {
    let mut state = state();
    let mut store = populated(&mut state);
    let bob = login(&state, &mut store, "b@x.com", "pw123456").unwrap();
    assert_eq!(change_type(&state, &mut store, &bob, 3, "normal"), Err(AppError::Forbidden));
    assert_eq!(change_type(&state, &mut store, &bob, 2, "admin"), Err(AppError::Forbidden));
    assert_eq!(store.users[1].user_type, "normal");
    assert_eq!(store.users[2].user_type, "admin");
}

#[test]
fn root_is_no_admin() {
    let mut state = state();
    let mut store = populated(&mut state);
    let alice = login(&state, &mut store, "a@x.com", "pw123456").unwrap();
    assert_eq!(change_type(&state, &mut store, &alice, 2, "admin"), Err(AppError::Forbidden));
    assert_eq!(store.users[1].user_type, "normal");
}

#[test]
fn admin_cannot_touch_root() {
    let mut state = state();
    let mut store = populated(&mut state);
    let before = store.users.clone();
    let carol = login(&state, &mut store, "c@x.com", "pw-carol").unwrap();
    assert_eq!(change_type(&state, &mut store, &carol, 1, "normal"), Err(AppError::Forbidden));
    assert_eq!(store.users, before);
    assert_eq!(store.users[0].user_type, "root");
}

#[test]
fn admin_changes_the_type_of_a_normal_user() {
    let mut state = state();
    let mut store = populated(&mut state);
    let before = store.users.clone();
    let carol = login(&state, &mut store, "c@x.com", "pw-carol").unwrap();
    assert_eq!(change_type(&state, &mut store, &carol, 2, "admin"), Ok(true));
    assert_eq!(store.users[1], User { user_type: "admin".to_string(), ..before[1].clone() });
    assert_eq!(store.users[0], before[0]);
    assert_eq!(store.users[2], before[2]);
}

#[test]
fn nobody_is_made_root() {
    let mut state = state();
    let mut store = populated(&mut state);
    let before = store.users.clone();
    let carol = login(&state, &mut store, "c@x.com", "pw-carol").unwrap();
    assert_eq!(change_type(&state, &mut store, &carol, 2, "root"), Err(AppError::Forbidden));
    assert_eq!(store.users, before);
    assert_eq!(store.users.iter().filter(|u| u.user_type == "root").count(), 1);
}

#[test]
fn only_the_three_types_are_types() {
    let mut state = state();
    let mut store = populated(&mut state);
    let before = store.users.clone();
    let carol = login(&state, &mut store, "c@x.com", "pw-carol").unwrap();
    for asked in ["", "Admin", "administrator", "superuser", "normal "] {
        assert_eq!(
            change_type(&state, &mut store, &carol, 2, asked),
            Err(AppError::Forbidden),
            "{:?}",
            asked
        );
    }
    assert_eq!(store.users, before);
}

#[test]
fn admin_makes_an_admin_normal_again() {
    let mut state = state();
    let mut store = populated(&mut state);
    let carol = login(&state, &mut store, "c@x.com", "pw-carol").unwrap();
    assert_eq!(change_type(&state, &mut store, &carol, 2, "admin"), Ok(true));
    assert_eq!(change_type(&state, &mut store, &carol, 2, "normal"), Ok(true));
    assert_eq!(store.users[1].user_type, "normal");
}

#[test]
fn missing_target_is_unauthorized() {
    let mut state = state();
    let mut store = populated(&mut state);
    let carol = login(&state, &mut store, "c@x.com", "pw-carol").unwrap();
    assert_eq!(change_type(&state, &mut store, &carol, 99, "admin"), Err(AppError::Unauthorized));
}

#[test]
fn caller_who_is_gone_is_forbidden() {
    let mut state = state();
    let mut store = populated(&mut state);
    let carol = login(&state, &mut store, "c@x.com", "pw-carol").unwrap();
    store.users.remove(2);
    assert_eq!(change_type(&state, &mut store, &carol, 2, "admin"), Err(AppError::Forbidden));
}

#[test]
fn alice_and_bob_from_start_to_end() {
    let mut state = state();
    let mut store = Store::new();
    assert_eq!(
        register(&mut state, &mut store, "10.0.0.1", "Alice", "a@x.com", "pw123456"),
        Ok(UserRegisterResponseData)
    );
    assert_eq!(store.by_email("a@x.com").unwrap().user_type, "root");
    assert_eq!(
        register(&mut state, &mut store, "10.0.0.2", "Bob", "b@x.com", "pw123456"),
        Ok(UserRegisterResponseData)
    );
    assert_eq!(store.by_email("b@x.com").unwrap().user_type, "normal");
    assert_eq!(login(&state, &mut store, "b@x.com", "wrong"), Err(AppError::PasswordIncorrect));
    let bob = login(&state, &mut store, "b@x.com", "pw123456").unwrap();
    assert_eq!(profile(&state, &mut store, &bob).unwrap().nickname, "Bob");
    let alice = login(&state, &mut store, "a@x.com", "pw123456").unwrap();
    let bob_id = store.by_email("b@x.com").unwrap().id;
    // The root user is not an admin, so the change is refused.
    assert_eq!(change_type(&state, &mut store, &alice, bob_id, "admin"), Err(AppError::Forbidden));
    assert_eq!(store.by_email("b@x.com").unwrap().user_type, "normal");
    // Once typed admin, the same caller succeeds.
    store.users[0].user_type = "admin".to_string();
    assert_eq!(change_type(&state, &mut store, &alice, bob_id, "admin"), Ok(true));
    assert_eq!(store.by_email("b@x.com").unwrap().user_type, "admin");
}
