//! The user record and the shapes in which it travels: a registration on
//! its way into the store, a partial update, and the profile shown to the
//! user.

use crate::text::opt_text;
use vstd::prelude::*;

verus! {

/// The type of the one user who registered first.
pub open spec fn type_root() -> Seq<char> {
    "root"@
}

/// The type that may change the types of others.
pub open spec fn type_admin() -> Seq<char> {
    "admin"@
}

/// The type of everyone else.
pub open spec fn type_normal() -> Seq<char> {
    "normal"@
}

/// Whether `user_type` is one of the three types that there are.
pub open spec fn is_user_type(user_type: Seq<char>) -> bool {
    user_type == type_root() || user_type == type_admin() || user_type == type_normal()
}

/// Whether `user_type` is a type that can be given to a user later on:
/// `admin` and `normal` are, `root` is not, and nothing else is a type.
pub open spec fn is_grantable(user_type: Seq<char>) -> bool {
    user_type == type_admin() || user_type == type_normal()
}

/// Whether a type change may give `user_type`.
pub fn grantable(user_type: &str) -> (yes: bool)
    ensures
        yes == is_grantable(user_type@),
{
    user_type.eq("admin") || user_type.eq("normal")
}

/// The avatar of a user who has not chosen one.
pub open spec fn default_avatar() -> Seq<char> {
    "v2/avatars/default.png"@
}

/// A user as the store holds it. Instants are seconds since the Unix epoch.
#[derive(Debug, Clone, PartialEq, Eq)]
pub struct User {
    /// Key assigned by the store.
    pub id: u32,
    /// Random identifier shown to the outside, assigned at registration.
    pub user_id: String,
    pub nickname: String,
    /// Hash of the password.
    pub password: String,
    pub email: String,
    pub avatar: String,
    /// `root`, `admin` or `normal`.
    pub user_type: String,
    /// `active` or `deleted`.
    pub status: String,
    pub is_email_verified: bool,
    pub is_phone_verified: bool,
    pub failed_login_attempts: i8,
    pub last_login_ip: Option<String>,
    pub last_login_at: Option<i64>,
    pub created_at: i64,
    pub updated_at: Option<i64>,
    pub deleted_at: Option<i64>,
}

/// A `User` as the contracts speak of it: texts as sequences of characters.
pub ghost struct UserView {
    pub id: u32,
    pub user_id: Seq<char>,
    pub nickname: Seq<char>,
    pub password: Seq<char>,
    pub email: Seq<char>,
    pub avatar: Seq<char>,
    pub user_type: Seq<char>,
    pub status: Seq<char>,
    pub is_email_verified: bool,
    pub is_phone_verified: bool,
    pub failed_login_attempts: i8,
    pub last_login_ip: Option<Seq<char>>,
    pub last_login_at: Option<i64>,
    pub created_at: i64,
    pub updated_at: Option<i64>,
    pub deleted_at: Option<i64>,
}

impl View for User {
    type V = UserView;

    open spec fn view(&self) -> UserView {
        UserView {
            id: self.id,
            user_id: self.user_id@,
            nickname: self.nickname@,
            password: self.password@,
            email: self.email@,
            avatar: self.avatar@,
            user_type: self.user_type@,
            status: self.status@,
            is_email_verified: self.is_email_verified,
            is_phone_verified: self.is_phone_verified,
            failed_login_attempts: self.failed_login_attempts,
            last_login_ip: opt_text(self.last_login_ip),
            last_login_at: self.last_login_at,
            created_at: self.created_at,
            updated_at: self.updated_at,
            deleted_at: self.deleted_at,
        }
    }
}

impl UserView {
    pub open spec fn is_admin(self) -> bool {
        self.user_type == type_admin()
    }

    pub open spec fn is_root(self) -> bool {
        self.user_type == type_root()
    }

    /// What the user is shown of the record.
    pub open spec fn profile(self) -> UserProfileView {
        UserProfileView { nickname: self.nickname, email: self.email, user_type: self.user_type }
    }

    /// The record with the fields that `patch` names replaced.
    pub open spec fn patched(self, patch: UserPatchView) -> UserView {
        UserView {
            nickname: match patch.nickname {
                Some(nickname) => nickname,
                None => self.nickname,
            },
            password: match patch.password {
                Some(password) => password,
                None => self.password,
            },
            user_type: match patch.user_type {
                Some(user_type) => user_type,
                None => self.user_type,
            },
            ..self
        }
    }
}

impl User {
    /// Whether the user may change the types of others.
    pub fn is_admin(&self) -> (yes: bool)
        ensures
            yes == self@.is_admin(),
    {
        self.user_type.as_str().eq("admin")
    }

    /// Whether the user is the one who registered first.
    pub fn is_root(&self) -> (yes: bool)
        ensures
            yes == self@.is_root(),
    {
        self.user_type.as_str().eq("root")
    }

    /// The part of the record that the user is shown.
    pub fn into_profile(self) -> (profile: UserProfile)
        ensures
            profile@ == self@.profile(),
    {
        UserProfile { nickname: self.nickname, email: self.email, user_type: self.user_type }
    }
}

/// A registration as it is handed to the store: the fields that
/// registration decides. The store assigns the key and fills in the rest.
#[derive(Debug, Clone, PartialEq, Eq)]
pub struct NewUser {
    pub user_id: String,
    pub nickname: String,
    pub password: String,
    pub email: String,
    pub user_type: String,
    pub avatar: String,
    pub is_email_verified: bool,
    pub is_phone_verified: bool,
    pub created_at: i64,
}

/// A `NewUser` as the contracts speak of it.
pub ghost struct NewUserView {
    pub user_id: Seq<char>,
    pub nickname: Seq<char>,
    pub password: Seq<char>,
    pub email: Seq<char>,
    pub user_type: Seq<char>,
    pub avatar: Seq<char>,
    pub is_email_verified: bool,
    pub is_phone_verified: bool,
    pub created_at: i64,
}

impl View for NewUser {
    type V = NewUserView;

    open spec fn view(&self) -> NewUserView {
        NewUserView {
            user_id: self.user_id@,
            nickname: self.nickname@,
            password: self.password@,
            email: self.email@,
            user_type: self.user_type@,
            avatar: self.avatar@,
            is_email_verified: self.is_email_verified,
            is_phone_verified: self.is_phone_verified,
            created_at: self.created_at,
        }
    }
}

impl NewUserView {
    /// The registration with its type decided: `root` for the first user
    /// of a store, `normal` for every later one.
    pub open spec fn typed(self, first: bool) -> NewUserView {
        NewUserView {
            user_type: if first {
                type_root()
            } else {
                type_normal()
            },
            ..self
        }
    }
}

/// A partial update: a field that is absent stays as it is.
#[derive(Debug, Clone, PartialEq, Eq)]
pub struct UserPatch {
    pub nickname: Option<String>,
    pub password: Option<String>,
    pub user_type: Option<String>,
}

/// A `UserPatch` as the contracts speak of it.
pub ghost struct UserPatchView {
    pub nickname: Option<Seq<char>>,
    pub password: Option<Seq<char>>,
    pub user_type: Option<Seq<char>>,
}

impl View for UserPatch {
    type V = UserPatchView;

    open spec fn view(&self) -> UserPatchView {
        UserPatchView {
            nickname: opt_text(self.nickname),
            password: opt_text(self.password),
            user_type: opt_text(self.user_type),
        }
    }
}

/// What a user is shown of their own record.
#[derive(Debug, Clone, PartialEq, Eq)]
pub struct UserProfile {
    pub nickname: String,
    pub email: String,
    pub user_type: String,
}

/// A `UserProfile` as the contracts speak of it.
pub ghost struct UserProfileView {
    pub nickname: Seq<char>,
    pub email: Seq<char>,
    pub user_type: Seq<char>,
}

impl View for UserProfile {
    type V = UserProfileView;

    open spec fn view(&self) -> UserProfileView {
        UserProfileView {
            nickname: self.nickname@,
            email: self.email@,
            user_type: self.user_type@,
        }
    }
}

} // verus!
