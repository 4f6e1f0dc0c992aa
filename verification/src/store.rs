//! What the account operations ask of the user store, what the store may
//! answer, and a mathematical picture of a store that answers truthfully.
//!
//! The store itself lives outside this library. An operation that needs it
//! stops with a `StoreRequest`; whoever runs the operation performs the
//! request and resumes the operation with the `StoreReply`.

use crate::user::{
    is_user_type, NewUser, NewUserView, User, UserPatch, UserPatchView, UserView,
};
use vstd::prelude::*;

verus! {

/// One request to the store.
#[derive(Debug)]
pub enum StoreRequest {
    /// The user with this e-mail address, if there is one.
    FindByEmail(String),
    /// The user with this key, if there is one.
    FindById(u32),
    /// Whether the store holds no user, deleted ones set aside.
    IsEmpty,
    /// Add this registration as a new user.
    Insert(NewUser),
    /// Replace the named fields of the user with this key.
    Update(u32, UserPatch),
}

/// A `StoreRequest` as the contracts speak of it.
pub ghost enum Query {
    FindByEmail(Seq<char>),
    FindById(u32),
    IsEmpty,
    Insert(NewUserView),
    Update(u32, UserPatchView),
}

impl View for StoreRequest {
    type V = Query;

    open spec fn view(&self) -> Query {
        match self {
            StoreRequest::FindByEmail(email) => Query::FindByEmail(email@),
            StoreRequest::FindById(id) => Query::FindById(*id),
            StoreRequest::IsEmpty => Query::IsEmpty,
            StoreRequest::Insert(user) => Query::Insert(user@),
            StoreRequest::Update(id, patch) => Query::Update(*id, patch@),
        }
    }
}

/// The store's answer to one request.
#[derive(Debug)]
pub enum StoreReply {
    /// Answer to a lookup.
    Found(Option<User>),
    /// Answer to `IsEmpty`.
    Empty(bool),
    /// The insert or update was carried out.
    Written,
    /// The store could not carry out the request.
    Failed,
}

/// A `StoreReply` as the contracts speak of it.
pub ghost enum Answer {
    Found(Option<UserView>),
    Empty(bool),
    Written,
    Failed,
}

impl View for StoreReply {
    type V = Answer;

    open spec fn view(&self) -> Answer {
        match self {
            StoreReply::Found(Some(user)) => Answer::Found(Some(user@)),
            StoreReply::Found(None) => Answer::Found(None),
            StoreReply::Empty(empty) => Answer::Empty(*empty),
            StoreReply::Written => Answer::Written,
            StoreReply::Failed => Answer::Failed,
        }
    }
}

/// The status of a user who was not deleted.
pub open spec fn status_active() -> Seq<char> {
    "active"@
}

/// The status of a user who was deleted. The record stays in the store.
pub open spec fn status_deleted() -> Seq<char> {
    "deleted"@
}

/// The record that the store makes of a registration, under the key `id`.
pub open spec fn stored(new: NewUserView, id: u32) -> UserView {
    UserView {
        id,
        user_id: new.user_id,
        nickname: new.nickname,
        password: new.password,
        email: new.email,
        avatar: new.avatar,
        user_type: new.user_type,
        status: status_active(),
        is_email_verified: new.is_email_verified,
        is_phone_verified: new.is_phone_verified,
        failed_login_attempts: 0,
        last_login_ip: None,
        last_login_at: None,
        created_at: new.created_at,
        updated_at: None,
        deleted_at: None,
    }
}

/// How many of `users` are `root`.
pub open spec fn count_roots(users: Seq<UserView>) -> nat
    decreases users.len(),
{
    if users.len() == 0 {
        0
    } else {
        count_roots(users.drop_last()) + if users.last().is_root() {
            1nat
        } else {
            0nat
        }
    }
}

/// A store that works: the users it holds, in the order in which they
/// were added.
pub ghost struct StoreModel {
    pub users: Seq<UserView>,
}

impl StoreModel {
    /// The store without users.
    pub open spec fn empty() -> StoreModel {
        StoreModel { users: Seq::empty() }
    }

    /// Whether the store counts as empty: it holds no user but deleted
    /// ones.
    pub open spec fn is_vacant(self) -> bool {
        forall|i: int|
            0 <= i < self.users.len() ==> (#[trigger] self.users[i]).status == status_deleted()
    }

    /// Whether the store holds a user with this e-mail address.
    pub open spec fn holds_email(self, email: Seq<char>) -> bool {
        exists|i: int| 0 <= i < self.users.len() && #[trigger] self.users[i].email == email
    }

    /// Whether the store holds a user with this key.
    pub open spec fn holds_id(self, id: u32) -> bool {
        exists|i: int| 0 <= i < self.users.len() && #[trigger] self.users[i].id == id
    }

    /// Whether no two users of the store share a key.
    pub open spec fn ids_are_unique(self) -> bool {
        forall|i: int, j: int|
            0 <= i < j < self.users.len() ==> self.users[i].id != self.users[j].id
    }

    /// Whether every user of the store has one of the three types.
    pub open spec fn types_are_valid(self) -> bool {
        forall|i: int|
            0 <= i < self.users.len() ==> is_user_type((#[trigger] self.users[i]).user_type)
    }

    /// How many users of the store are `root`.
    pub open spec fn roots(self) -> nat {
        count_roots(self.users)
    }

    /// Whether no two users of the store share an e-mail address.
    pub open spec fn emails_are_unique(self) -> bool {
        forall|i: int, j: int|
            0 <= i < j < self.users.len() ==> self.users[i].email != self.users[j].email
    }

    /// A user with this e-mail address, if the store holds one.
    pub open spec fn find_by_email(self, email: Seq<char>) -> Option<UserView> {
        if self.holds_email(email) {
            Some(
                self.users[choose|i: int|
                    0 <= i < self.users.len() && #[trigger] self.users[i].email == email],
            )
        } else {
            None
        }
    }

    /// A user with this key, if the store holds one.
    pub open spec fn find_by_id(self, id: u32) -> Option<UserView> {
        if self.holds_id(id) {
            Some(
                self.users[choose|i: int|
                    0 <= i < self.users.len() && #[trigger] self.users[i].id == id],
            )
        } else {
            None
        }
    }

    /// The store after `new` was added under the key `id`.
    pub open spec fn inserted(self, new: NewUserView, id: u32) -> StoreModel {
        StoreModel { users: self.users.push(stored(new, id)) }
    }

    /// The store after `patch` was applied to every user with the key `id`.
    pub open spec fn updated(self, id: u32, patch: UserPatchView) -> StoreModel {
        StoreModel {
            users: Seq::new(
                self.users.len(),
                |i: int|
                    if self.users[i].id == id {
                        self.users[i].patched(patch)
                    } else {
                        self.users[i]
                    },
            ),
        }
    }

    /// What the store answers to `query`.
    pub open spec fn answer(self, query: Query) -> Answer {
        match query {
            Query::FindByEmail(email) => Answer::Found(self.find_by_email(email)),
            Query::FindById(id) => Answer::Found(self.find_by_id(id)),
            Query::IsEmpty => Answer::Empty(self.is_vacant()),
            Query::Insert(_) => Answer::Written,
            Query::Update(id, _) => if self.holds_id(id) {
                Answer::Written
            } else {
                Answer::Failed
            },
        }
    }

    /// The store after it has answered `query`, where a new user gets the
    /// key `fresh`.
    pub open spec fn after(self, query: Query, fresh: u32) -> StoreModel {
        match query {
            Query::Insert(new) => self.inserted(new, fresh),
            Query::Update(id, patch) => self.updated(id, patch),
            _ => self,
        }
    }
}

} // verus!
