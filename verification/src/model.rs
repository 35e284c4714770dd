//! The mathematical model of the store: ghost records for users, sessions and
//! todos, the well-formedness invariant, and the lookup functions that the
//! contracts of the executable operations are stated over.

use vstd::prelude::*;

verus! {

/// Owner id recorded on a todo created by an unauthenticated caller.
pub const GUEST_USER_ID: i64 = -1;

/// Lifetime, in seconds, of a session created without "remember me".
pub const SESSION_TTL: u64 = 3600;

/// Lifetime, in seconds, of a session created with "remember me".
pub const REMEMBER_TTL: u64 = 2592000;

/// A stored account: the public identity plus the password hash, which never
/// leaves the auth operations.
pub ghost struct UserModel {
    pub id: int,
    pub username: Seq<char>,
    pub password_hash: Seq<char>,
}

/// The public view of an account: what lookups and joins expose.
pub ghost struct UserView {
    pub id: int,
    pub username: Seq<char>,
}

/// A session binding an opaque token to a user until it expires.
pub ghost struct SessionModel {
    pub token: int,
    pub user_id: int,
    pub expires_at: int,
}

/// A stored todo row, owning user recorded by id (or `GUEST_USER_ID`).
pub ghost struct TodoModel {
    pub id: int,
    pub user_id: int,
    pub title: Seq<char>,
    pub created_at: int,
    pub completed: bool,
}

/// A todo row joined with the public identity of its owner, as `list` returns it.
pub ghost struct TodoJoined {
    pub id: int,
    pub user: Option<UserView>,
    pub title: Seq<char>,
    pub created_at: int,
    pub completed: bool,
}

/// The whole store: the two tables, the session table, the id counters, and
/// the version counter that mutating operations bump.
#[verifier::ext_equal]
pub ghost struct StoreModel {
    pub users: Seq<UserModel>,
    pub todos: Seq<TodoModel>,
    pub sessions: Seq<SessionModel>,
    pub next_user_id: int,
    pub next_todo_id: int,
    pub next_token: int,
    pub version: int,
}

pub open spec fn has_user_named(users: Seq<UserModel>, name: Seq<char>) -> bool {
    exists|i: int| 0 <= i < users.len() && #[trigger] users[i].username == name
}

/// The user carrying `name`; meaningful only when `has_user_named` holds
/// (under `wf` that user is unique).
pub open spec fn user_named(users: Seq<UserModel>, name: Seq<char>) -> UserModel {
    users[choose|i: int| 0 <= i < users.len() && #[trigger] users[i].username == name]
}

pub open spec fn has_user_id(users: Seq<UserModel>, id: int) -> bool {
    exists|i: int| 0 <= i < users.len() && #[trigger] users[i].id == id
}

/// The user carrying `id`; meaningful only when `has_user_id` holds.
pub open spec fn user_with_id(users: Seq<UserModel>, id: int) -> UserModel {
    users[choose|i: int| 0 <= i < users.len() && #[trigger] users[i].id == id]
}

pub open spec fn has_session(sessions: Seq<SessionModel>, token: int) -> bool {
    exists|i: int| 0 <= i < sessions.len() && #[trigger] sessions[i].token == token
}

/// The session carrying `token`; meaningful only when `has_session` holds.
pub open spec fn session_for(sessions: Seq<SessionModel>, token: int) -> SessionModel {
    sessions[choose|i: int| 0 <= i < sessions.len() && #[trigger] sessions[i].token == token]
}

pub open spec fn session_index(sessions: Seq<SessionModel>, token: int) -> int {
    choose|i: int| 0 <= i < sessions.len() && #[trigger] sessions[i].token == token
}

pub open spec fn has_todo(todos: Seq<TodoModel>, id: int) -> bool {
    exists|i: int| 0 <= i < todos.len() && #[trigger] todos[i].id == id
}

pub open spec fn todo_index(todos: Seq<TodoModel>, id: int) -> int {
    choose|i: int| 0 <= i < todos.len() && #[trigger] todos[i].id == id
}

impl StoreModel {
    /// Well-formedness: ids, usernames and tokens are unique and below their
    /// counters; every session belongs to a user; every todo belongs to a
    /// user or to the guest sentinel; counters sit in their machine ranges.
    pub open spec fn wf(self) -> bool {
        &&& forall|i: int, j: int|
            0 <= i < self.users.len() && 0 <= j < self.users.len()
                && #[trigger] self.users[i].id == #[trigger] self.users[j].id ==> i == j
        &&& forall|i: int, j: int|
            0 <= i < self.users.len() && 0 <= j < self.users.len()
                && #[trigger] self.users[i].username == #[trigger] self.users[j].username ==> i == j
        &&& forall|i: int| 0 <= i < self.users.len() ==> 0 <= #[trigger] self.users[i].id < self.next_user_id
        &&& forall|i: int, j: int|
            0 <= i < self.todos.len() && 0 <= j < self.todos.len()
                && #[trigger] self.todos[i].id == #[trigger] self.todos[j].id ==> i == j
        &&& forall|i: int| 0 <= i < self.todos.len() ==> 0 <= #[trigger] self.todos[i].id < self.next_todo_id
        &&& forall|i: int|
            0 <= i < self.todos.len() ==> (#[trigger] self.todos[i].user_id == GUEST_USER_ID as int
                || has_user_id(self.users, self.todos[i].user_id))
        &&& forall|i: int, j: int|
            0 <= i < self.sessions.len() && 0 <= j < self.sessions.len()
                && #[trigger] self.sessions[i].token == #[trigger] self.sessions[j].token ==> i == j
        &&& forall|i: int| 0 <= i < self.sessions.len() ==> 0 <= #[trigger] self.sessions[i].token < self.next_token
        &&& forall|i: int| 0 <= i < self.sessions.len() ==> has_user_id(self.users, #[trigger] self.sessions[i].user_id)
        &&& forall|i: int| 0 <= i < self.sessions.len() ==> 0 <= #[trigger] self.sessions[i].expires_at <= u64::MAX
        &&& 0 <= self.next_user_id <= i64::MAX
        &&& 0 <= self.next_todo_id <= u32::MAX
        &&& 0 <= self.next_token <= u64::MAX
        &&& 0 <= self.version <= u64::MAX
    }

    /// Room for one more of everything a mutating operation may allocate.
    pub open spec fn has_capacity(self) -> bool {
        &&& self.next_user_id < i64::MAX
        &&& self.next_todo_id < u32::MAX
        &&& self.next_token < u64::MAX
        &&& self.version < u64::MAX
    }
}

/// The moment a session created at `now` with lifetime `ttl` stops resolving,
/// clamped to the machine range.
pub open spec fn spec_expiry(now: int, ttl: int) -> int {
    if now + ttl <= u64::MAX {
        now + ttl
    } else {
        u64::MAX as int
    }
}

/// Resolving a token: the user of an unexpired session with that token, or
/// `None` — absence is the anonymous success path, never an error.
pub open spec fn spec_current_user(s: StoreModel, token: int, now: int) -> Option<UserView> {
    if has_session(s.sessions, token) {
        let sess = session_for(s.sessions, token);
        if now < sess.expires_at && has_user_id(s.users, sess.user_id) {
            let u = user_with_id(s.users, sess.user_id);
            Some(UserView { id: u.id, username: u.username })
        } else {
            None
        }
    } else {
        None
    }
}

} // verus!
