//! The executable store: the row types, their views into the ghost model, and
//! the lookup helpers the operations share.

use vstd::prelude::*;

use crate::model::{
    GUEST_USER_ID, SessionModel, StoreModel, TodoModel, UserModel, UserView,
};

verus! {

/// The public identity of an account; the password hash stays in `UserRow`.
#[derive(Clone, Debug)]
pub struct User {
    pub id: i64,
    pub username: String,
}

impl View for User {
    type V = UserView;

    open spec fn view(&self) -> UserView {
        UserView { id: self.id as int, username: self.username@ }
    }
}

/// A stored account row. No operation of the service returns it whole:
/// lookups hand out `User`, so the password hash stays inside.
pub struct UserRow {
    pub id: i64,
    pub username: String,
    pub password_hash: String,
}

impl View for UserRow {
    type V = UserModel;

    open spec fn view(&self) -> UserModel {
        UserModel {
            id: self.id as int,
            username: self.username@,
            password_hash: self.password_hash@,
        }
    }
}

/// A live session: an opaque token bound to one user until `expires_at`.
#[derive(Clone, Copy, Debug, PartialEq, Eq, Structural)]
pub struct Session {
    pub token: u64,
    pub user_id: i64,
    pub expires_at: u64,
}

impl View for Session {
    type V = SessionModel;

    open spec fn view(&self) -> SessionModel {
        SessionModel {
            token: self.token as int,
            user_id: self.user_id as int,
            expires_at: self.expires_at as int,
        }
    }
}

/// A todo row as stored: the owner appears only as an id
/// (or `GUEST_USER_ID` for a todo created by a guest).
#[derive(Clone, Debug)]
pub struct SqlTodo {
    pub id: u32,
    pub user_id: i64,
    pub title: String,
    pub created_at: u64,
    pub completed: bool,
}

impl View for SqlTodo {
    type V = TodoModel;

    open spec fn view(&self) -> TodoModel {
        TodoModel {
            id: self.id as int,
            user_id: self.user_id as int,
            title: self.title@,
            created_at: self.created_at as int,
            completed: self.completed,
        }
    }
}

/// The in-memory store: the users and todos tables, the session table, the
/// id counters, and the version counter bumped by every successful mutation.
pub struct Store {
    pub users: Vec<UserRow>,
    pub todos: Vec<SqlTodo>,
    pub sessions: Vec<Session>,
    pub next_user_id: i64,
    pub next_todo_id: u32,
    pub next_token: u64,
    pub version: u64,
}

impl View for Store {
    type V = StoreModel;

    open spec fn view(&self) -> StoreModel {
        StoreModel {
            users: self.users@.map_values(|u: UserRow| u@),
            todos: self.todos@.map_values(|t: SqlTodo| t@),
            sessions: self.sessions@.map_values(|s: Session| s@),
            next_user_id: self.next_user_id as int,
            next_todo_id: self.next_todo_id as int,
            next_token: self.next_token as int,
            version: self.version as int,
        }
    }
}

impl Store {
    /// An empty store: no rows, counters at zero.
    pub fn new() -> (s: Store)
        ensures
            s@.users == Seq::<UserModel>::empty(),
            s@.todos == Seq::<TodoModel>::empty(),
            s@.sessions == Seq::<SessionModel>::empty(),
            s@.next_user_id == 0,
            s@.next_todo_id == 0,
            s@.next_token == 0,
            s@.version == 0,
            s@.wf(),
    {
        let s = Store {
            users: Vec::new(),
            todos: Vec::new(),
            sessions: Vec::new(),
            next_user_id: 0,
            next_todo_id: 0,
            next_token: 0,
            version: 0,
        };
        proof {
            assert(s@.users =~= Seq::<UserModel>::empty());
            assert(s@.todos =~= Seq::<TodoModel>::empty());
            assert(s@.sessions =~= Seq::<SessionModel>::empty());
        }
        s
    }

    /// The version counter: equal across two reads exactly when no successful
    /// mutation came between them.
    pub fn version(&self) -> (v: u64)
        ensures
            v == self@.version,
    {
        self.version
    }

    /// Whether a view holding `seen` must re-fetch the list.
    pub fn needs_refetch(&self, seen: u64) -> (b: bool)
        ensures
            b == (seen != self@.version),
    {
        seen != self.version
    }

    /// Room for one more of everything a mutating operation may allocate;
    /// callers outside verified code can test the mutating operations'
    /// capacity preconditions with this.
    pub fn has_capacity(&self) -> (b: bool)
        ensures
            b == self@.has_capacity(),
    {
        self.next_user_id < i64::MAX && self.next_todo_id < u32::MAX
            && self.next_token < u64::MAX && self.version < u64::MAX
    }

    /// Index of the account named `name`, if any.
    pub fn find_user_by_name(&self, name: &String) -> (r: Option<usize>)
        ensures
            match r {
                Some(i) => i < self.users.len() && self@.users[i as int].username == name@,
                None => forall|k: int|
                    0 <= k < self@.users.len() ==> #[trigger] self@.users[k].username != name@,
            },
    {
        let mut i: usize = 0;
        while i < self.users.len()
            invariant
                i <= self.users.len(),
                forall|k: int| 0 <= k < i ==> #[trigger] self@.users[k].username != name@,
            decreases self.users.len() - i,
        {
            if self.users[i].username == *name {
                return Some(i);
            }
            i = i + 1;
        }
        None
    }

    /// Index of the account with id `id`, if any.
    pub fn find_user_by_id(&self, id: i64) -> (r: Option<usize>)
        ensures
            match r {
                Some(i) => i < self.users.len() && self@.users[i as int].id == id as int,
                None => forall|k: int|
                    0 <= k < self@.users.len() ==> #[trigger] self@.users[k].id != id as int,
            },
    {
        let mut i: usize = 0;
        while i < self.users.len()
            invariant
                i <= self.users.len(),
                forall|k: int| 0 <= k < i ==> #[trigger] self@.users[k].id != id as int,
            decreases self.users.len() - i,
        {
            if self.users[i].id == id {
                return Some(i);
            }
            i = i + 1;
        }
        None
    }

    /// Index of the session carrying `token`, if any.
    pub fn find_session(&self, token: u64) -> (r: Option<usize>)
        ensures
            match r {
                Some(i) => i < self.sessions.len() && self@.sessions[i as int].token == token as int,
                None => forall|k: int|
                    0 <= k < self@.sessions.len() ==> #[trigger] self@.sessions[k].token != token as int,
            },
    {
        let mut i: usize = 0;
        while i < self.sessions.len()
            invariant
                i <= self.sessions.len(),
                forall|k: int| 0 <= k < i ==> #[trigger] self@.sessions[k].token != token as int,
            decreases self.sessions.len() - i,
        {
            if self.sessions[i].token == token {
                return Some(i);
            }
            i = i + 1;
        }
        None
    }

    /// Index of the todo with id `id`, if any.
    pub fn find_todo(&self, id: u32) -> (r: Option<usize>)
        ensures
            match r {
                Some(i) => i < self.todos.len() && self@.todos[i as int].id == id as int,
                None => forall|k: int|
                    0 <= k < self@.todos.len() ==> #[trigger] self@.todos[k].id != id as int,
            },
    {
        let mut i: usize = 0;
        while i < self.todos.len()
            invariant
                i <= self.todos.len(),
                forall|k: int| 0 <= k < i ==> #[trigger] self@.todos[k].id != id as int,
            decreases self.todos.len() - i,
        {
            if self.todos[i].id == id {
                return Some(i);
            }
            i = i + 1;
        }
        None
    }
}

} // verus!
