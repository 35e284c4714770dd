//! The todo service: listing todos joined with their owners' public identity,
//! adding a todo for a user or for the guest, and idempotent deletion by id.

use vstd::prelude::*;

use crate::auth::user_option_model;
use crate::model::{
    has_todo, has_user_id, todo_index, user_with_id, StoreModel, TodoJoined, TodoModel, UserModel,
    UserView, GUEST_USER_ID,
};
use crate::store::{SqlTodo, Store, User};

verus! {

/// Why a storage operation was refused. The in-memory store is always
/// reachable, so no operation here returns it; a deployment that keeps the
/// rows behind a connection maps its transport failures to this.
#[derive(Clone, Copy, Debug, PartialEq, Eq)]
pub enum StorageError {
    Unavailable,
}

impl StorageError {
    /// Storage errors are server-side: callers surface them generically.
    pub fn kind(&self) -> (k: crate::auth::ErrorKind)
        ensures
            k == crate::auth::ErrorKind::Storage,
    {
        crate::auth::ErrorKind::Storage
    }
}

/// A todo joined with the public identity of its owner, as handed to callers;
/// `user` is `None` for a todo created by a guest.
#[derive(Clone, Debug)]
pub struct Todo {
    pub id: u32,
    pub user: Option<User>,
    pub title: String,
    pub created_at: u64,
    pub completed: bool,
}

impl View for Todo {
    type V = TodoJoined;

    open spec fn view(&self) -> TodoJoined {
        TodoJoined {
            id: self.id as int,
            user: match self.user {
                Some(u) => Some(u@),
                None => None,
            },
            title: self.title@,
            created_at: self.created_at as int,
            completed: self.completed,
        }
    }
}

/// The user carrying `id`, as a public identity, or `None`: what the join
/// shows for a row's owner.
pub open spec fn spec_user_for(users: Seq<UserModel>, id: int) -> Option<UserView> {
    if has_user_id(users, id) {
        let u = user_with_id(users, id);
        Some(UserView { id: u.id, username: u.username })
    } else {
        None
    }
}

/// A stored row joined with its owner's public identity.
pub open spec fn spec_join(t: TodoModel, users: Seq<UserModel>) -> TodoJoined {
    TodoJoined {
        id: t.id,
        user: spec_user_for(users, t.user_id),
        title: t.title,
        created_at: t.created_at,
        completed: t.completed,
    }
}

/// The owner id recorded for a todo: the acting user's id, or the guest
/// sentinel when nobody is signed in.
pub open spec fn spec_owner_id(acting: Option<UserView>) -> int {
    match acting {
        Some(u) => u.id,
        None => GUEST_USER_ID as int,
    }
}

/// Adding a todo: append a fresh row, not completed, stamped `now`.
pub open spec fn spec_add_todo(s: StoreModel, title: Seq<char>, owner_id: int, now: int) -> StoreModel {
    StoreModel {
        users: s.users,
        todos: s.todos.push(
            TodoModel {
                id: s.next_todo_id,
                user_id: owner_id,
                title: title,
                created_at: now,
                completed: false,
            },
        ),
        sessions: s.sessions,
        next_user_id: s.next_user_id,
        next_todo_id: s.next_todo_id + 1,
        next_token: s.next_token,
        version: s.version + 1,
    }
}

/// Deleting a todo: drop the row with that id if one exists; an id that
/// matches no row leaves the table as it is, and the call still counts as a
/// mutation.
pub open spec fn spec_delete_todo(s: StoreModel, id: int) -> StoreModel {
    StoreModel {
        users: s.users,
        todos: if has_todo(s.todos, id) {
            s.todos.remove(todo_index(s.todos, id))
        } else {
            s.todos
        },
        sessions: s.sessions,
        next_user_id: s.next_user_id,
        next_todo_id: s.next_todo_id,
        next_token: s.next_token,
        version: s.version + 1,
    }
}

impl User {
    /// The public identity of the user carrying `id`, if any.
    pub fn get(id: i64, store: &Store) -> (r: Option<User>)
        requires
            store@.wf(),
        ensures
            user_option_model(r) == spec_user_for(store@.users, id as int),
    {
        match store.find_user_by_id(id) {
            None => None,
            Some(j) => {
                proof {
                    let m = store@;
                    assert(has_user_id(m.users, id as int));
                    let k = choose|k: int|
                        0 <= k < m.users.len() && #[trigger] m.users[k].id == id as int;
                    assert(m.users[k].id == m.users[j as int].id);
                    assert(user_with_id(m.users, id as int) == m.users[j as int]);
                }
                Some(User { id: store.users[j].id, username: store.users[j].username.clone() })
            },
        }
    }
}

impl SqlTodo {
    /// Joins this row with its owner's public identity.
    pub fn into_todo(&self, store: &Store) -> (t: Todo)
        requires
            store@.wf(),
        ensures
            t@ == spec_join(self@, store@.users),
    {
        let user = User::get(self.user_id, store);
        Todo {
            id: self.id,
            user,
            title: self.title.clone(),
            created_at: self.created_at,
            completed: self.completed,
        }
    }
}

impl Store {
    /// All todos, in insertion order, each joined with its owner.
    pub fn get_todos(&self) -> (r: Result<Vec<Todo>, StorageError>)
        requires
            self@.wf(),
        ensures
            (r matches Ok(list) && list@.len() == self@.todos.len() && forall|i: int|
                0 <= i < list@.len() ==> #[trigger] list@[i]@ == spec_join(
                    self@.todos[i],
                    self@.users,
                )),
    {
        let mut out: Vec<Todo> = Vec::new();
        let mut i: usize = 0;
        while i < self.todos.len()
            invariant
                self@.wf(),
                i <= self.todos.len(),
                out@.len() == i,
                forall|k: int|
                    0 <= k < i ==> #[trigger] out@[k]@ == spec_join(self@.todos[k], self@.users),
            decreases self.todos.len() - i,
        {
            let todo = self.todos[i].into_todo(self);
            out.push(todo);
            i = i + 1;
        }
        Ok(out)
    }

    /// Appends a todo owned by `acting_user`, or by the guest when `None`;
    /// never completed at birth. Requires an acting user to be a stored one,
    /// as every caller that resolved it from a session has it.
    pub fn add_todo(&mut self, title: &str, acting_user: Option<User>, now: u64) -> (r: Result<
        (),
        StorageError,
    >)
        requires
            old(self)@.wf(),
            old(self)@.next_todo_id < u32::MAX,
            old(self)@.version < u64::MAX,
            match acting_user {
                Some(u) => has_user_id(old(self)@.users, u.id as int),
                None => true,
            },
        ensures
            final(self)@ == spec_add_todo(
                old(self)@,
                title@,
                spec_owner_id(user_option_model(acting_user)),
                now as int,
            ),
            r == Ok::<(), StorageError>(()),
            final(self)@.wf(),
    {
        let owner_id: i64 = match &acting_user {
            Some(u) => u.id,
            None => GUEST_USER_ID,
        };
        let row = SqlTodo {
            id: self.next_todo_id,
            user_id: owner_id,
            title: title.to_owned(),
            created_at: now,
            completed: false,
        };
        self.todos.push(row);
        self.next_todo_id = self.next_todo_id + 1;
        self.version = self.version + 1;
        proof {
            let target = spec_add_todo(
                old(self)@,
                title@,
                spec_owner_id(user_option_model(acting_user)),
                now as int,
            );
            assert(self@.todos =~= target.todos);
            assert(self@ =~= target);
            crate::laws::lemma_add_preserves_wf(
                old(self)@,
                title@,
                spec_owner_id(user_option_model(acting_user)),
                now as int,
            );
        }
        Ok(())
    }

    /// Removes the todo with the given id. Deliberately idempotent: an id
    /// that matches no row reports success and changes no row. No ownership
    /// check is made against any caller, matching the open behaviour of the
    /// request layer.
    pub fn delete_todo(&mut self, id: u32) -> (r: Result<(), StorageError>)
        requires
            old(self)@.wf(),
            old(self)@.version < u64::MAX,
        ensures
            final(self)@ == spec_delete_todo(old(self)@, id as int),
            r == Ok::<(), StorageError>(()),
            !has_todo(old(self)@.todos, id as int) ==> final(self)@.todos == old(self)@.todos,
            final(self)@.wf(),
    {
        match self.find_todo(id) {
            Some(i) => {
                proof {
                    let m = old(self)@;
                    assert(has_todo(m.todos, id as int));
                    let k = todo_index(m.todos, id as int);
                    assert(m.todos[k].id == m.todos[i as int].id);
                    assert(k == i as int);
                }
                self.todos.remove(i);
                self.version = self.version + 1;
                proof {
                    let target = spec_delete_todo(old(self)@, id as int);
                    assert(self@.todos =~= target.todos);
                    assert(self@ =~= target);
                    crate::laws::lemma_delete_preserves_wf(old(self)@, id as int);
                }
            },
            None => {
                self.version = self.version + 1;
                proof {
                    let target = spec_delete_todo(old(self)@, id as int);
                    assert(self@.todos =~= target.todos);
                    assert(self@ =~= target);
                }
            },
        }
        Ok(())
    }
}

} // verus!
