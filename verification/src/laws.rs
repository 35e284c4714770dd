//! The laws of the service, proved once and for all states: every operation
//! preserves well-formedness, and the cross-operation guarantees relating
//! signup, login, logout and the todo operations.

use vstd::prelude::*;

use crate::auth::{spec_login, spec_logout, spec_signup, spec_auth_error_kind, AuthError, ErrorKind};
use crate::todos::{spec_add_todo, spec_delete_todo, spec_join};
use crate::model::{
    has_session, has_todo, has_user_id, has_user_named, session_for, session_index,
    spec_current_user, todo_index, user_with_id, StoreModel, TodoJoined, UserView, GUEST_USER_ID,
};

verus! {

/// Signup leaves a well-formed store well-formed, whichever way it went.
pub proof fn lemma_signup_preserves_wf(
    s: StoreModel,
    username: Seq<char>,
    password: Seq<char>,
    confirmation: Seq<char>,
    now: int,
)
    requires
        s.wf(),
        s.next_user_id < i64::MAX,
        s.next_token < u64::MAX,
        s.version < u64::MAX,
        0 <= now <= u64::MAX,
    ensures
        spec_signup(s, username, password, confirmation, now).0.wf(),
{
    let t = spec_signup(s, username, password, confirmation, now).0;
    if password == confirmation && !has_user_named(s.users, username) {
        assert forall|k: int| 0 <= k < s.users.len() implies #[trigger] s.users[k].username
            != username by {
            if s.users[k].username == username {
                assert(has_user_named(s.users, username));
            }
        }
        assert forall|i: int, j: int|
            0 <= i < t.users.len() && 0 <= j < t.users.len() && #[trigger] t.users[i].id
                == #[trigger] t.users[j].id implies i == j by {
            if i < s.users.len() && j < s.users.len() {
            } else if i == s.users.len() && j < s.users.len() {
                assert(s.users[j].id < s.next_user_id);
            } else if j == s.users.len() && i < s.users.len() {
                assert(s.users[i].id < s.next_user_id);
            }
        }
        assert forall|i: int, j: int|
            0 <= i < t.users.len() && 0 <= j < t.users.len() && #[trigger] t.users[i].username
                == #[trigger] t.users[j].username implies i == j by {
            if i < s.users.len() && j < s.users.len() {
            } else if i == s.users.len() && j < s.users.len() {
                assert(s.users[j].username != username);
            } else if j == s.users.len() && i < s.users.len() {
                assert(s.users[i].username != username);
            }
        }
        assert forall|i: int, j: int|
            0 <= i < t.sessions.len() && 0 <= j < t.sessions.len() && #[trigger] t.sessions[i].token
                == #[trigger] t.sessions[j].token implies i == j by {
            if i < s.sessions.len() && j < s.sessions.len() {
            } else if i == s.sessions.len() && j < s.sessions.len() {
                assert(s.sessions[j].token < s.next_token);
            } else if j == s.sessions.len() && i < s.sessions.len() {
                assert(s.sessions[i].token < s.next_token);
            }
        }
        assert forall|i: int| 0 <= i < t.sessions.len() implies has_user_id(
            t.users,
            #[trigger] t.sessions[i].user_id,
        ) by {
            if i < s.sessions.len() {
                assert(has_user_id(s.users, s.sessions[i].user_id));
                let k = choose|k: int|
                    0 <= k < s.users.len() && #[trigger] s.users[k].id == s.sessions[i].user_id;
                assert(t.users[k].id == s.sessions[i].user_id);
            } else {
                assert(t.users[s.users.len() as int].id == t.sessions[i].user_id);
            }
        }
        assert forall|i: int| 0 <= i < t.todos.len() implies (
            #[trigger] t.todos[i].user_id == crate::model::GUEST_USER_ID as int
                || has_user_id(t.users, t.todos[i].user_id)) by {
            if s.todos[i].user_id != crate::model::GUEST_USER_ID as int {
                assert(has_user_id(s.users, s.todos[i].user_id));
                let k = choose|k: int|
                    0 <= k < s.users.len() && #[trigger] s.users[k].id == s.todos[i].user_id;
                assert(t.users[k].id == s.todos[i].user_id);
            }
        }
    }
}

/// Login leaves a well-formed store well-formed, whichever way it went.
pub proof fn lemma_login_preserves_wf(
    s: StoreModel,
    username: Seq<char>,
    password: Seq<char>,
    remember: bool,
    now: int,
)
    requires
        s.wf(),
        s.next_token < u64::MAX,
        s.version < u64::MAX,
        0 <= now <= u64::MAX,
    ensures
        spec_login(s, username, password, remember, now).0.wf(),
{
    let t = spec_login(s, username, password, remember, now).0;
    if crate::auth::spec_credentials_ok(s, username, password) {
        assert forall|i: int, j: int|
            0 <= i < t.sessions.len() && 0 <= j < t.sessions.len() && #[trigger] t.sessions[i].token
                == #[trigger] t.sessions[j].token implies i == j by {
            if i < s.sessions.len() && j < s.sessions.len() {
            } else if i == s.sessions.len() && j < s.sessions.len() {
                assert(s.sessions[j].token < s.next_token);
            } else if j == s.sessions.len() && i < s.sessions.len() {
                assert(s.sessions[i].token < s.next_token);
            }
        }
        assert forall|i: int| 0 <= i < t.sessions.len() implies has_user_id(
            t.users,
            #[trigger] t.sessions[i].user_id,
        ) by {
            if i < s.sessions.len() {
                assert(has_user_id(s.users, s.sessions[i].user_id));
            } else {
                assert(has_user_named(s.users, username));
                let k = choose|k: int|
                    0 <= k < s.users.len() && #[trigger] s.users[k].username == username;
                assert(s.users[k].id == t.sessions[i].user_id);
            }
        }
    }
}

/// Logout leaves a well-formed store well-formed, whether or not the token
/// still named a session.
pub proof fn lemma_logout_preserves_wf(s: StoreModel, token: int)
    requires
        s.wf(),
        s.version < u64::MAX,
    ensures
        spec_logout(s, token).wf(),
{
    let t = spec_logout(s, token);
    if has_session(s.sessions, token) {
        let idx = session_index(s.sessions, token);
        assert(0 <= idx < s.sessions.len());
        assert forall|i: int, j: int|
            0 <= i < t.sessions.len() && 0 <= j < t.sessions.len() && #[trigger] t.sessions[i].token
                == #[trigger] t.sessions[j].token implies i == j by {
            let i0 = if i < idx { i } else { i + 1 };
            let j0 = if j < idx { j } else { j + 1 };
            assert(t.sessions[i] == s.sessions[i0]);
            assert(t.sessions[j] == s.sessions[j0]);
        }
        assert forall|i: int| 0 <= i < t.sessions.len() implies 0 <= #[trigger] t.sessions[i].token
            < s.next_token by {
            let i0 = if i < idx { i } else { i + 1 };
            assert(t.sessions[i] == s.sessions[i0]);
        }
        assert forall|i: int| 0 <= i < t.sessions.len() implies has_user_id(
            t.users,
            #[trigger] t.sessions[i].user_id,
        ) by {
            let i0 = if i < idx { i } else { i + 1 };
            assert(t.sessions[i] == s.sessions[i0]);
        }
        assert forall|i: int| 0 <= i < t.sessions.len() implies 0 <= #[trigger] t.sessions[i].expires_at
            <= u64::MAX by {
            let i0 = if i < idx { i } else { i + 1 };
            assert(t.sessions[i] == s.sessions[i0]);
        }
    }
}

/// Adding a todo for a stored user (or the guest) leaves a well-formed store
/// well-formed.
pub proof fn lemma_add_preserves_wf(s: StoreModel, title: Seq<char>, owner_id: int, now: int)
    requires
        s.wf(),
        s.next_todo_id < u32::MAX,
        s.version < u64::MAX,
        owner_id == crate::model::GUEST_USER_ID as int || has_user_id(s.users, owner_id),
    ensures
        spec_add_todo(s, title, owner_id, now).wf(),
{
    let t = spec_add_todo(s, title, owner_id, now);
    assert forall|i: int, j: int|
        0 <= i < t.todos.len() && 0 <= j < t.todos.len() && #[trigger] t.todos[i].id
            == #[trigger] t.todos[j].id implies i == j by {
        if i < s.todos.len() && j < s.todos.len() {
        } else if i == s.todos.len() && j < s.todos.len() {
            assert(s.todos[j].id < s.next_todo_id);
        } else if j == s.todos.len() && i < s.todos.len() {
            assert(s.todos[i].id < s.next_todo_id);
        }
    }
}

/// Deleting by id leaves a well-formed store well-formed, whether or not the
/// id named a row.
pub proof fn lemma_delete_preserves_wf(s: StoreModel, id: int)
    requires
        s.wf(),
        s.version < u64::MAX,
    ensures
        spec_delete_todo(s, id).wf(),
{
    let t = spec_delete_todo(s, id);
    if has_todo(s.todos, id) {
        let idx = todo_index(s.todos, id);
        assert(0 <= idx < s.todos.len());
        assert forall|i: int, j: int|
            0 <= i < t.todos.len() && 0 <= j < t.todos.len() && #[trigger] t.todos[i].id
                == #[trigger] t.todos[j].id implies i == j by {
            let i0 = if i < idx { i } else { i + 1 };
            let j0 = if j < idx { j } else { j + 1 };
            assert(t.todos[i] == s.todos[i0]);
            assert(t.todos[j] == s.todos[j0]);
        }
        assert forall|i: int| 0 <= i < t.todos.len() implies 0 <= #[trigger] t.todos[i].id
            < s.next_todo_id by {
            let i0 = if i < idx { i } else { i + 1 };
            assert(t.todos[i] == s.todos[i0]);
        }
        assert forall|i: int| 0 <= i < t.todos.len() implies (
            #[trigger] t.todos[i].user_id == crate::model::GUEST_USER_ID as int
                || has_user_id(t.users, t.todos[i].user_id)) by {
            let i0 = if i < idx { i } else { i + 1 };
            assert(t.todos[i] == s.todos[i0]);
        }
    }
}

/// For every store and every signup with matching passwords and a username no
/// account carries, signup succeeds, and resolving the returned session at
/// the same moment yields exactly the new user.
pub proof fn lemma_signup_then_current_user(
    s: StoreModel,
    username: Seq<char>,
    password: Seq<char>,
    now: int,
)
    requires
        s.wf(),
        s.next_user_id < i64::MAX,
        s.next_token < u64::MAX,
        s.version < u64::MAX,
        0 <= now < u64::MAX,
        !has_user_named(s.users, username),
    ensures
        spec_signup(s, username, password, password, now).1 is Ok,
        spec_current_user(
            spec_signup(s, username, password, password, now).0,
            spec_signup(s, username, password, password, now).1->Ok_0.token,
            now,
        ) == Some(UserView { id: s.next_user_id, username }),
{
    let t = spec_signup(s, username, password, password, now).0;
    let sess = spec_signup(s, username, password, password, now).1->Ok_0;
    lemma_signup_preserves_wf(s, username, password, password, now);
    let si = s.sessions.len() as int;
    assert(t.sessions[si].token == sess.token);
    assert(has_session(t.sessions, sess.token));
    let k = session_index(t.sessions, sess.token);
    assert(t.sessions[k].token == t.sessions[si].token);
    assert(k == si);
    assert(session_for(t.sessions, sess.token) == sess);
    assert(now < sess.expires_at);
    let ui = s.users.len() as int;
    assert(t.users[ui].id == s.next_user_id);
    assert(has_user_id(t.users, s.next_user_id));
    let k2 = choose|j: int| 0 <= j < t.users.len() && #[trigger] t.users[j].id == s.next_user_id;
    assert(t.users[k2].id == t.users[ui].id);
    assert(k2 == ui);
    assert(user_with_id(t.users, s.next_user_id) == t.users[ui]);
}

/// An account made by a successful signup can log in with its password, at
/// any later moment and with either session lifetime: signup stores exactly
/// the hash that login checks.
pub proof fn lemma_signup_then_login(
    s: StoreModel,
    username: Seq<char>,
    password: Seq<char>,
    now: int,
    remember: bool,
    later: int,
)
    requires
        s.wf(),
        s.next_user_id < i64::MAX,
        s.next_token < u64::MAX,
        s.version < u64::MAX,
        0 <= now <= u64::MAX,
        !has_user_named(s.users, username),
    ensures
        spec_login(
            spec_signup(s, username, password, password, now).0,
            username,
            password,
            remember,
            later,
        ).1 is Ok,
{
    let t = spec_signup(s, username, password, password, now).0;
    lemma_signup_preserves_wf(s, username, password, password, now);
    let ui = s.users.len() as int;
    assert(t.users[ui].username == username);
    assert(has_user_named(t.users, username));
    let k = choose|j: int| 0 <= j < t.users.len() && #[trigger] t.users[j].username == username;
    assert(t.users[k].username == t.users[ui].username);
    assert(k == ui);
    assert(crate::model::user_named(t.users, username) == t.users[ui]);
    assert(crate::auth::spec_credentials_ok(t, username, password));
}

/// Signup with a confirmation that does not repeat the password fails with
/// the password-mismatch error — a validation error — and changes nothing,
/// whatever the other fields and the state.
pub proof fn lemma_signup_mismatch_rejected(
    s: StoreModel,
    username: Seq<char>,
    password: Seq<char>,
    confirmation: Seq<char>,
    now: int,
)
    requires
        password != confirmation,
    ensures
        spec_signup(s, username, password, confirmation, now).0 == s,
        spec_signup(s, username, password, confirmation, now).1 == Err::<
            crate::model::SessionModel,
            AuthError,
        >(AuthError::PasswordMismatch),
        spec_auth_error_kind(AuthError::PasswordMismatch) == ErrorKind::Validation,
{
}

/// Deleting an id that no row carries reports no change to any table: only
/// the version moves.
pub proof fn lemma_delete_missing_is_noop(s: StoreModel, id: int)
    requires
        !has_todo(s.todos, id),
    ensures
        spec_delete_todo(s, id).todos == s.todos,
        spec_delete_todo(s, id).users == s.users,
        spec_delete_todo(s, id).sessions == s.sessions,
{
}

/// Deleting the same id twice leaves the same todo table as deleting it once:
/// deletion is idempotent on the rows.
pub proof fn lemma_delete_idempotent(s: StoreModel, id: int)
    requires
        s.wf(),
    ensures
        spec_delete_todo(spec_delete_todo(s, id), id).todos == spec_delete_todo(s, id).todos,
{
    let t = spec_delete_todo(s, id);
    if has_todo(s.todos, id) {
        let idx = todo_index(s.todos, id);
        assert(0 <= idx < s.todos.len());
        assert forall|i: int| 0 <= i < t.todos.len() implies #[trigger] t.todos[i].id != id by {
            let i0 = if i < idx { i } else { i + 1 };
            assert(t.todos[i] == s.todos[i0]);
            if s.todos[i0].id == id {
                assert(s.todos[idx].id == id);
            }
        }
        assert(!has_todo(t.todos, id)) by {
            if has_todo(t.todos, id) {
                let k = choose|k: int| 0 <= k < t.todos.len() && #[trigger] t.todos[k].id == id;
                assert(t.todos[k].id != id);
            }
        }
    } else {
        assert(t.todos == s.todos);
        assert(!has_todo(t.todos, id));
    }
}

/// Adding a todo as a guest appends exactly one row, keeps every earlier row
/// in place, and the new row joins to no owner, carries the given title, and
/// is not completed.
pub proof fn lemma_add_guest_then_list(s: StoreModel, title: Seq<char>, now: int)
    requires
        s.wf(),
    ensures
        spec_add_todo(s, title, GUEST_USER_ID as int, now).todos.len() == s.todos.len() + 1,
        forall|i: int|
            0 <= i < s.todos.len() ==> #[trigger] spec_add_todo(
                s,
                title,
                GUEST_USER_ID as int,
                now,
            ).todos[i] == s.todos[i],
        spec_join(
            spec_add_todo(s, title, GUEST_USER_ID as int, now).todos.last(),
            spec_add_todo(s, title, GUEST_USER_ID as int, now).users,
        ) == (TodoJoined {
            id: s.next_todo_id,
            user: None::<UserView>,
            title: title,
            created_at: now,
            completed: false,
        }),
{
    assert(!has_user_id(s.users, GUEST_USER_ID as int)) by {
        if has_user_id(s.users, GUEST_USER_ID as int) {
            let k = choose|k: int|
                0 <= k < s.users.len() && #[trigger] s.users[k].id == GUEST_USER_ID as int;
            assert(0 <= s.users[k].id);
        }
    }
}

/// After a logout the token names no session any more.
pub proof fn lemma_logout_removes_token(s: StoreModel, token: int)
    requires
        s.wf(),
    ensures
        !has_session(spec_logout(s, token).sessions, token),
{
    let t = spec_logout(s, token);
    if has_session(s.sessions, token) {
        let idx = session_index(s.sessions, token);
        assert(0 <= idx < s.sessions.len());
        assert forall|i: int| 0 <= i < t.sessions.len() implies #[trigger] t.sessions[i].token
            != token by {
            let i0 = if i < idx { i } else { i + 1 };
            assert(t.sessions[i] == s.sessions[i0]);
            if s.sessions[i0].token == token {
                assert(s.sessions[idx].token == token);
            }
        }
        if has_session(t.sessions, token) {
            let k = choose|k: int|
                0 <= k < t.sessions.len() && #[trigger] t.sessions[k].token == token;
            assert(t.sessions[k].token != token);
        }
    } else {
        assert(t.sessions == s.sessions);
    }
}

/// Logging out a token that names no session leaves the sessions as they
/// were, and logging out twice leaves the same sessions as logging out once:
/// logout never errors and is idempotent on the session table.
pub proof fn lemma_logout_idempotent(s: StoreModel, token: int)
    requires
        s.wf(),
    ensures
        !has_session(s.sessions, token) ==> spec_logout(s, token).sessions == s.sessions,
        spec_logout(spec_logout(s, token), token).sessions == spec_logout(s, token).sessions,
{
    lemma_logout_removes_token(s, token);
}

/// A logged-out token no longer resolves to any user, at any moment: the
/// client that held it is anonymous again.
pub proof fn lemma_logout_invalidates(s: StoreModel, token: int, now: int)
    requires
        s.wf(),
    ensures
        spec_current_user(spec_logout(s, token), token, now) is None,
{
    lemma_logout_removes_token(s, token);
}

} // verus!
