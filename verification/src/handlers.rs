//! The request layer: the session-gated navigation state machine, the route
//! access policy, and the handlers that compose session resolution with the
//! auth and todo services.
//!
//! Listing is open to everyone and needs no handler beyond `Store::get_todos`;
//! deletion is likewise open — no ownership check is made, deliberately
//! mirroring the permissive endpoint — so callers invoke `Store::delete_todo`
//! directly.

use vstd::prelude::*;

use crate::auth::{spec_login, spec_signup, AuthError};
use crate::model::{spec_current_user, StoreModel, UserView};
use crate::store::{Session, Store};
use crate::todos::{spec_add_todo, spec_owner_id, StorageError};

verus! {

/// What a client can see of its own standing.
#[derive(Clone, Copy, Debug, PartialEq, Eq, Structural)]
pub enum ClientState {
    Anonymous,
    Authenticated,
}

/// The navigable routes.
#[derive(Clone, Copy, Debug, PartialEq, Eq, Structural)]
pub enum Route {
    TodoList,
    Login,
    Signup,
    Settings,
}

/// The observations that move the client state.
#[derive(Clone, Copy, Debug, PartialEq, Eq, Structural)]
pub enum AuthEvent {
    LoginSucceeded,
    SignupSucceeded,
    LoggedOut,
}

/// The ghost value of the token a transport hands over.
pub open spec fn opt_token_model(token: Option<u64>) -> Option<int> {
    match token {
        Some(t) => Some(t as int),
        None => None,
    }
}

/// Resolving an optional token: no token, no user.
pub open spec fn spec_current_user_opt(s: StoreModel, token: Option<int>, now: int) -> Option<
    UserView,
> {
    match token {
        Some(t) => spec_current_user(s, t, now),
        None => None,
    }
}

/// A client is authenticated exactly when its token resolves to a user.
pub open spec fn spec_client_state(s: StoreModel, token: Option<int>, now: int) -> ClientState {
    if spec_current_user_opt(s, token, now) is Some {
        ClientState::Authenticated
    } else {
        ClientState::Anonymous
    }
}

/// Route access: the list is open to all; login and signup only to anonymous
/// clients; settings only to authenticated ones.
pub open spec fn spec_route_allowed(st: ClientState, route: Route) -> bool {
    match route {
        Route::TodoList => true,
        Route::Login => st is Anonymous,
        Route::Signup => st is Anonymous,
        Route::Settings => st is Authenticated,
    }
}

/// Client-state transitions: a successful login or signup authenticates, a
/// logout returns to anonymous, whatever the state before.
pub open spec fn spec_next_state(st: ClientState, ev: AuthEvent) -> ClientState {
    match ev {
        AuthEvent::LoginSucceeded => ClientState::Authenticated,
        AuthEvent::SignupSucceeded => ClientState::Authenticated,
        AuthEvent::LoggedOut => ClientState::Anonymous,
    }
}

/// Whether `route` may be shown to a client in state `st`; a refused route
/// redirects to the list.
pub fn route_allowed(st: ClientState, route: Route) -> (b: bool)
    ensures
        b == spec_route_allowed(st, route),
{
    match route {
        Route::TodoList => true,
        Route::Login => st == ClientState::Anonymous,
        Route::Signup => st == ClientState::Anonymous,
        Route::Settings => st == ClientState::Authenticated,
    }
}

/// The state a client moves to on observing `ev`.
pub fn next_state(st: ClientState, ev: AuthEvent) -> (r: ClientState)
    ensures
        r == spec_next_state(st, ev),
{
    match ev {
        AuthEvent::LoginSucceeded => ClientState::Authenticated,
        AuthEvent::SignupSucceeded => ClientState::Authenticated,
        AuthEvent::LoggedOut => ClientState::Anonymous,
    }
}

/// The client state the store assigns to a request carrying `token`.
pub fn client_state(store: &Store, token: Option<u64>, now: u64) -> (st: ClientState)
    requires
        store@.wf(),
    ensures
        st == spec_client_state(store@, opt_token_model(token), now as int),
{
    let user = match token {
        Some(t) => store.current_user(t, now),
        None => None,
    };
    match user {
        Some(_) => ClientState::Authenticated,
        None => ClientState::Anonymous,
    }
}

/// Outcome of a session-establishing request.
#[derive(Clone, Copy, Debug, PartialEq, Eq)]
pub enum AuthResponse {
    /// The caller already holds a live session: sent back to the list.
    Redirected,
    /// The operation succeeded and this session was established.
    SignedIn(Session),
    /// The operation was refused.
    Rejected(AuthError),
}

/// How an `AuthResponse` reports an auth result.
pub open spec fn response_matches(r: AuthResponse, out: Result<
    crate::model::SessionModel,
    AuthError,
>) -> bool {
    match out {
        Ok(sm) => r matches AuthResponse::SignedIn(sess) && sess@ == sm,
        Err(e) => r == AuthResponse::Rejected(e),
    }
}

/// The login endpoint: a caller with a live session is redirected away and
/// nothing changes; otherwise the auth service decides.
pub fn handle_login(
    store: &mut Store,
    token: Option<u64>,
    username: &str,
    password: &str,
    remember: bool,
    now: u64,
) -> (r: AuthResponse)
    requires
        old(store)@.wf(),
        old(store)@.next_token < u64::MAX,
        old(store)@.version < u64::MAX,
    ensures
        final(store)@.wf(),
        spec_client_state(old(store)@, opt_token_model(token), now as int) is Authenticated ==> (
        final(store)@ == old(store)@ && r == AuthResponse::Redirected),
        spec_client_state(old(store)@, opt_token_model(token), now as int) is Anonymous ==> (
        final(store)@ == spec_login(old(store)@, username@, password@, remember, now as int).0
            && response_matches(
            r,
            spec_login(old(store)@, username@, password@, remember, now as int).1,
        )),
{
    match client_state(store, token, now) {
        ClientState::Authenticated => AuthResponse::Redirected,
        ClientState::Anonymous => {
            match store.login(username, password, remember, now) {
                Ok(sess) => AuthResponse::SignedIn(sess),
                Err(e) => AuthResponse::Rejected(e),
            }
        },
    }
}

/// The signup endpoint: a caller with a live session is redirected away and
/// nothing changes; otherwise the auth service decides.
pub fn handle_signup(
    store: &mut Store,
    token: Option<u64>,
    username: &str,
    password: &str,
    password_confirmation: &str,
    now: u64,
) -> (r: AuthResponse)
    requires
        old(store)@.wf(),
        old(store)@.next_user_id < i64::MAX,
        old(store)@.next_token < u64::MAX,
        old(store)@.version < u64::MAX,
    ensures
        final(store)@.wf(),
        spec_client_state(old(store)@, opt_token_model(token), now as int) is Authenticated ==> (
        final(store)@ == old(store)@ && r == AuthResponse::Redirected),
        spec_client_state(old(store)@, opt_token_model(token), now as int) is Anonymous ==> (
        final(store)@ == spec_signup(
            old(store)@,
            username@,
            password@,
            password_confirmation@,
            now as int,
        ).0 && response_matches(
            r,
            spec_signup(old(store)@, username@, password@, password_confirmation@, now as int).1,
        )),
{
    match client_state(store, token, now) {
        ClientState::Authenticated => AuthResponse::Redirected,
        ClientState::Anonymous => {
            match store.signup(username, password, password_confirmation, now) {
                Ok(sess) => AuthResponse::SignedIn(sess),
                Err(e) => AuthResponse::Rejected(e),
            }
        },
    }
}

/// The logout endpoint: invalidates the token's session if it still has one;
/// a caller without a token, or with a dead one, gets the same success.
pub fn handle_logout(store: &mut Store, token: Option<u64>) -> (r: Result<(), AuthError>)
    requires
        old(store)@.wf(),
        old(store)@.version < u64::MAX,
    ensures
        final(store)@.wf(),
        r == Ok::<(), AuthError>(()),
        match token {
            Some(t) => final(store)@ == crate::auth::spec_logout(old(store)@, t as int),
            None => final(store)@ == old(store)@,
        },
{
    match token {
        Some(t) => store.logout(t),
        None => Ok(()),
    }
}

/// The add-todo endpoint, open to guests and users alike: the row's owner is
/// whoever the token resolves to at `now`, else the guest.
pub fn handle_add_todo(
    store: &mut Store,
    token: Option<u64>,
    title: &str,
    now: u64,
) -> (r: Result<(), StorageError>)
    requires
        old(store)@.wf(),
        old(store)@.next_todo_id < u32::MAX,
        old(store)@.version < u64::MAX,
    ensures
        final(store)@.wf(),
        r == Ok::<(), StorageError>(()),
        final(store)@ == spec_add_todo(
            old(store)@,
            title@,
            spec_owner_id(spec_current_user_opt(old(store)@, opt_token_model(token), now as int)),
            now as int,
        ),
{
    let user = match token {
        Some(t) => store.current_user(t, now),
        None => None,
    };
    proof {
        let m = old(store)@;
        if user is Some {
            let u = user->Some_0;
            let uv = spec_current_user_opt(m, opt_token_model(token), now as int);
            assert(uv == Some(u@));
            let tok = token->Some_0 as int;
            let sess = crate::model::session_for(m.sessions, tok);
            let k = choose|k: int|
                0 <= k < m.users.len() && #[trigger] m.users[k].id == sess.user_id;
            assert(m.users[k].id == u@.id);
            assert(crate::model::has_user_id(m.users, u@.id));
        }
    }
    store.add_todo(title, user, now)
}

} // verus!
