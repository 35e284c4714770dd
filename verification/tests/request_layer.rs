use todo_app::auth::AuthError;
use todo_app::handlers::{
    client_state, handle_add_todo, handle_login, handle_logout, handle_signup, next_state,
    route_allowed, AuthEvent, AuthResponse, ClientState, Route,
};
use todo_app::store::Store;
use todo_app::todos::Todo;

#[test]
fn route_access_follows_the_client_state() {
    assert!(route_allowed(ClientState::Anonymous, Route::TodoList));
    assert!(route_allowed(ClientState::Authenticated, Route::TodoList));
    assert!(route_allowed(ClientState::Anonymous, Route::Login));
    assert!(!route_allowed(ClientState::Authenticated, Route::Login));
    assert!(route_allowed(ClientState::Anonymous, Route::Signup));
    assert!(!route_allowed(ClientState::Authenticated, Route::Signup));
    assert!(!route_allowed(ClientState::Anonymous, Route::Settings));
    assert!(route_allowed(ClientState::Authenticated, Route::Settings));
}

#[test]
fn state_transitions() {
    assert_eq!(
        next_state(ClientState::Anonymous, AuthEvent::LoginSucceeded),
        ClientState::Authenticated
    );
    assert_eq!(
        next_state(ClientState::Anonymous, AuthEvent::SignupSucceeded),
        ClientState::Authenticated
    );
    assert_eq!(
        next_state(ClientState::Authenticated, AuthEvent::LoggedOut),
        ClientState::Anonymous
    );
    assert_eq!(
        next_state(ClientState::Anonymous, AuthEvent::LoggedOut),
        ClientState::Anonymous
    );
}

#[test]
fn client_state_tracks_the_session() {
    let mut s = Store::new();
    assert_eq!(client_state(&s, None, 0), ClientState::Anonymous);
    let sess = s.signup("alice", "pw", "pw", 0).unwrap();
    assert_eq!(client_state(&s, Some(sess.token), 1), ClientState::Authenticated);
    assert_eq!(
        client_state(&s, Some(sess.token), sess.expires_at),
        ClientState::Anonymous
    );
    assert_eq!(client_state(&s, Some(sess.token + 7), 1), ClientState::Anonymous);
}

#[test]
fn login_and_signup_redirect_a_live_session_away() {
    let mut s = Store::new();
    let sess = s.signup("alice", "pw", "pw", 0).unwrap();
    let v = s.version();
    let r = handle_login(&mut s, Some(sess.token), "alice", "pw", false, 1);
    assert_eq!(r, AuthResponse::Redirected);
    let r = handle_signup(&mut s, Some(sess.token), "bob", "pw", "pw", 1);
    assert_eq!(r, AuthResponse::Redirected);
    assert_eq!(s.version(), v);
}

#[test]
fn handlers_pass_results_through() {
    let mut s = Store::new();
    let r = handle_signup(&mut s, None, "alice", "pw", "qw", 0);
    assert_eq!(r, AuthResponse::Rejected(AuthError::PasswordMismatch));
    let r = handle_signup(&mut s, None, "alice", "pw", "pw", 0);
    match r {
        AuthResponse::SignedIn(sess) => {
            assert!(s.current_user(sess.token, 1).is_some());
        }
        other => panic!("expected a session, got {:?}", other),
    }
    let r = handle_login(&mut s, None, "alice", "nope", false, 1);
    assert_eq!(r, AuthResponse::Rejected(AuthError::InvalidCredentials));
}

#[test]
fn handle_logout_without_a_token_still_succeeds() {
    let mut s = Store::new();
    let v = s.version();
    assert!(handle_logout(&mut s, None).is_ok());
    assert_eq!(s.version(), v);
    assert!(handle_logout(&mut s, Some(42)).is_ok());
    assert_eq!(s.version(), v + 1);
}

#[test]
fn full_scenario_signup_login_add_list_delete() {
    let mut s = Store::new();
    assert!(s.signup("alice", "pw1", "pw1", 0).is_ok());
    let sess = s.login("alice", "pw1", false, 1).unwrap();
    assert!(handle_add_todo(&mut s, Some(sess.token), "buy milk", 2).is_ok());
    let list = s.get_todos().unwrap();
    let row: &Todo = list
        .iter()
        .find(|t| t.title == "buy milk")
        .expect("the new row is listed");
    assert_eq!(row.user.as_ref().unwrap().username, "alice");
    assert!(!row.completed);
    let id = row.id;
    assert!(s.delete_todo(id).is_ok());
    let list = s.get_todos().unwrap();
    assert!(list.iter().all(|t| t.id != id));
}

#[test]
fn an_expired_token_adds_as_guest() {
    let mut s = Store::new();
    let sess = s.signup("alice", "pw", "pw", 0).unwrap();
    assert!(handle_add_todo(&mut s, Some(sess.token), "late", sess.expires_at + 1).is_ok());
    let list = s.get_todos().unwrap();
    assert!(list[0].user.is_none());
}
