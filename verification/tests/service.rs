use todo_app::auth::{AuthError, ErrorKind};
use todo_app::model::{REMEMBER_TTL, SESSION_TTL};
use todo_app::store::Store;
use todo_app::todos::StorageError;

#[test]
fn signup_then_current_user_resolves() {
    let mut s = Store::new();
    let sess = s.signup("alice", "pw1", "pw1", 100).expect("fresh signup succeeds");
    let u = s.current_user(sess.token, 100).expect("the session resolves");
    assert_eq!(u.username, "alice");
    assert_eq!(u.id, sess.user_id);
}

#[test]
fn session_expires_at_its_deadline() {
    let mut s = Store::new();
    let sess = s.signup("alice", "pw1", "pw1", 100).unwrap();
    assert_eq!(sess.expires_at, 100 + SESSION_TTL);
    assert!(s.current_user(sess.token, sess.expires_at - 1).is_some());
    assert!(s.current_user(sess.token, sess.expires_at).is_none());
}

#[test]
fn expiry_clamps_at_the_end_of_time() {
    let mut s = Store::new();
    let sess = s.signup("zoe", "pw", "pw", u64::MAX - 10).unwrap();
    assert_eq!(sess.expires_at, u64::MAX);
    assert!(s.current_user(sess.token, u64::MAX - 1).is_some());
}

#[test]
fn signup_mismatch_is_a_validation_error_and_changes_nothing() {
    let mut s = Store::new();
    let before = s.version();
    let r = s.signup("bob", "pw1", "pw2", 0);
    assert_eq!(r.unwrap_err(), AuthError::PasswordMismatch);
    assert_eq!(AuthError::PasswordMismatch.kind(), ErrorKind::Validation);
    assert_eq!(s.version(), before);
    // the username was not burned: a matching signup still succeeds
    assert!(s.signup("bob", "pw1", "pw1", 0).is_ok());
}

#[test]
fn signup_taken_username_is_refused() {
    let mut s = Store::new();
    s.signup("carol", "a", "a", 0).unwrap();
    let r = s.signup("carol", "b", "b", 0);
    assert_eq!(r.unwrap_err(), AuthError::UsernameTaken);
    assert_eq!(AuthError::UsernameTaken.kind(), ErrorKind::Validation);
}

#[test]
fn login_rejects_bad_credentials() {
    let mut s = Store::new();
    s.signup("dave", "right", "right", 0).unwrap();
    let wrong = s.login("dave", "wrong", false, 0);
    assert_eq!(wrong.unwrap_err(), AuthError::InvalidCredentials);
    let unknown = s.login("nobody", "right", false, 0);
    assert_eq!(unknown.unwrap_err(), AuthError::InvalidCredentials);
    assert_eq!(AuthError::InvalidCredentials.kind(), ErrorKind::Auth);
    assert!(s.login("dave", "right", false, 0).is_ok());
}

#[test]
fn remember_me_lengthens_the_session() {
    let mut s = Store::new();
    s.signup("erin", "pw", "pw", 0).unwrap();
    let short = s.login("erin", "pw", false, 50).unwrap();
    assert_eq!(short.expires_at, 50 + SESSION_TTL);
    let long = s.login("erin", "pw", true, 50).unwrap();
    assert_eq!(long.expires_at, 50 + REMEMBER_TTL);
}

#[test]
fn logout_is_idempotent() {
    let mut s = Store::new();
    let sess = s.signup("frank", "pw", "pw", 0).unwrap();
    assert!(s.current_user(sess.token, 1).is_some());
    assert!(s.logout(sess.token).is_ok());
    assert!(s.current_user(sess.token, 1).is_none());
    // logging out the already-logged-out session is not an error
    assert!(s.logout(sess.token).is_ok());
    assert!(s.current_user(sess.token, 1).is_none());
}

#[test]
fn delete_missing_id_reports_success_and_changes_no_row() {
    let mut s = Store::new();
    s.add_todo("keep me", None, 7).unwrap();
    let before = s.get_todos().unwrap();
    assert!(s.delete_todo(999).is_ok());
    let after = s.get_todos().unwrap();
    assert_eq!(after.len(), before.len());
    assert_eq!(after[0].title, "keep me");
    assert_eq!(after[0].id, before[0].id);
}

#[test]
fn guest_add_appends_one_unowned_open_row() {
    let mut s = Store::new();
    s.add_todo("first", None, 1).unwrap();
    let before = s.get_todos().unwrap();
    s.add_todo("second", None, 2).unwrap();
    let after = s.get_todos().unwrap();
    assert_eq!(after.len(), before.len() + 1);
    let last = after.last().unwrap();
    assert!(last.user.is_none());
    assert!(!last.completed);
    assert_eq!(last.title, "second");
    assert_eq!(last.created_at, 2);
}

#[test]
fn duplicate_titles_are_permitted() {
    let mut s = Store::new();
    s.add_todo("same", None, 0).unwrap();
    s.add_todo("same", None, 0).unwrap();
    let list = s.get_todos().unwrap();
    assert_eq!(list.len(), 2);
    assert_eq!(list[0].title, "same");
    assert_eq!(list[1].title, "same");
    assert_ne!(list[0].id, list[1].id);
}

#[test]
fn listing_keeps_insertion_order_and_joins_owners() {
    let mut s = Store::new();
    let sess = s.signup("gina", "pw", "pw", 0).unwrap();
    let gina = s.current_user(sess.token, 1).unwrap();
    s.add_todo("guest item", None, 1).unwrap();
    s.add_todo("gina item", Some(gina), 2).unwrap();
    let list = s.get_todos().unwrap();
    assert_eq!(list.len(), 2);
    assert_eq!(list[0].title, "guest item");
    assert!(list[0].user.is_none());
    assert_eq!(list[1].title, "gina item");
    assert_eq!(list[1].user.as_ref().unwrap().username, "gina");
}

#[test]
fn version_counter_moves_on_success_and_stays_on_failure() {
    let mut s = Store::new();
    assert_eq!(s.version(), 0);
    let sess = s.signup("hugo", "pw", "pw", 0).unwrap();
    assert_eq!(s.version(), 1);
    s.add_todo("x", None, 0).unwrap();
    assert_eq!(s.version(), 2);
    assert!(s.login("hugo", "bad", false, 0).is_err());
    assert_eq!(s.version(), 2);
    s.delete_todo(12345).unwrap();
    assert_eq!(s.version(), 3);
    s.logout(sess.token).unwrap();
    assert_eq!(s.version(), 4);
    assert!(!s.needs_refetch(4));
    assert!(s.needs_refetch(3));
}

#[test]
fn storage_error_is_server_side() {
    assert_eq!(StorageError::Unavailable.kind(), ErrorKind::Storage);
}

#[test]
fn capacity_holds_on_a_fresh_store() {
    let s = Store::new();
    assert!(s.has_capacity());
}
