//! The auth service: signup, login, logout and session resolution, together
//! with the spec-level transition functions their contracts are stated over.

use vstd::prelude::*;
use vstd::string::StringExecFns;

use crate::model::{
    has_session, has_user_id, has_user_named, session_index, spec_current_user, spec_expiry,
    user_named, user_with_id, SessionModel, StoreModel, UserModel, UserView, REMEMBER_TTL, SESSION_TTL,
};
use crate::store::{Session, Store, User, UserRow};

verus! {

/// Why an auth operation was refused.
#[derive(Clone, Copy, Debug, PartialEq, Eq)]
pub enum AuthError {
    /// Signup: the confirmation does not repeat the password.
    PasswordMismatch,
    /// Signup: an account with that username already exists.
    UsernameTaken,
    /// Login: unknown username, or the password does not match.
    InvalidCredentials,
}

/// The error taxonomy the caller-facing layer sorts errors into.
#[derive(Clone, Copy, Debug, PartialEq, Eq)]
pub enum ErrorKind {
    Validation,
    Auth,
    NotFound,
    Storage,
}

pub open spec fn spec_auth_error_kind(e: AuthError) -> ErrorKind {
    match e {
        AuthError::PasswordMismatch => ErrorKind::Validation,
        AuthError::UsernameTaken => ErrorKind::Validation,
        AuthError::InvalidCredentials => ErrorKind::Auth,
    }
}

impl AuthError {
    /// Which class of the taxonomy this error falls in: bad input is
    /// validation, a failed credential check is an auth failure.
    pub fn kind(&self) -> (k: ErrorKind)
        ensures
            k == spec_auth_error_kind(*self),
    {
        match self {
            AuthError::PasswordMismatch => ErrorKind::Validation,
            AuthError::UsernameTaken => ErrorKind::Validation,
            AuthError::InvalidCredentials => ErrorKind::Auth,
        }
    }
}

/// The password hash stored on an account. A stand-in scheme: deterministic
/// in the password alone, and kept behind this module so that callers depend
/// only on that determinism, never on the scheme itself.
pub closed spec fn hash_of(password: Seq<char>) -> Seq<char> {
    seq!['#'] + password
}

/// Hashes a password for storage; the only producer of stored hashes.
fn hash_password(password: &str) -> (h: String)
    ensures
        h@ == hash_of(password@),
{
    proof {
        reveal_strlit("#");
    }
    let prefix: String = "#".to_owned();
    let h = prefix.concat(password);
    proof {
        assert(h@ =~= hash_of(password@));
    }
    h
}

/// The credential check of login: the username names an account and the
/// stored hash is the hash of the password offered.
pub open spec fn spec_credentials_ok(s: StoreModel, username: Seq<char>, password: Seq<char>) -> bool {
    &&& has_user_named(s.users, username)
    &&& user_named(s.users, username).password_hash == hash_of(password)
}

/// Signup: refuse a confirmation mismatch, then a taken username; otherwise
/// append the new account and a fresh short-lived session for it.
pub open spec fn spec_signup(
    s: StoreModel,
    username: Seq<char>,
    password: Seq<char>,
    confirmation: Seq<char>,
    now: int,
) -> (StoreModel, Result<SessionModel, AuthError>) {
    if password != confirmation {
        (s, Err(AuthError::PasswordMismatch))
    } else if has_user_named(s.users, username) {
        (s, Err(AuthError::UsernameTaken))
    } else {
        let user = UserModel { id: s.next_user_id, username, password_hash: hash_of(password) };
        let sess = SessionModel {
            token: s.next_token,
            user_id: s.next_user_id,
            expires_at: spec_expiry(now, SESSION_TTL as int),
        };
        (
            StoreModel {
                users: s.users.push(user),
                todos: s.todos,
                sessions: s.sessions.push(sess),
                next_user_id: s.next_user_id + 1,
                next_todo_id: s.next_todo_id,
                next_token: s.next_token + 1,
                version: s.version + 1,
            },
            Ok(sess),
        )
    }
}

/// Login: refuse bad credentials; otherwise append a fresh session whose
/// lifetime depends on `remember`.
pub open spec fn spec_login(
    s: StoreModel,
    username: Seq<char>,
    password: Seq<char>,
    remember: bool,
    now: int,
) -> (StoreModel, Result<SessionModel, AuthError>) {
    if !spec_credentials_ok(s, username, password) {
        (s, Err(AuthError::InvalidCredentials))
    } else {
        let ttl: int = if remember {
            REMEMBER_TTL as int
        } else {
            SESSION_TTL as int
        };
        let sess = SessionModel {
            token: s.next_token,
            user_id: user_named(s.users, username).id,
            expires_at: spec_expiry(now, ttl),
        };
        (
            StoreModel {
                users: s.users,
                todos: s.todos,
                sessions: s.sessions.push(sess),
                next_user_id: s.next_user_id,
                next_todo_id: s.next_todo_id,
                next_token: s.next_token + 1,
                version: s.version + 1,
            },
            Ok(sess),
        )
    }
}

/// Logout: drop the session carrying the token if one exists; a token that no
/// longer names a session leaves the session table as it is. Either way the
/// action counts as a mutation, so the version moves.
pub open spec fn spec_logout(s: StoreModel, token: int) -> StoreModel {
    StoreModel {
        users: s.users,
        todos: s.todos,
        sessions: if has_session(s.sessions, token) {
            s.sessions.remove(session_index(s.sessions, token))
        } else {
            s.sessions
        },
        next_user_id: s.next_user_id,
        next_todo_id: s.next_todo_id,
        next_token: s.next_token,
        version: s.version + 1,
    }
}

/// The ghost value of a session result, for stating contracts.
pub open spec fn session_result_model(r: Result<Session, AuthError>) -> Result<SessionModel, AuthError> {
    match r {
        Ok(sess) => Ok(sess@),
        Err(e) => Err(e),
    }
}

/// The ghost value of an optional user, for stating contracts.
pub open spec fn user_option_model(r: Option<User>) -> Option<UserView> {
    match r {
        Some(u) => Some(u@),
        None => None,
    }
}

impl Store {
    /// Creates an account and signs it in, unless the confirmation differs
    /// from the password or the username is already taken.
    pub fn signup(
        &mut self,
        username: &str,
        password: &str,
        password_confirmation: &str,
        now: u64,
    ) -> (r: Result<Session, AuthError>)
        requires
            old(self)@.wf(),
            old(self)@.next_user_id < i64::MAX,
            old(self)@.next_token < u64::MAX,
            old(self)@.version < u64::MAX,
        ensures
            final(self)@ == spec_signup(old(self)@, username@, password@, password_confirmation@, now as int).0,
            session_result_model(r) == spec_signup(
                old(self)@, username@, password@, password_confirmation@, now as int).1,
            final(self)@.wf(),
    {
        let p: String = password.to_owned();
        let c: String = password_confirmation.to_owned();
        if !(p == c) {
            return Err(AuthError::PasswordMismatch);
        }
        let name: String = username.to_owned();
        match self.find_user_by_name(&name) {
            Some(_) => Err(AuthError::UsernameTaken),
            None => {
                let hash = hash_password(password);
                let user_id = self.next_user_id;
                let row = UserRow { id: user_id, username: name, password_hash: hash };
                self.users.push(row);
                let sess = Session {
                    token: self.next_token,
                    user_id,
                    expires_at: now.saturating_add(SESSION_TTL),
                };
                self.sessions.push(sess);
                self.next_user_id = self.next_user_id + 1;
                self.next_token = self.next_token + 1;
                self.version = self.version + 1;
                proof {
                    let target = spec_signup(
                        old(self)@, username@, password@, password_confirmation@, now as int).0;
                    assert(self@.users =~= target.users);
                    assert(self@.sessions =~= target.sessions);
                    assert(self@.todos =~= target.todos);
                    assert(self@ =~= target);
                    crate::laws::lemma_signup_preserves_wf(
                        old(self)@, username@, password@, password_confirmation@, now as int);
                }
                Ok(sess)
            },
        }
    }

    /// Checks the credentials and, when they hold, signs the user in with a
    /// session that lives longer when `remember` is set.
    pub fn login(&mut self, username: &str, password: &str, remember: bool, now: u64) -> (r: Result<
        Session,
        AuthError,
    >)
        requires
            old(self)@.wf(),
            old(self)@.next_token < u64::MAX,
            old(self)@.version < u64::MAX,
        ensures
            final(self)@ == spec_login(old(self)@, username@, password@, remember, now as int).0,
            session_result_model(r) == spec_login(old(self)@, username@, password@, remember, now as int).1,
            final(self)@.wf(),
    {
        let name: String = username.to_owned();
        match self.find_user_by_name(&name) {
            None => {
                assert(!spec_credentials_ok(self@, username@, password@));
                Err(AuthError::InvalidCredentials)
            },
            Some(i) => {
                proof {
                    let m = old(self)@;
                    assert(has_user_named(m.users, username@));
                    let k = choose|k: int|
                        0 <= k < m.users.len() && #[trigger] m.users[k].username == username@;
                    assert(m.users[k].username == m.users[i as int].username);
                    assert(user_named(m.users, username@) == m.users[i as int]);
                }
                let hash = hash_password(password);
                if self.users[i].password_hash == hash {
                    let ttl: u64 = if remember {
                        REMEMBER_TTL
                    } else {
                        SESSION_TTL
                    };
                    let sess = Session {
                        token: self.next_token,
                        user_id: self.users[i].id,
                        expires_at: now.saturating_add(ttl),
                    };
                    self.sessions.push(sess);
                    self.next_token = self.next_token + 1;
                    self.version = self.version + 1;
                    proof {
                        let target = spec_login(
                            old(self)@, username@, password@, remember, now as int).0;
                        assert(self@.sessions =~= target.sessions);
                        assert(self@ =~= target);
                        crate::laws::lemma_login_preserves_wf(
                            old(self)@, username@, password@, remember, now as int);
                    }
                    Ok(sess)
                } else {
                    assert(!spec_credentials_ok(self@, username@, password@));
                    Err(AuthError::InvalidCredentials)
                }
            },
        }
    }

    /// Invalidates the session carrying `token`. Idempotent: a token that no
    /// longer names a session is not an error.
    pub fn logout(&mut self, token: u64) -> (r: Result<(), AuthError>)
        requires
            old(self)@.wf(),
            old(self)@.version < u64::MAX,
        ensures
            final(self)@ == spec_logout(old(self)@, token as int),
            r == Ok::<(), AuthError>(()),
            final(self)@.wf(),
    {
        match self.find_session(token) {
            Some(i) => {
                proof {
                    let m = old(self)@;
                    assert(has_session(m.sessions, token as int));
                    let k = session_index(m.sessions, token as int);
                    assert(m.sessions[k].token == m.sessions[i as int].token);
                    assert(k == i as int);
                }
                self.sessions.remove(i);
                self.version = self.version + 1;
                proof {
                    let target = spec_logout(old(self)@, token as int);
                    assert(self@.sessions =~= target.sessions);
                    assert(self@ =~= target);
                    crate::laws::lemma_logout_preserves_wf(old(self)@, token as int);
                }
            },
            None => {
                self.version = self.version + 1;
                proof {
                    let target = spec_logout(old(self)@, token as int);
                    assert(self@.sessions =~= target.sessions);
                    assert(self@ =~= target);
                    crate::laws::lemma_logout_preserves_wf(old(self)@, token as int);
                }
            },
        }
        Ok(())
    }

    /// Resolves a session token to its user: `Some` exactly for an unexpired
    /// session of an existing user; `None` is the anonymous success path.
    pub fn current_user(&self, token: u64, now: u64) -> (r: Option<User>)
        requires
            self@.wf(),
        ensures
            user_option_model(r) == spec_current_user(self@, token as int, now as int),
    {
        match self.find_session(token) {
            None => None,
            Some(i) => {
                proof {
                    let m = self@;
                    assert(has_session(m.sessions, token as int));
                    let k = session_index(m.sessions, token as int);
                    assert(m.sessions[k].token == m.sessions[i as int].token);
                    assert(crate::model::session_for(m.sessions, token as int) == m.sessions[i as int]);
                }
                let sess = self.sessions[i];
                if now < sess.expires_at {
                    match self.find_user_by_id(sess.user_id) {
                        None => {
                            proof {
                                assert(has_user_id(self@.users, sess.user_id as int));
                                assert(false);
                            }
                            None
                        },
                        Some(j) => {
                            proof {
                                let m = self@;
                                assert(has_user_id(m.users, sess.user_id as int));
                                let k = choose|k: int|
                                    0 <= k < m.users.len()
                                        && #[trigger] m.users[k].id == sess.user_id as int;
                                assert(m.users[k].id == m.users[j as int].id);
                                assert(user_with_id(m.users, sess.user_id as int) == m.users[j as int]);
                            }
                            Some(User { id: self.users[j].id, username: self.users[j].username.clone() })
                        },
                    }
                } else {
                    None
                }
            },
        }
    }
}

} // verus!
