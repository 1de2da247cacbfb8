//! Users, session records and the session data carried in a token.
use vstd::prelude::*;
use crate::clock::{new_id, now_timestamp, CLOCK_LIMIT_SECS};

verus! {

/// How long a session stays valid: four days, in seconds.
pub const SESSION_TTL_SECS: i64 = 345_600;

/// The default locale of a new user.
pub const DEFAULT_LANGUAGE: &'static str = "en-US";

/// The view of an optional string.
pub open spec fn opt_view(o: Option<String>) -> Option<Seq<char>> {
    match o {
        Some(s) => Some(s@),
        None => None,
    }
}

/// A registered user. `password_hash` is server-side only and never travels
/// in a token.
#[derive(Debug, Clone)]
pub struct User {
    pub id: String,
    pub name: String,
    pub email: Option<String>,
    pub language: String,
    pub is_admin: bool,
    /// Seconds since the Unix epoch.
    pub created_at: i64,
    pub password_hash: String,
}

/// The mathematical view of a [`User`].
pub struct UserModel {
    pub id: Seq<char>,
    pub name: Seq<char>,
    pub email: Option<Seq<char>>,
    pub language: Seq<char>,
    pub is_admin: bool,
    pub created_at: int,
    pub password_hash: Seq<char>,
}

impl View for User {
    type V = UserModel;

    open spec fn view(&self) -> UserModel {
        UserModel {
            id: self.id@,
            name: self.name@,
            email: opt_view(self.email),
            language: self.language@,
            is_admin: self.is_admin,
            created_at: self.created_at as int,
            password_hash: self.password_hash@,
        }
    }
}

impl UserModel {
    /// The user as a token may carry it: everything but the password hash.
    pub open spec fn snapshot(self) -> UserModel {
        UserModel { password_hash: Seq::empty(), ..self }
    }
}

/// A session of a user, as issued and as carried (with a snapshot of the
/// user) inside a transport token.
#[derive(Debug, Clone)]
pub struct SessionData {
    pub id: String,
    /// The logged-in user.
    pub user: User,
    /// The user's address when the session was created.
    pub ip: Option<String>,
    /// Whether a change of address invalidates the session.
    pub enforce_ip: bool,
    /// Seconds since the Unix epoch.
    pub expires_at: i64,
    /// Seconds since the Unix epoch.
    pub created_at: i64,
}

/// The mathematical view of a [`SessionData`].
pub struct SessionModel {
    pub id: Seq<char>,
    pub user: UserModel,
    pub ip: Option<Seq<char>>,
    pub enforce_ip: bool,
    pub expires_at: int,
    pub created_at: int,
}

impl View for SessionData {
    type V = SessionModel;

    open spec fn view(&self) -> SessionModel {
        SessionModel {
            id: self.id@,
            user: self.user@,
            ip: opt_view(self.ip),
            enforce_ip: self.enforce_ip,
            expires_at: self.expires_at as int,
            created_at: self.created_at as int,
        }
    }
}

impl SessionModel {
    /// The session as a token carries it: the user without password hash.
    pub open spec fn snapshot(self) -> SessionModel {
        SessionModel { user: self.user.snapshot(), ..self }
    }

    /// A session expires strictly after it was created.
    pub open spec fn well_formed(self) -> bool {
        self.created_at < self.expires_at
    }
}

/// A copy of an optional string.
pub fn clone_opt(o: &Option<String>) -> (r: Option<String>)
    ensures
        opt_view(r) == opt_view(*o),
{
    match o {
        Some(s) => Some(s.clone()),
        None => None,
    }
}

/// Whether two optional strings are equal.
pub fn same_opt(a: &Option<String>, b: &Option<String>) -> (r: bool)
    ensures
        r == (opt_view(*a) == opt_view(*b)),
{
    match a {
        Some(x) => match b {
            Some(y) => x.eq(y),
            None => false,
        },
        None => b.is_none(),
    }
}

impl User {
    /// A new account: a fresh identifier, created now, in the default
    /// language.
    pub fn new_account(name: String, email: Option<String>, password_hash: String, is_admin: bool) -> (r: User)
        ensures
            r@.id.len() == 26,
            r@.name == name@,
            r@.email == opt_view(email),
            r@.language == DEFAULT_LANGUAGE@,
            r@.is_admin == is_admin,
            0 <= r@.created_at,
            r@.password_hash == password_hash@,
    {
        User {
            id: new_id(),
            name,
            email,
            language: String::from_str(DEFAULT_LANGUAGE),
            is_admin,
            created_at: now_timestamp(),
            password_hash,
        }
    }

    /// A copy of the user.
    pub fn clone_user(&self) -> (r: User)
        ensures
            r@ == self@,
    {
        User {
            id: self.id.clone(),
            name: self.name.clone(),
            email: clone_opt(&self.email),
            language: self.language.clone(),
            is_admin: self.is_admin,
            created_at: self.created_at,
            password_hash: self.password_hash.clone(),
        }
    }
}

impl SessionData {
    /// A session with the given id for `user`, created at `now` and valid for
    /// four days; address pinning is off.
    pub fn new_at(id: String, user: User, ip: Option<String>, now: i64) -> (r: SessionData)
        requires
            now <= i64::MAX - SESSION_TTL_SECS,
        ensures
            r@ == (SessionModel {
                id: id@,
                user: user@,
                ip: opt_view(ip),
                enforce_ip: false,
                expires_at: now + SESSION_TTL_SECS,
                created_at: now as int,
            }),
            r@.well_formed(),
    {
        SessionData { id, user, ip, enforce_ip: false, expires_at: now + SESSION_TTL_SECS, created_at: now }
    }

    /// A fresh session for `user`: a new unique identifier, created now and
    /// valid for four days.
    pub fn new(user: User, ip: Option<String>) -> (r: SessionData)
        ensures
            r@.id.len() == 26,
            r@.user == user@,
            r@.ip == opt_view(ip),
            !r@.enforce_ip,
            0 <= r@.created_at,
            r@.expires_at == r@.created_at + SESSION_TTL_SECS,
            r@.well_formed(),
    {
        let id = new_id();
        let now = now_timestamp();
        assert(CLOCK_LIMIT_SECS <= i64::MAX - SESSION_TTL_SECS);
        SessionData::new_at(id, user, ip, now)
    }
}

} // verus!
