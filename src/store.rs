//! Users and session records kept by the server, session issuing, and the
//! validation of presented tokens against the kept records.
use vstd::prelude::*;
use crate::clock::{new_id, now_timestamp, CLOCK_LIMIT_SECS};
use crate::codec::{decode_spec, is_token_of, CodecError};
use crate::credential::{
    hash_password, password_matches, phc_shape, starts_with, verify_password, CredentialError, MAX_PASSWORD_CHARS, PHC_PREFIX,
};
use crate::session::{clone_opt, opt_view, same_opt, SessionData, SessionModel, User, UserModel, DEFAULT_LANGUAGE};

verus! {

/// The persisted form of a session.
#[derive(Debug, Clone)]
pub struct SessionRecord {
    pub id: String,
    pub user_id: String,
    pub ip: Option<String>,
    pub enforce_ip: bool,
    /// Seconds since the Unix epoch.
    pub expires_at: i64,
    /// Seconds since the Unix epoch.
    pub created_at: i64,
}

/// The mathematical view of a [`SessionRecord`].
pub struct RecordModel {
    pub id: Seq<char>,
    pub user_id: Seq<char>,
    pub ip: Option<Seq<char>>,
    pub enforce_ip: bool,
    pub expires_at: int,
    pub created_at: int,
}

impl View for SessionRecord {
    type V = RecordModel;

    open spec fn view(&self) -> RecordModel {
        RecordModel {
            id: self.id@,
            user_id: self.user_id@,
            ip: opt_view(self.ip),
            enforce_ip: self.enforce_ip,
            expires_at: self.expires_at as int,
            created_at: self.created_at as int,
        }
    }
}

/// The record that persisting session `s` writes.
pub open spec fn record_of(s: SessionModel) -> RecordModel {
    RecordModel {
        id: s.id,
        user_id: s.user.id,
        ip: s.ip,
        enforce_ip: s.enforce_ip,
        expires_at: s.expires_at,
        created_at: s.created_at,
    }
}

/// Whether the kept `row` vouches for the presented session `s` at `now`:
/// same session and user, same address where the row pins it, and not yet
/// expired by the row's own expiration.
pub open spec fn row_matches(row: RecordModel, s: SessionModel, now: int) -> bool {
    &&& row.id == s.id
    &&& row.user_id == s.user.id
    &&& row.enforce_ip ==> row.ip == s.ip
    &&& now < row.expires_at
}

impl SessionData {
    /// The record that persists this session.
    pub fn record(&self) -> (r: SessionRecord)
        ensures
            r@ == record_of(self@),
    {
        SessionRecord {
            id: self.id.clone(),
            user_id: self.user.id.clone(),
            ip: clone_opt(&self.ip),
            enforce_ip: self.enforce_ip,
            expires_at: self.expires_at,
            created_at: self.created_at,
        }
    }
}

impl SessionData {
    /// Persists this session's record; refused where its identifier is taken.
    pub fn save(&self, store: &mut SessionStore) -> (r: Result<(), StorageError>)
        requires
            old(store).well_formed(),
        ensures
            final(store).well_formed(),
            r == Err::<(), StorageError>(StorageError::UnknownUser) <==> !has_user(old(store)@, self@.user.id),
            r == Err::<(), StorageError>(StorageError::Duplicate)
                <==> has_user(old(store)@, self@.user.id) && has_session(old(store)@, self@.id),
            r is Ok ==> final(store)@.sessions == old(store)@.sessions.push(record_of(self@)),
            r is Err ==> final(store)@.sessions == old(store)@.sessions,
            final(store)@.users == old(store)@.users,
    {
        store.insert_session(self.record())
    }

    /// Checks this presented session against the store at `now`: a kept row
    /// must vouch for it and its user must be kept. Returns the kept user.
    pub fn validate(&self, store: &SessionStore, now: i64) -> (r: Result<User, SessionError>)
        ensures
            r is Ok <==> has_live_row(store@, self@, now as int) && has_user(store@, self@.user.id),
            r matches Ok(u) ==> store@.users.contains(u@) && u@.id == self@.user.id,
            r is Err ==> r == Err::<User, SessionError>(SessionError::NotFound),
    {
        let mut i: usize = 0;
        while i < store.sessions.len()
            invariant
                0 <= i <= store.sessions@.len(),
                forall|k: int| 0 <= k < i ==> !row_matches(#[trigger] store@.sessions[k], self@, now as int),
            decreases store.sessions@.len() - i,
        {
            if store.sessions[i].matches(self, now) {
                assert(store@.sessions[i as int] == store.sessions@[i as int]@);
                return match store.user_by_id(&self.user.id) {
                    Some(u) => Ok(u),
                    None => Err(SessionError::NotFound),
                };
            }
            i += 1;
        }
        Err(SessionError::NotFound)
    }
}

impl SessionData {
    /// Judges this presented session against what the store holds under its
    /// identifiers: `row` is the record kept under the session's id, `user`
    /// the user kept under its user id. Returns the kept user where the row
    /// vouches for the session at `now`.
    pub fn check_kept(&self, row: &Option<SessionRecord>, user: Option<User>, now: i64) -> (r: Result<User, SessionError>)
        ensures
            r is Ok <==> (row matches Some(rw) && row_matches(rw@, self@, now as int))
                && (user matches Some(u) && u@.id == self@.user.id),
            r matches Ok(u) ==> user matches Some(v) && u@ == v@,
            r is Err ==> r == Err::<User, SessionError>(SessionError::NotFound),
    {
        let live = match row {
            Some(rw) => rw.matches(self, now),
            None => false,
        };
        if !live {
            return Err(SessionError::NotFound);
        }
        match user {
            Some(u) => if u.id.eq(&self.user.id) {
                Ok(u)
            } else {
                Err(SessionError::NotFound)
            },
            None => Err(SessionError::NotFound),
        }
    }
}

impl SessionRecord {
    /// Whether this kept record vouches for the presented session at `now`.
    pub fn matches(&self, s: &SessionData, now: i64) -> (r: bool)
        ensures
            r == row_matches(self@, s@, now as int),
    {
        self.id.eq(&s.id) && self.user_id.eq(&s.user.id) && (!self.enforce_ip || same_opt(&self.ip, &s.ip))
            && now < self.expires_at
    }
}

/// A write that the store refused.
#[derive(Debug, Clone, Copy, PartialEq, Eq, Structural)]
pub enum StorageError {
    /// A row with the same unique key exists.
    Duplicate,
    /// A session row names a user that is not kept.
    UnknownUser,
}

/// Why a presented token does not authenticate anyone.
#[derive(Debug, Clone, Copy, PartialEq, Eq, Structural)]
pub enum SessionError {
    /// Bad text encoding, too short, or a payload that does not parse.
    Malformed,
    /// The token's expiration prefix lies in the past.
    Expired,
    /// No live kept session vouches for the token.
    NotFound,
}

/// Why a session could not be issued.
#[derive(Debug, Clone, Copy, PartialEq, Eq, Structural)]
pub enum IssueError {
    Storage(StorageError),
    Codec(CodecError),
}

/// Why an account could not be registered.
#[derive(Debug, Clone, Copy, PartialEq, Eq, Structural)]
pub enum AccountError {
    Credential(CredentialError),
    Storage(StorageError),
}

/// The session error that a codec error amounts to.
pub open spec fn session_error_of(e: CodecError) -> SessionError {
    match e {
        CodecError::Expired => SessionError::Expired,
        _ => SessionError::Malformed,
    }
}

impl SessionError {
    /// The session error that a token's decoding failure amounts to: an
    /// expired prefix stays `Expired`, anything else is `Malformed`.
    pub fn from_codec(e: CodecError) -> (r: SessionError)
        ensures
            r == session_error_of(e),
    {
        match e {
            CodecError::Expired => SessionError::Expired,
            _ => SessionError::Malformed,
        }
    }
}

/// The mathematical view of a [`SessionStore`]: its users and session
/// records, in the order they were kept.
pub struct StoreModel {
    pub users: Seq<UserModel>,
    pub sessions: Seq<RecordModel>,
}

/// Some kept row vouches for `s` at `now`.
pub open spec fn has_live_row(st: StoreModel, s: SessionModel, now: int) -> bool {
    exists|i: int| 0 <= i < st.sessions.len() && #[trigger] row_matches(st.sessions[i], s, now)
}

/// A user with identifier `id` is kept.
pub open spec fn has_user(st: StoreModel, id: Seq<char>) -> bool {
    exists|j: int| 0 <= j < st.users.len() && (#[trigger] st.users[j]).id == id
}

/// A session with identifier `id` is kept.
pub open spec fn has_session(st: StoreModel, id: Seq<char>) -> bool {
    exists|i: int| 0 <= i < st.sessions.len() && (#[trigger] st.sessions[i]).id == id
}

/// Whether `text`, presented at `now`, stands for a live kept session of a
/// kept user.
pub open spec fn validates(st: StoreModel, text: Seq<char>, now: int) -> bool {
    decode_spec(text, now) matches Ok(s) && has_live_row(st, s, now) && has_user(st, s.user.id)
}

/// The error that validating `text` at `now` gives, where it does not
/// validate.
pub open spec fn validate_error(st: StoreModel, text: Seq<char>, now: int) -> SessionError {
    match decode_spec(text, now) {
        Err(e) => session_error_of(e),
        Ok(_) => SessionError::NotFound,
    }
}

/// `r` is the outcome of validating `text` at `now`: the kept user the token
/// stands for, or the error that the failure earns.
pub open spec fn validated_as(st: StoreModel, text: Seq<char>, now: int, r: Result<User, SessionError>) -> bool {
    &&& r is Ok <==> validates(st, text, now)
    &&& r matches Ok(u) ==> st.users.contains(u@) && (decode_spec(text, now) matches Ok(s) && u@.id == s.user.id)
    &&& r matches Err(e) ==> e == validate_error(st, text, now)
}

/// The first kept user (in keeping order) whose identifier or name is `key`
/// stands at index `j`.
pub open spec fn first_match(st: StoreModel, key: Seq<char>, j: int) -> bool {
    &&& 0 <= j < st.users.len()
    &&& st.users[j].id == key || st.users[j].name == key
    &&& forall|k: int| 0 <= k < j ==> (#[trigger] st.users[k]).id != key && st.users[k].name != key
}

/// Going from `before` to `after` kept one new session of user `u`, whose
/// token is `t`.
pub open spec fn issued(before: StoreModel, after: StoreModel, u: UserModel, t: Seq<char>) -> bool {
    exists|m: SessionModel| #[trigger] is_token_of(m, t) && m.user == u
        && after.sessions == before.sessions.push(record_of(m))
}

/// Users and session records as the server keeps them: user identifiers and
/// names are unique, and so are session identifiers; every session record
/// names a kept user.
pub struct SessionStore {
    users: Vec<User>,
    sessions: Vec<SessionRecord>,
}

/// What a presented token comes to for the caller: an identity, or the
/// instruction to drop the token.
pub struct Authentication {
    /// The kept user the token stands for, or why it stands for no one.
    pub outcome: Result<User, SessionError>,
    /// Whether the caller must drop the client's token.
    pub clear_token: bool,
}

/// A login or registration attempt that did not succeed.
#[derive(Debug, Clone, Copy, PartialEq, Eq, Structural)]
pub enum AuthFailure {
    /// An empty user name or password.
    BadRequest,
    /// The name is taken.
    Conflict,
    /// Unknown user, or a wrong password.
    Unauthorized,
    /// Hashing or storage failed.
    Internal,
}

impl View for SessionStore {
    type V = StoreModel;

    closed spec fn view(&self) -> StoreModel {
        StoreModel { users: self.users@.map_values(|u: User| u@), sessions: self.sessions@.map_values(|r: SessionRecord| r@) }
    }
}

impl SessionStore {
    /// User identifiers, user names and session identifiers are unique, and
    /// every session record refers to a kept user.
    pub open spec fn well_formed(&self) -> bool {
        &&& forall|i: int, j: int| 0 <= i < j < self@.users.len()
            ==> (#[trigger] self@.users[i]).id != (#[trigger] self@.users[j]).id
                && self@.users[i].name != self@.users[j].name
        &&& forall|i: int, j: int| 0 <= i < j < self@.sessions.len()
            ==> (#[trigger] self@.sessions[i]).id != (#[trigger] self@.sessions[j]).id
        &&& forall|i: int| 0 <= i < self@.sessions.len() ==> has_user(self@, (#[trigger] self@.sessions[i]).user_id)
    }

    /// An empty store.
    pub fn new() -> (r: SessionStore)
        ensures
            r.well_formed(),
            r@.users.len() == 0,
            r@.sessions.len() == 0,
    {
        let r = SessionStore { users: Vec::new(), sessions: Vec::new() };
        assert(r@.users =~= Seq::<UserModel>::empty());
        assert(r@.sessions =~= Seq::<RecordModel>::empty());
        r
    }

    /// The kept user with identifier `id`.
    pub fn user_by_id(&self, id: &String) -> (r: Option<User>)
        ensures
            r matches Some(u) ==> self@.users.contains(u@) && u@.id == id@,
            r is None <==> !has_user(self@, id@),
    {
        let mut j: usize = 0;
        while j < self.users.len()
            invariant
                0 <= j <= self.users@.len(),
                forall|k: int| 0 <= k < j ==> (#[trigger] self@.users[k]).id != id@,
            decreases self.users@.len() - j,
        {
            if self.users[j].id.eq(id) {
                let found = self.users[j].clone_user();
                assert(self@.users[j as int] == found@);
                return Some(found);
            }
            j += 1;
        }
        None
    }

    /// Keeps a new user; refused where the identifier or the name is taken.
    pub fn insert_user(&mut self, user: User) -> (r: Result<(), StorageError>)
        requires
            old(self).well_formed(),
        ensures
            final(self).well_formed(),
            r is Err <==> exists|j: int| 0 <= j < old(self)@.users.len()
                && ((#[trigger] old(self)@.users[j]).id == user@.id || old(self)@.users[j].name == user@.name),
            r is Ok ==> final(self)@.users == old(self)@.users.push(user@),
            r is Err ==> r == Err::<(), StorageError>(StorageError::Duplicate),
            r is Err ==> final(self)@.users == old(self)@.users,
            final(self)@.sessions == old(self)@.sessions,
    {
        let mut j: usize = 0;
        while j < self.users.len()
            invariant
                0 <= j <= self.users@.len(),
                self@ == old(self)@,
                self.well_formed(),
                forall|k: int| 0 <= k < j ==> (#[trigger] self@.users[k]).id != user@.id && self@.users[k].name != user@.name,
            decreases self.users@.len() - j,
        {
            if self.users[j].id.eq(&user.id) || self.users[j].name.eq(&user.name) {
                assert(self@.users[j as int] == self.users@[j as int]@);
                return Err(StorageError::Duplicate);
            }
            j += 1;
        }
        self.users.push(user);
        assert(self@.users =~= old(self)@.users.push(user@));
        assert(self@.sessions =~= old(self)@.sessions);
        assert forall|k: int| 0 <= k < self@.sessions.len() implies has_user(self@, (#[trigger] self@.sessions[k]).user_id) by {
            let j = choose|j: int| 0 <= j < old(self)@.users.len() && (#[trigger] old(self)@.users[j]).id == self@.sessions[k].user_id;
            assert(self@.users[j] == old(self)@.users[j]);
        }
        Ok(())
    }

    /// Keeps a new session record; refused where no kept user has its user
    /// identifier, or where its identifier is taken.
    pub fn insert_session(&mut self, record: SessionRecord) -> (r: Result<(), StorageError>)
        requires
            old(self).well_formed(),
        ensures
            final(self).well_formed(),
            r == Err::<(), StorageError>(StorageError::UnknownUser) <==> !has_user(old(self)@, record@.user_id),
            r == Err::<(), StorageError>(StorageError::Duplicate)
                <==> has_user(old(self)@, record@.user_id) && has_session(old(self)@, record@.id),
            r is Ok ==> final(self)@.sessions == old(self)@.sessions.push(record@),
            r is Err ==> final(self)@.sessions == old(self)@.sessions,
            final(self)@.users == old(self)@.users,
    {
        if self.user_by_id(&record.user_id).is_none() {
            return Err(StorageError::UnknownUser);
        }
        let mut i: usize = 0;
        while i < self.sessions.len()
            invariant
                0 <= i <= self.sessions@.len(),
                self@ == old(self)@,
                self.well_formed(),
                has_user(self@, record@.user_id),
                forall|k: int| 0 <= k < i ==> (#[trigger] self@.sessions[k]).id != record@.id,
            decreases self.sessions@.len() - i,
        {
            if self.sessions[i].id.eq(&record.id) {
                assert(self@.sessions[i as int] == self.sessions@[i as int]@);
                return Err(StorageError::Duplicate);
            }
            i += 1;
        }
        self.sessions.push(record);
        assert(self@.sessions =~= old(self)@.sessions.push(record@));
        assert(self@.users =~= old(self)@.users);
        assert forall|k: int| 0 <= k < self@.sessions.len() implies has_user(self@, (#[trigger] self@.sessions[k]).user_id) by {
            if k < old(self)@.sessions.len() {
                assert(self@.sessions[k] == old(self)@.sessions[k]);
            }
        }
        Ok(())
    }

    /// Drops the session record with identifier `id`, if one is kept.
    pub fn delete_session(&mut self, id: &String) -> (r: bool)
        requires
            old(self).well_formed(),
        ensures
            final(self).well_formed(),
            r == has_session(old(self)@, id@),
            !has_session(final(self)@, id@),
            r ==> exists|i: int| 0 <= i < old(self)@.sessions.len() && (#[trigger] old(self)@.sessions[i]).id == id@
                && final(self)@.sessions == old(self)@.sessions.remove(i),
            !r ==> final(self)@.sessions == old(self)@.sessions,
            final(self)@.users == old(self)@.users,
    {
        let mut i: usize = 0;
        while i < self.sessions.len()
            invariant
                0 <= i <= self.sessions@.len(),
                self@ == old(self)@,
                self.well_formed(),
                forall|k: int| 0 <= k < i ==> (#[trigger] self@.sessions[k]).id != id@,
            decreases self.sessions@.len() - i,
        {
            if self.sessions[i].id.eq(id) {
                let ghost before = self@.sessions;
                assert(before[i as int] == self.sessions@[i as int]@);
                assert(before[i as int].id == id@);
                self.sessions.remove(i);
                assert(self@.sessions =~= before.remove(i as int));
                assert(self@.users =~= old(self)@.users);
                assert forall|k: int| 0 <= k < self@.sessions.len() implies (#[trigger] self@.sessions[k]).id != id@ by {
                    if k < i {
                        assert(self@.sessions[k] == before[k]);
                    } else {
                        assert(self@.sessions[k] == before[k + 1]);
                        assert(before[i as int].id != before[k + 1].id);
                    }
                }
                assert forall|a: int, b: int| 0 <= a < b < self@.sessions.len()
                    implies (#[trigger] self@.sessions[a]).id != (#[trigger] self@.sessions[b]).id by {
                    let a2 = if a < i { a } else { a + 1 };
                    let b2 = if b < i { b } else { b + 1 };
                    assert(self@.sessions[a] == before[a2]);
                    assert(self@.sessions[b] == before[b2]);
                    assert(before[a2].id != before[b2].id);
                }
                return true;
            }
            i += 1;
        }
        false
    }

    /// Checks a presented token at clock reading `now`: it must decode and
    /// not be expired, a kept session row must vouch for it, and its user must
    /// be kept. The identity returned is the kept user, not the token's copy.
    pub fn validate_at(&self, token: &str, now: i64) -> (r: Result<User, SessionError>)
        ensures
            validated_as(self@, token@, now as int, r),
    {
        match SessionData::decode_at(token, now) {
            Ok(s) => s.validate(self, now),
            Err(e) => Err(SessionError::from_codec(e)),
        }
    }

    /// Checks a presented token against the current time (see
    /// [`SessionStore::validate_at`]).
    pub fn validate(&self, token: &str) -> (r: Result<User, SessionError>)
        ensures
            exists|now: int| 0 <= now < CLOCK_LIMIT_SECS && #[trigger] validated_as(self@, token@, now, r),
    {
        let now = now_timestamp();
        let r = self.validate_at(token, now);
        assert(validated_as(self@, token@, now as int, r));
        r
    }

    /// Validates a presented token at `now` and, on any failure, tells the
    /// caller to drop it: a doubtful session never continues as its former
    /// identity.
    pub fn authenticate_at(&self, token: &str, now: i64) -> (r: Authentication)
        ensures
            validated_as(self@, token@, now as int, r.outcome),
            r.clear_token <==> r.outcome is Err,
    {
        let outcome = self.validate_at(token, now);
        let clear_token = outcome.is_err();
        Authentication { outcome, clear_token }
    }

    /// Validates a presented token against the current time (see
    /// [`SessionStore::authenticate_at`]).
    pub fn authenticate(&self, token: &str) -> (r: Authentication)
        ensures
            exists|now: int| 0 <= now < CLOCK_LIMIT_SECS && #[trigger] validated_as(self@, token@, now, r.outcome),
            r.clear_token <==> r.outcome is Err,
    {
        let now = now_timestamp();
        let r = self.authenticate_at(token, now);
        assert(validated_as(self@, token@, now as int, r.outcome));
        r
    }

    /// Signs a new user up and opens a session for them. An empty name or
    /// password is refused, as is a name or identifier already in use. The
    /// token is `None` where the account was made but no session could be
    /// issued.
    pub fn sign_up(&mut self, username: &String, password: &String, ip: Option<String>) -> (r: Result<(User, Option<String>), AuthFailure>)
        requires
            old(self).well_formed(),
        ensures
            final(self).well_formed(),
            r == Err::<(User, Option<String>), AuthFailure>(AuthFailure::BadRequest)
                <==> (username@.len() == 0 || password@.len() == 0),
            r == Err::<(User, Option<String>), AuthFailure>(AuthFailure::Conflict)
                <==> (username@.len() > 0 && password@.len() > 0 && exists|j: int| 0 <= j < old(self)@.users.len()
                    && ((#[trigger] old(self)@.users[j]).id == username@ || old(self)@.users[j].name == username@)),
            r is Err ==> final(self)@ == old(self)@,
            old(self)@.users.len() == 0 && username@.len() > 0 && password@.len() > 0
                && password@.len() <= MAX_PASSWORD_CHARS ==> r is Ok,
            r matches Ok((u, _)) ==> u@.name == username@ && !u@.is_admin && password_matches(password@, u@.password_hash)
                && final(self)@.users == old(self)@.users.push(u@),
            r matches Ok((u, None)) ==> final(self)@.sessions == old(self)@.sessions,
            r matches Ok((u, Some(t))) ==> issued(old(self)@, final(self)@, u@, t@),
    {
        let existing = User::find(username, self);
        if let Some(e) = sign_up_decision(username, password, &existing) {
            return Err(e);
        }
        let user = match User::register(self, username.clone(), None, password.as_str(), false) {
            Ok(u) => u,
            Err(_) => return Err(AuthFailure::Internal),
        };
        match user.create_session(self, ip) {
            Ok((s, token)) => {
                assert(is_token_of(s@, token@) && s@.user == user@
                    && self@.sessions == old(self)@.sessions.push(record_of(s@)));
                assert(issued(old(self)@, self@, user@, token@));
                Ok((user, Some(token)))
            },
            Err(_) => Ok((user, None)),
        }
    }

    /// Logs a user in by name (or identifier) and password, and opens a
    /// session for them. A client that already holds a live session is
    /// refused. The token is `None` where no session could be issued.
    pub fn log_in(&mut self, username: &String, password: &String, logged_in: bool, ip: Option<String>) -> (r: Result<(User, Option<String>), AuthFailure>)
        requires
            old(self).well_formed(),
        ensures
            final(self).well_formed(),
            final(self)@.users == old(self)@.users,
            r is Err ==> final(self)@ == old(self)@,
            (forall|j: int| 0 <= j < old(self)@.users.len()
                ==> (#[trigger] old(self)@.users[j]).id != username@ && old(self)@.users[j].name != username@)
                ==> r == Err::<(User, Option<String>), AuthFailure>(AuthFailure::Unauthorized),
            forall|j: int| #[trigger] first_match(old(self)@, username@, j) ==> {
                &&& logged_in ==> r == Err::<(User, Option<String>), AuthFailure>(AuthFailure::Conflict)
                &&& !logged_in ==> (r is Ok <==> password_matches(password@, old(self)@.users[j].password_hash))
                &&& !logged_in && r is Err ==> r == Err::<(User, Option<String>), AuthFailure>(AuthFailure::Unauthorized)
                &&& r matches Ok((u, _)) ==> u@ == old(self)@.users[j]
            },
            r matches Ok((u, None)) ==> final(self)@ == old(self)@,
            r matches Ok((u, Some(t))) ==> issued(old(self)@, final(self)@, u@, t@),
    {
        let found = User::find(username, self);
        let user = match login_decision(found, password, logged_in) {
            Ok(u) => u,
            Err(e) => return Err(e),
        };
        match user.create_session(self, ip) {
            Ok((s, token)) => {
                assert(is_token_of(s@, token@) && s@.user == user@
                    && self@.sessions == old(self)@.sessions.push(record_of(s@)));
                assert(issued(old(self)@, self@, user@, token@));
                Ok((user, Some(token)))
            },
            Err(_) => Ok((user, None)),
        }
    }

    /// Ends the session a token stands for by dropping its record, whether
    /// or not the token has expired; every other record stays. Returns
    /// whether a record was dropped.
    pub fn logout(&mut self, token: &str) -> (r: bool)
        requires
            old(self).well_formed(),
        ensures
            final(self).well_formed(),
            final(self)@.users == old(self)@.users,
            decode_spec(token@, i64::MIN as int) matches Ok(s) ==> {
                &&& !has_session(final(self)@, s.id)
                &&& r == has_session(old(self)@, s.id)
                &&& r ==> exists|i: int| 0 <= i < old(self)@.sessions.len() && (#[trigger] old(self)@.sessions[i]).id == s.id
                    && final(self)@.sessions == old(self)@.sessions.remove(i)
                &&& !r ==> final(self)@ == old(self)@
            },
            decode_spec(token@, i64::MIN as int) is Err ==> !r && final(self)@ == old(self)@,
    {
        match logout_target(token) {
            Some(id) => {
                let r = self.delete_session(&id);
                proof {
                    if !r {
                        assert(self@.sessions =~= old(self)@.sessions);
                        assert(self@.users =~= old(self)@.users);
                    }
                }
                r
            },
            None => false,
        }
    }
}

/// The identifier of the session record that a logout with `token` drops:
/// that of the session it carries, expired or not.
pub fn logout_target(token: &str) -> (r: Option<String>)
    ensures
        decode_spec(token@, i64::MIN as int) matches Ok(s) ==> r matches Some(id) && id@ == s.id,
        decode_spec(token@, i64::MIN as int) is Err ==> r is None,
{
    match SessionData::decode_at(token, i64::MIN) {
        Ok(s) => Some(s.id),
        Err(_) => None,
    }
}

/// The refusal that sign-up input earns before an account is made: an empty
/// name or password is a bad request, and a name (or identifier) that
/// `existing` shows in use is a conflict.
pub fn sign_up_decision(username: &String, password: &String, existing: &Option<User>) -> (r: Option<AuthFailure>)
    ensures
        r == Some(AuthFailure::BadRequest) <==> username@.len() == 0 || password@.len() == 0,
        r == Some(AuthFailure::Conflict) <==> username@.len() > 0 && password@.len() > 0 && existing is Some,
        r is None <==> username@.len() > 0 && password@.len() > 0 && existing is None,
{
    if username.as_str().is_empty() || password.as_str().is_empty() {
        Some(AuthFailure::BadRequest)
    } else if existing.is_some() {
        Some(AuthFailure::Conflict)
    } else {
        None
    }
}

/// Whether a login may proceed, given the user found under the submitted
/// name (if any) and whether the client already holds a live session: an
/// unknown user or a wrong password is unauthorized, a live session is a
/// conflict. Returns the user to open a session for.
pub fn login_decision(found: Option<User>, password: &String, logged_in: bool) -> (r: Result<User, AuthFailure>)
    ensures
        found is None ==> r == Err::<User, AuthFailure>(AuthFailure::Unauthorized),
        found is Some && logged_in ==> r == Err::<User, AuthFailure>(AuthFailure::Conflict),
        found is Some && !logged_in ==> {
            &&& r is Ok <==> password_matches(password@, found->Some_0@.password_hash)
            &&& r matches Ok(v) ==> v@ == found->Some_0@
            &&& r is Err ==> r == Err::<User, AuthFailure>(AuthFailure::Unauthorized)
        },
{
    let user = match found {
        Some(u) => u,
        None => return Err(AuthFailure::Unauthorized),
    };
    if logged_in {
        return Err(AuthFailure::Conflict);
    }
    match verify_password(password.as_str(), user.password_hash.as_str()) {
        Ok(()) => Ok(user),
        Err(_) => Err(AuthFailure::Unauthorized),
    }
}

impl User {
    /// The kept user whose identifier or name is `key`.
    pub fn find(key: &String, store: &SessionStore) -> (r: Option<User>)
        ensures
            r matches Some(u) ==> store@.users.contains(u@) && (u@.id == key@ || u@.name == key@),
            forall|j: int| #[trigger] first_match(store@, key@, j) ==> (r matches Some(u) && u@ == store@.users[j]),
            r is None <==> forall|j: int| 0 <= j < store@.users.len()
                ==> (#[trigger] store@.users[j]).id != key@ && store@.users[j].name != key@,
    {
        let mut j: usize = 0;
        while j < store.users.len()
            invariant
                0 <= j <= store.users@.len(),
                forall|k: int| 0 <= k < j ==> (#[trigger] store@.users[k]).id != key@ && store@.users[k].name != key@,
            decreases store.users@.len() - j,
        {
            let u = &store.users[j];
            if u.id.eq(key) || u.name.eq(key) {
                let found = u.clone_user();
                assert(store@.users[j as int] == found@);
                assert(first_match(store@, key@, j as int));
                assert forall|i: int| #[trigger] first_match(store@, key@, i) implies i == j by {
                    if i < j {
                    } else if i > j {
                        assert(store@.users[j as int].id != key@ && store@.users[j as int].name != key@);
                    }
                }
                return Some(found);
            }
            j += 1;
        }
        None
    }

    /// Keeps a new account with the given identifier and creation time, in
    /// the default language; refused where the identifier or the name is
    /// taken.
    pub fn register_with(store: &mut SessionStore, id: String, created_at: i64, username: String,
        email: Option<String>, password_hash: String, is_admin: bool) -> (r: Result<User, StorageError>)
        requires
            old(store).well_formed(),
        ensures
            final(store).well_formed(),
            final(store)@.sessions == old(store)@.sessions,
            r is Err <==> exists|j: int| 0 <= j < old(store)@.users.len()
                && ((#[trigger] old(store)@.users[j]).id == id@ || old(store)@.users[j].name == username@),
            r is Err ==> r == Err::<User, StorageError>(StorageError::Duplicate) && final(store)@ == old(store)@,
            r matches Ok(u) ==> {
                &&& u@ == (UserModel {
                    id: id@,
                    name: username@,
                    email: opt_view(email),
                    language: DEFAULT_LANGUAGE@,
                    is_admin,
                    created_at: created_at as int,
                    password_hash: password_hash@,
                })
                &&& final(store)@.users == old(store)@.users.push(u@)
            },
    {
        let user = User {
            id,
            name: username,
            email,
            language: String::from_str(DEFAULT_LANGUAGE),
            is_admin,
            created_at,
            password_hash,
        };
        match store.insert_user(user.clone_user()) {
            Ok(()) => Ok(user),
            Err(e) => {
                assert(store@ == old(store)@) by {
                    assert(store@.users =~= old(store)@.users);
                    assert(store@.sessions =~= old(store)@.sessions);
                }
                Err(e)
            },
        }
    }

    /// Registers a user with a freshly hashed password, a fresh identifier,
    /// the current time and the default language.
    pub fn register(store: &mut SessionStore, username: String, email: Option<String>, password: &str, is_admin: bool) -> (r: Result<User, AccountError>)
        requires
            old(store).well_formed(),
        ensures
            final(store).well_formed(),
            final(store)@.sessions == old(store)@.sessions,
            r matches Ok(u) ==> {
                &&& u@.id.len() == 26
                &&& u@.name == username@
                &&& u@.email == opt_view(email)
                &&& u@.language == DEFAULT_LANGUAGE@
                &&& u@.is_admin == is_admin
                &&& 0 <= u@.created_at
                &&& password_matches(password@, u@.password_hash)
                &&& phc_shape(u@.password_hash)
                &&& starts_with(u@.password_hash, PHC_PREFIX@)
                &&& final(store)@.users == old(store)@.users.push(u@)
            },
            r is Err ==> final(store)@ == old(store)@,
            r matches Err(AccountError::Credential(e)) ==> e == CredentialError::HashingFailed,
            r matches Err(AccountError::Storage(e)) ==> e == StorageError::Duplicate,
            (exists|j: int| 0 <= j < old(store)@.users.len() && (#[trigger] old(store)@.users[j]).name == username@)
                ==> r is Err,
            old(store)@.users.len() == 0 && password@.len() <= MAX_PASSWORD_CHARS ==> r is Ok,
    {
        let password_hash = match hash_password(password) {
            Ok(h) => h,
            Err(e) => return Err(AccountError::Credential(e)),
        };
        match User::register_with(store, new_id(), now_timestamp(), username, email, password_hash, is_admin) {
            Ok(u) => Ok(u),
            Err(e) => Err(AccountError::Storage(e)),
        }
    }

    /// Issues a session for this user: a fresh identifier, created now and
    /// valid for four days, persisted, and encoded as a transport token.
    /// The token is handed out only once the record is kept.
    pub fn create_session(&self, store: &mut SessionStore, ip: Option<String>) -> (r: Result<(SessionData, String), IssueError>)
        requires
            old(store).well_formed(),
        ensures
            final(store).well_formed(),
            final(store)@.users == old(store)@.users,
            r matches Ok((s, token)) ==> {
                &&& s@.user == self@
                &&& s@.ip == opt_view(ip)
                &&& !s@.enforce_ip
                &&& s@.expires_at == s@.created_at + crate::session::SESSION_TTL_SECS
                &&& 0 <= s@.created_at
                &&& !has_session(old(store)@, s@.id)
                &&& final(store)@.sessions == old(store)@.sessions.push(record_of(s@))
                &&& is_token_of(s@, token@)
            },
            r is Err ==> final(store)@ == old(store)@,
            r == Err::<(SessionData, String), IssueError>(IssueError::Storage(StorageError::UnknownUser))
                <==> !has_user(old(store)@, self@.id),
            r is Err ==> r == Err::<(SessionData, String), IssueError>(IssueError::Storage(StorageError::UnknownUser))
                || r == Err::<(SessionData, String), IssueError>(IssueError::Storage(StorageError::Duplicate)),
            old(store)@.sessions.len() == 0 && has_user(old(store)@, self@.id) ==> r is Ok,
    {
        let s = SessionData::new(self.clone_user(), ip);
        if let Err(e) = s.save(store) {
            assert(store@ == old(store)@) by {
                assert(store@.users =~= old(store)@.users);
                assert(store@.sessions =~= old(store)@.sessions);
            }
            return Err(IssueError::Storage(e));
        }
        match s.to_base64() {
            Ok(token) => Ok((s, token)),
            Err(e) => Err(IssueError::Codec(e)),
        }
    }
}

/// A freshly issued token validates against any store that keeps its
/// record and its user, from its creation until it expires.
pub proof fn lemma_issued_token_validates(st: StoreModel, s: SessionModel, token: Seq<char>, now: int)
    requires
        is_token_of(s, token),
        st.sessions.contains(record_of(s)),
        has_user(st, s.user.id),
        i64::MIN <= s.expires_at <= i64::MAX,
        now < s.expires_at,
    ensures
        validates(st, token, now),
{
    crate::codec::lemma_token_round_trip(s, token, now);
    let i = choose|i: int| 0 <= i < st.sessions.len() && st.sessions[i] == record_of(s);
    assert(row_matches(st.sessions[i], s.snapshot(), now));
}

/// Keeping more sessions never invalidates a token that validated: sessions
/// of one user are independent of each other.
pub proof fn lemma_validation_survives_insert(st: StoreModel, record: RecordModel, token: Seq<char>, now: int)
    requires
        validates(st, token, now),
    ensures
        validates(StoreModel { users: st.users, sessions: st.sessions.push(record) }, token, now),
{
    let st2 = StoreModel { users: st.users, sessions: st.sessions.push(record) };
    let s = decode_spec(token, now)->Ok_0;
    let i = choose|i: int| 0 <= i < st.sessions.len() && #[trigger] row_matches(st.sessions[i], s, now);
    assert(st2.sessions[i] == st.sessions[i]);
    assert(has_live_row(st2, s, now));
}

/// A well-formed, unexpired token whose session record is gone (a logout,
/// perhaps from another device) is refused as not found.
pub proof fn lemma_deleted_session_not_found(st: StoreModel, token: Seq<char>, now: int)
    requires
        decode_spec(token, now) is Ok,
        !has_session(st, decode_spec(token, now)->Ok_0.id),
    ensures
        !validates(st, token, now),
        validate_error(st, token, now) == SessionError::NotFound,
{
    let s = decode_spec(token, now)->Ok_0;
    if has_live_row(st, s, now) {
        let i = choose|i: int| 0 <= i < st.sessions.len() && #[trigger] row_matches(st.sessions[i], s, now);
        assert(st.sessions[i].id == s.id);
    }
}

/// Once [`SessionStore::logout`] has dropped a token's session, the token is
/// refused as not found at any time at which it still decodes.
pub proof fn lemma_logout_revokes(before: StoreModel, after: StoreModel, token: Seq<char>, now: int)
    requires
        decode_spec(token, i64::MIN as int) is Ok,
        !has_session(after, decode_spec(token, i64::MIN as int)->Ok_0.id),
        decode_spec(token, now) is Ok,
    ensures
        validate_error(after, token, now) == SessionError::NotFound,
        !validates(after, token, now),
{
    lemma_deleted_session_not_found(after, token, now);
}

} // verus!
