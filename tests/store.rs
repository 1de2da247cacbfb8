use podela::credential::verify_password;
use podela::session::{SessionData, User};
use podela::store::{login_decision, logout_target, sign_up_decision, AuthFailure, SessionError, SessionStore, StorageError};

fn admin_store() -> (SessionStore, User) {
    let mut store = SessionStore::new();
    let admin = User::register(&mut store, "admin".to_string(), Some("test@example.com".to_string()), "admin", true).unwrap();
    (store, admin)
}

#[test]
fn registered_admin_validates_as_admin() {
    let (mut store, admin) = admin_store();
    let (_, token) = admin.create_session(&mut store, None).unwrap();
    let who = store.validate(&token).unwrap();
    assert_eq!(who.name, "admin");
    assert!(who.is_admin);
    assert_eq!(who.id, admin.id);
    assert_eq!(who.language, "en-US");
    assert_eq!(verify_password("admin", &who.password_hash), Ok(()));
}

#[test]
fn two_sessions_of_one_user_both_validate() {
    let (mut store, admin) = admin_store();
    let (a, ta) = admin.create_session(&mut store, None).unwrap();
    let (b, tb) = admin.create_session(&mut store, Some("10.1.1.1".to_string())).unwrap();
    assert_ne!(a.id, b.id);
    assert_eq!(store.validate(&ta).unwrap().id, admin.id);
    assert_eq!(store.validate(&tb).unwrap().id, admin.id);
}

#[test]
fn deleted_session_is_not_found() {
    let (mut store, admin) = admin_store();
    let (s, token) = admin.create_session(&mut store, None).unwrap();
    assert!(store.delete_session(&s.id));
    assert!(!store.delete_session(&s.id));
    assert_eq!(store.validate(&token).unwrap_err(), SessionError::NotFound);
}

#[test]
fn logout_revokes_only_its_session() {
    let (mut store, admin) = admin_store();
    let (_, t1) = admin.create_session(&mut store, None).unwrap();
    let (_, t2) = admin.create_session(&mut store, None).unwrap();
    assert!(store.logout(&t1));
    assert_eq!(store.validate(&t1).unwrap_err(), SessionError::NotFound);
    assert!(store.validate(&t2).is_ok());
    assert!(!store.logout(&t1));
    assert!(!store.logout("garbage!"));
}

#[test]
fn validate_maps_codec_failures() {
    let (mut store, admin) = admin_store();
    assert_eq!(store.validate("!!").unwrap_err(), SessionError::Malformed);
    assert_eq!(store.validate_at("AAAA", 0).unwrap_err(), SessionError::Malformed);
    let (s, token) = admin.create_session(&mut store, None).unwrap();
    assert_eq!(store.validate_at(&token, s.expires_at + 1).unwrap_err(), SessionError::Expired);
    assert_eq!(store.validate_at(&token, s.created_at).unwrap().id, admin.id);
}

#[test]
fn store_row_expiry_is_checked() {
    let (mut store, admin) = admin_store();
    let (s, token) = admin.create_session(&mut store, None).unwrap();
    // the prefix allows `expires_at` itself, the kept row does not
    assert_eq!(store.validate_at(&token, s.expires_at).unwrap_err(), SessionError::NotFound);
}

#[test]
fn forged_session_is_not_found() {
    let (store, admin) = admin_store();
    let forged = SessionData::new(admin.clone(), None);
    let token = forged.to_base64().unwrap();
    assert_eq!(store.validate(&token).unwrap_err(), SessionError::NotFound);
}

#[test]
fn pinned_address_must_match() {
    let (mut store, admin) = admin_store();
    let mut s = SessionData::new(admin.clone(), Some("10.0.0.1".to_string()));
    s.enforce_ip = true;
    assert_eq!(s.save(&mut store), Ok(()));
    assert_eq!(s.save(&mut store), Err(StorageError::Duplicate));
    let now = s.created_at;
    assert!(s.validate(&store, now).is_ok());
    let mut moved = s.clone();
    moved.ip = Some("10.0.0.2".to_string());
    assert_eq!(moved.validate(&store, now).unwrap_err(), SessionError::NotFound);
    let mut other_user = s.clone();
    other_user.user.id = "someone else".to_string();
    assert_eq!(other_user.validate(&store, now).unwrap_err(), SessionError::NotFound);
}

#[test]
fn unpinned_address_may_change() {
    let (mut store, admin) = admin_store();
    let s = SessionData::new(admin.clone(), Some("10.0.0.1".to_string()));
    s.save(&mut store).unwrap();
    let mut moved = s.clone();
    moved.ip = None;
    assert!(moved.validate(&store, s.created_at).is_ok());
}

#[test]
fn authenticate_clears_doubtful_tokens() {
    let (mut store, admin) = admin_store();
    let (_, token) = admin.create_session(&mut store, None).unwrap();
    let ok = store.authenticate(&token);
    assert!(!ok.clear_token);
    assert_eq!(ok.outcome.unwrap().name, "admin");
    let bad = store.authenticate("nonsense");
    assert!(bad.clear_token);
    assert_eq!(bad.outcome.unwrap_err(), SessionError::Malformed);
    let (s, token2) = admin.create_session(&mut store, None).unwrap();
    let late = store.authenticate_at(&token2, s.expires_at + 1);
    assert!(late.clear_token);
    assert_eq!(late.outcome.unwrap_err(), SessionError::Expired);
    store.logout(&token2);
    let gone = store.authenticate_at(&token2, s.created_at);
    assert!(gone.clear_token);
    assert_eq!(gone.outcome.unwrap_err(), SessionError::NotFound);
}

#[test]
fn duplicate_names_are_refused() {
    let (mut store, _) = admin_store();
    let again = User::register(&mut store, "admin".to_string(), None, "other", false);
    assert!(again.is_err());
    assert!(User::find(&"admin".to_string(), &store).is_some());
    assert!(User::find(&"nobody".to_string(), &store).is_none());
}

#[test]
fn sign_up_checks_input_and_conflicts() {
    let mut store = SessionStore::new();
    assert_eq!(store.sign_up(&"".to_string(), &"pw".to_string(), None).unwrap_err(), AuthFailure::BadRequest);
    assert_eq!(store.sign_up(&"bob".to_string(), &"".to_string(), None).unwrap_err(), AuthFailure::BadRequest);
    let (bob, token) = store.sign_up(&"bob".to_string(), &"hunter2".to_string(), None).unwrap();
    assert!(!bob.is_admin);
    assert_eq!(store.validate(&token.unwrap()).unwrap().name, "bob");
    assert_eq!(store.sign_up(&"bob".to_string(), &"x".to_string(), None).unwrap_err(), AuthFailure::Conflict);
    assert_eq!(store.sign_up(&bob.id, &"x".to_string(), None).unwrap_err(), AuthFailure::Conflict);
}

#[test]
fn log_in_checks_user_and_password() {
    let mut store = SessionStore::new();
    store.sign_up(&"carol".to_string(), &"pa55".to_string(), None).unwrap();
    assert_eq!(store.log_in(&"dave".to_string(), &"pa55".to_string(), false, None).unwrap_err(), AuthFailure::Unauthorized);
    assert_eq!(store.log_in(&"carol".to_string(), &"wrong".to_string(), false, None).unwrap_err(), AuthFailure::Unauthorized);
    assert_eq!(store.log_in(&"carol".to_string(), &"pa55".to_string(), true, None).unwrap_err(), AuthFailure::Conflict);
    let (carol, token) = store.log_in(&"carol".to_string(), &"pa55".to_string(), false, None).unwrap();
    assert_eq!(store.validate(&token.unwrap()).unwrap().id, carol.id);
}

#[test]
fn sign_up_decision_orders_refusals() {
    let admin = User::new_account("admin".to_string(), None, String::new(), true);
    let e = "".to_string();
    let n = "bob".to_string();
    assert_eq!(sign_up_decision(&e, &n, &None), Some(AuthFailure::BadRequest));
    assert_eq!(sign_up_decision(&n, &e, &Some(admin.clone())), Some(AuthFailure::BadRequest));
    assert_eq!(sign_up_decision(&n, &n, &Some(admin)), Some(AuthFailure::Conflict));
    assert_eq!(sign_up_decision(&n, &n, &None), None);
}

#[test]
fn login_decision_checks_user_session_and_password() {
    let hash = podela::credential::hash_password("pw").unwrap();
    let u = User::new_account("erin".to_string(), None, hash, false);
    let pw = "pw".to_string();
    assert_eq!(login_decision(None, &pw, false).unwrap_err(), AuthFailure::Unauthorized);
    assert_eq!(login_decision(Some(u.clone()), &pw, true).unwrap_err(), AuthFailure::Conflict);
    assert_eq!(login_decision(Some(u.clone()), &"nope".to_string(), false).unwrap_err(), AuthFailure::Unauthorized);
    assert_eq!(login_decision(Some(u.clone()), &pw, false).unwrap().id, u.id);
}

#[test]
fn kept_rows_are_judged() {
    let (mut store, admin) = admin_store();
    let (s, _) = admin.create_session(&mut store, None).unwrap();
    let row = Some(s.record());
    let now = s.created_at;
    assert_eq!(s.check_kept(&row, Some(admin.clone()), now).unwrap().id, admin.id);
    assert_eq!(s.check_kept(&None, Some(admin.clone()), now).unwrap_err(), SessionError::NotFound);
    assert_eq!(s.check_kept(&row, None, now).unwrap_err(), SessionError::NotFound);
    assert_eq!(s.check_kept(&row, Some(admin.clone()), s.expires_at).unwrap_err(), SessionError::NotFound);
    let other = User::new_account("x".to_string(), None, String::new(), false);
    assert_eq!(s.check_kept(&row, Some(other), now).unwrap_err(), SessionError::NotFound);
}

#[test]
fn logout_target_reads_expired_tokens_too() {
    let (mut store, admin) = admin_store();
    let (s, token) = admin.create_session(&mut store, None).unwrap();
    assert_eq!(logout_target(&token), Some(s.id.clone()));
    let mut old = s.clone();
    old.expires_at = 5;
    assert_eq!(logout_target(&old.to_base64().unwrap()), Some(s.id));
    assert_eq!(logout_target("!!"), None);
}

#[test]
fn first_session_on_empty_store_is_issued() {
    let mut store = SessionStore::new();
    let u = User::register(&mut store, "solo".to_string(), None, "pw", false).unwrap();
    assert!(u.create_session(&mut store, None).is_ok());
}

#[test]
fn sessions_of_unknown_users_are_refused() {
    let mut store = SessionStore::new();
    let stranger = User::new_account("ghost".to_string(), None, String::new(), false);
    assert_eq!(stranger.create_session(&mut store, None).unwrap_err(), podela::store::IssueError::Storage(StorageError::UnknownUser));
    let s = SessionData::new(stranger, None);
    assert_eq!(s.save(&mut store), Err(StorageError::UnknownUser));
}

#[test]
fn register_with_given_id_is_exact() {
    let mut store = SessionStore::new();
    let u = User::register_with(&mut store, "ID1".to_string(), 42, "amy".to_string(), None, "h".to_string(), false).unwrap();
    assert_eq!(u.id, "ID1");
    assert_eq!(u.created_at, 42);
    assert_eq!(u.language, "en-US");
    let dup_id = User::register_with(&mut store, "ID1".to_string(), 43, "ben".to_string(), None, "h".to_string(), false);
    assert_eq!(dup_id.unwrap_err(), StorageError::Duplicate);
    let dup_name = User::register_with(&mut store, "ID2".to_string(), 43, "amy".to_string(), None, "h".to_string(), false);
    assert_eq!(dup_name.unwrap_err(), StorageError::Duplicate);
}

#[test]
fn registered_hash_is_not_the_password() {
    let mut store = SessionStore::new();
    let u = User::register(&mut store, "kim".to_string(), None, "plain", false).unwrap();
    assert_ne!(u.password_hash, "plain");
    assert!(u.password_hash.starts_with(podela::credential::PHC_PREFIX));
}
