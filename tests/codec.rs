use base64::Engine;
use podela::codec::{is_valid, is_valid_at, CodecError, TokenError};
use podela::session::{SessionData, User, SESSION_TTL_SECS};

fn engine() -> base64::engine::GeneralPurpose {
    base64::engine::general_purpose::URL_SAFE_NO_PAD
}

fn sample_user() -> User {
    User {
        id: "01HZX3K5Q8J9V2M4N6P7R8S9T0".to_string(),
        name: "alice".to_string(),
        email: Some("alice@example.com".to_string()),
        language: "cs-CZ".to_string(),
        is_admin: false,
        created_at: 1_700_000_000,
        password_hash: "$argon2id$secret".to_string(),
    }
}

fn sample_session(expires_at: i64) -> SessionData {
    SessionData {
        id: "01HZX3K5Q8J9V2M4N6P7R8S9TA".to_string(),
        user: sample_user(),
        ip: Some("10.0.0.7".to_string()),
        enforce_ip: true,
        expires_at,
        created_at: 1_700_000_100,
    }
}

#[test]
fn token_round_trips_every_transported_field() {
    let s = sample_session(2_000_000_000);
    let token = s.to_base64().unwrap();
    let back = SessionData::decode_at(&token, 1_999_999_999).unwrap();
    assert_eq!(back.id, s.id);
    assert_eq!(back.user.id, s.user.id);
    assert_eq!(back.user.name, s.user.name);
    assert_eq!(back.user.email, s.user.email);
    assert_eq!(back.user.language, s.user.language);
    assert_eq!(back.user.is_admin, s.user.is_admin);
    assert_eq!(back.user.created_at, s.user.created_at);
    assert_eq!(back.ip, s.ip);
    assert_eq!(back.enforce_ip, s.enforce_ip);
    assert_eq!(back.expires_at, s.expires_at);
    assert_eq!(back.created_at, s.created_at);
    assert_eq!(back.user.password_hash, "");
}

#[test]
fn token_decodes_up_to_its_expiration_second() {
    let s = sample_session(2_000_000_000);
    let token = s.to_base64().unwrap();
    assert!(SessionData::decode_at(&token, 2_000_000_000).is_ok());
    assert_eq!(SessionData::decode_at(&token, 2_000_000_001).unwrap_err(), CodecError::Expired);
}

#[test]
fn token_round_trips_absent_optionals() {
    let mut s = sample_session(3_000_000_000);
    s.ip = None;
    s.user.email = None;
    let back = SessionData::decode_at(&s.to_base64().unwrap(), 0).unwrap();
    assert_eq!(back.ip, None);
    assert_eq!(back.user.email, None);
}

#[test]
fn token_starts_with_big_endian_expiration() {
    let s = sample_session(0x0102_0304_0506_0708);
    let token = s.to_base64().unwrap();
    let raw = engine().decode(&token).unwrap();
    assert_eq!(&raw[..8], &[1, 2, 3, 4, 5, 6, 7, 8]);
    assert!(raw.len() > 8);
    assert!(!token.contains('+') && !token.contains('/') && !token.contains('='));
}

#[test]
fn negative_expiration_is_twos_complement() {
    let s = sample_session(-2);
    let raw = engine().decode(s.to_base64().unwrap()).unwrap();
    assert_eq!(&raw[..8], &[0xff, 0xff, 0xff, 0xff, 0xff, 0xff, 0xff, 0xfe]);
    assert_eq!(SessionData::decode_at(&s.to_base64().unwrap(), i64::MIN).unwrap().expires_at, -2);
}

#[test]
fn short_input_is_truncated() {
    for n in 0..8usize {
        let text = engine().encode(vec![0xffu8; n]);
        assert_eq!(SessionData::decode_at(&text, 0).unwrap_err(), CodecError::Truncated);
    }
}

#[test]
fn past_prefix_is_expired_even_with_good_payload() {
    let s = sample_session(1_000);
    let token = s.to_base64().unwrap();
    assert_eq!(SessionData::decode_at(&token, 1_001).unwrap_err(), CodecError::Expired);
    assert_eq!(SessionData::from_base64(&token).unwrap_err(), CodecError::Expired);
}

#[test]
fn past_prefix_is_expired_before_payload_is_read() {
    let mut raw = 5i64.to_be_bytes().to_vec();
    raw.extend_from_slice(b"garbage");
    let text = engine().encode(&raw);
    assert_eq!(SessionData::decode_at(&text, 6).unwrap_err(), CodecError::Expired);
}

#[test]
fn bad_payload_is_corrupt() {
    let mut raw = i64::MAX.to_be_bytes().to_vec();
    raw.extend_from_slice(&[1, 2, 3]);
    let text = engine().encode(&raw);
    assert_eq!(SessionData::decode_at(&text, 0).unwrap_err(), CodecError::Corrupt);
}

#[test]
fn bad_text_is_bad_encoding() {
    assert_eq!(SessionData::decode_at("not base64!", 0).unwrap_err(), CodecError::BadEncoding);
    assert_eq!(SessionData::from_base64("***").unwrap_err(), CodecError::BadEncoding);
}

#[test]
fn fresh_session_lasts_four_days() {
    let s = SessionData::new(sample_user(), Some("127.0.0.1".to_string()));
    assert_eq!(s.id.len(), 26);
    assert_eq!(s.expires_at - s.created_at, SESSION_TTL_SECS);
    assert_eq!(SESSION_TTL_SECS, 4 * 24 * 60 * 60);
    assert!(!s.enforce_ip);
    assert_eq!(s.ip.as_deref(), Some("127.0.0.1"));
    let back = SessionData::from_base64(&s.to_base64().unwrap()).unwrap();
    assert_eq!(back.id, s.id);
}

#[test]
fn fresh_sessions_have_distinct_ids() {
    let a = SessionData::new(sample_user(), None);
    let b = SessionData::new(sample_user(), None);
    assert_ne!(a.id, b.id);
}

#[test]
fn stored_token_yields_user_snapshot() {
    let s = SessionData::new(sample_user(), None);
    let token = s.to_base64().unwrap();
    let u = User::from_session(Some(&token)).unwrap();
    assert_eq!(u.name, "alice");
    assert_eq!(u.password_hash, "");
    assert_eq!(User::from_session(None).unwrap_err(), TokenError::Missing);
    assert_eq!(User::from_session(Some("%%")).unwrap_err(), TokenError::Invalid(CodecError::BadEncoding));
    assert!(SessionData::from_session(Some(&token)).is_some());
    assert!(SessionData::from_session(None).is_none());
    assert!(SessionData::from_session(Some("%%")).is_none());
}

#[test]
fn expiration_check_compares_with_now() {
    assert!(is_valid_at(Some(11), 10));
    assert!(!is_valid_at(Some(10), 10));
    assert!(!is_valid_at(None, 10));
    assert!(!is_valid(None));
    assert!(!is_valid(Some(0)));
    assert!(is_valid(Some(i64::MAX)));
}

#[test]
fn token_ignores_password_hash_and_is_deterministic() {
    let a = sample_session(2_000_000_000);
    let mut b = sample_session(2_000_000_000);
    b.user.password_hash = "something else".to_string();
    assert_eq!(a.to_base64().unwrap(), a.to_base64().unwrap());
    assert_eq!(a.to_base64().unwrap(), b.to_base64().unwrap());
}

#[test]
fn stored_expired_token_reports_its_error() {
    let s = sample_session(5);
    let token = s.to_base64().unwrap();
    assert_eq!(User::from_session(Some(&token)).unwrap_err(), TokenError::Invalid(CodecError::Expired));
}
