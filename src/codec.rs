//! The transport form of a session: an 8-byte big-endian expiration prefix
//! followed by the serialized session, all in URL-safe base64 without padding.
//! The prefix lets a stale token be rejected before its payload is parsed.
use vstd::prelude::*;
use base64::Engine;
use crate::clock::{now_timestamp, CLOCK_LIMIT_SECS};
use crate::session::{SessionData, SessionModel, User};

verus! {

/// base64's decoding error, carried opaquely.
#[verifier::external_type_specification]
#[verifier::external_body]
pub struct ExDecodeError(base64::DecodeError);

/// bincode's error kind, carried opaquely.
#[verifier::external_type_specification]
#[verifier::external_body]
pub struct ExBincodeErrorKind(bincode::ErrorKind);

/// The URL-safe, unpadded base64 text of `bytes`.
pub uninterp spec fn base64_text(bytes: Seq<u8>) -> Seq<char>;

/// The bytes that URL-safe, unpadded base64 `text` stands for, if it is valid.
pub uninterp spec fn base64_bytes(text: Seq<char>) -> Option<Seq<u8>>;

/// The bincode serialization of the transported fields of a session
/// snapshot.
pub uninterp spec fn payload_of(s: SessionModel) -> Seq<u8>;

/// The session that bincode reads from `bytes`, if they parse.
pub uninterp spec fn payload_decoded(bytes: Seq<u8>) -> Option<SessionModel>;

/// A character of the URL-safe base64 alphabet: letters, digits, `-` and `_`.
pub open spec fn url_safe_char(c: char) -> bool {
    ('A' <= c <= 'Z') || ('a' <= c <= 'z') || ('0' <= c <= '9') || c == '-' || c == '_'
}

/// Relies on `URL_SAFE_NO_PAD.encode` of base64: its output is drawn from
/// the URL-safe alphabet, has no padding, and decodes back to the input
/// under the same engine.
#[verifier::external_body]
fn base64_encode(bytes: &[u8]) -> (r: String)
    ensures
        r@ == base64_text(bytes@),
        forall|i: int| 0 <= i < r@.len() ==> url_safe_char(#[trigger] r@[i]),
        base64_bytes(r@) == Some(bytes@),
{
    base64::engine::general_purpose::URL_SAFE_NO_PAD.encode(bytes)
}

/// Relies on `URL_SAFE_NO_PAD.decode` of base64.
#[verifier::external_body]
fn base64_decode(text: &str) -> (r: Result<Vec<u8>, base64::DecodeError>)
    ensures
        r is Ok <==> base64_bytes(text@) is Some,
        r is Ok ==> base64_bytes(text@) == Some(r->Ok_0@),
{
    base64::engine::general_purpose::URL_SAFE_NO_PAD.decode(text)
}

/// Relies on `bincode::serialize` of the session's fields as a tuple of
/// std values (the password hash left out, so only the snapshot counts).
/// It runs with no size limit into a `Vec`, and none of these field types
/// can fail to serialize, so it always succeeds; bincode reads back what it
/// wrote.
#[verifier::external_body]
fn bincode_serialize(s: &SessionData) -> (r: Result<Vec<u8>, Box<bincode::ErrorKind>>)
    ensures
        r is Ok,
        r is Ok ==> r->Ok_0@ == payload_of(s@.snapshot()),
        r is Ok ==> payload_decoded(r->Ok_0@) == Some(s@.snapshot()),
{
    let u = &s.user;
    let user = (&u.id, &u.name, &u.email, &u.language, u.is_admin, u.created_at);
    bincode::serialize(&(&s.id, user, &s.ip, s.enforce_ip, s.expires_at, s.created_at))
}

/// Relies on `bincode::deserialize` into the tuple that
/// [`bincode_serialize`] writes; the password hash comes back empty.
#[verifier::external_body]
fn bincode_deserialize(bytes: &[u8]) -> (r: Result<SessionData, Box<bincode::ErrorKind>>)
    ensures
        r is Ok <==> payload_decoded(bytes@) is Some,
        r is Ok ==> payload_decoded(bytes@) == Some(r->Ok_0@),
{
    bincode::deserialize::<(String, (String, String, Option<String>, String, bool, i64), Option<String>, bool, i64, i64)>(bytes)
        .map(|(id, (user_id, name, email, language, is_admin, user_created_at), ip, enforce_ip, expires_at, created_at)| SessionData {
            id,
            user: User { id: user_id, name, email, language, is_admin, created_at: user_created_at, password_hash: String::new() },
            ip,
            enforce_ip,
            expires_at,
            created_at,
        })
}

/// Why a token could not be produced or read.
#[derive(Debug, Clone, Copy, PartialEq, Eq, Structural)]
pub enum CodecError {
    /// The text is not URL-safe base64.
    BadEncoding,
    /// Fewer than 8 bytes: no room for the expiration prefix.
    Truncated,
    /// The expiration prefix lies in the past.
    Expired,
    /// The payload after the prefix does not parse as a session.
    Corrupt,
    /// The session could not be serialized; the fields of a session always
    /// serialize, so encoding never reports it.
    Unserializable,
}

/// The 8 big-endian bytes of the two's complement form of `x`.
pub open spec fn be_bytes(x: i64) -> Seq<u8> {
    let u = x as u64;
    seq![
        (u >> 56u64) as u8, (u >> 48u64) as u8, (u >> 40u64) as u8, (u >> 32u64) as u8,
        (u >> 24u64) as u8, (u >> 16u64) as u8, (u >> 8u64) as u8, u as u8,
    ]
}

/// The signed integer whose big-endian bytes are `b0` to `b7`.
pub open spec fn pack_be(b0: u8, b1: u8, b2: u8, b3: u8, b4: u8, b5: u8, b6: u8, b7: u8) -> i64 {
    (((b0 as u64) << 56u64) | ((b1 as u64) << 48u64) | ((b2 as u64) << 40u64) | ((b3 as u64) << 32u64)
        | ((b4 as u64) << 24u64) | ((b5 as u64) << 16u64) | ((b6 as u64) << 8u64) | (b7 as u64)) as i64
}

/// The signed integer held big-endian in the first 8 bytes of `b`.
pub open spec fn be_value(b: Seq<u8>) -> i64
    recommends
        b.len() >= 8,
{
    pack_be(b[0], b[1], b[2], b[3], b[4], b[5], b[6], b[7])
}

/// The raw bytes of a token: the expiration prefix, then the payload.
pub open spec fn token_bytes(expires_at: int, payload: Seq<u8>) -> Seq<u8> {
    be_bytes(expires_at as i64) + payload
}

/// What decoding `text` at clock reading `now` yields.
pub open spec fn decode_spec(text: Seq<char>, now: int) -> Result<SessionModel, CodecError> {
    match base64_bytes(text) {
        None => Err(CodecError::BadEncoding),
        Some(b) => if b.len() < 8 {
            Err(CodecError::Truncated)
        } else if be_value(b) < now {
            Err(CodecError::Expired)
        } else {
            match payload_decoded(b.subrange(8, b.len() as int)) {
                None => Err(CodecError::Corrupt),
                Some(s) => Ok(s),
            }
        },
    }
}

/// The token that [`SessionData::to_base64`] produces for `s`: it depends on
/// the snapshot alone, never on the password hash.
pub open spec fn token_text(s: SessionModel) -> Seq<char> {
    base64_text(token_bytes(s.expires_at, payload_of(s.snapshot())))
}

/// `text` is the token that [`SessionData::to_base64`] produces for `s`.
pub open spec fn is_token_of(s: SessionModel, text: Seq<char>) -> bool {
    let raw = token_bytes(s.expires_at, payload_of(s.snapshot()));
    &&& text == base64_text(raw)
    &&& base64_bytes(text) == Some(raw)
    &&& payload_decoded(payload_of(s.snapshot())) == Some(s.snapshot())
}

/// The view of a decoding result.
pub open spec fn decoded_view(r: Result<SessionData, CodecError>) -> Result<SessionModel, CodecError> {
    match r {
        Ok(s) => Ok(s@),
        Err(e) => Err(e),
    }
}

/// Reading the big-endian bytes of `x` gives `x` back.
pub proof fn lemma_be_round_trip(x: i64)
    ensures
        be_value(be_bytes(x)) == x,
        be_bytes(x).len() == 8,
{
    let u = x as u64;
    assert(pack_be((u >> 56u64) as u8, (u >> 48u64) as u8, (u >> 40u64) as u8, (u >> 32u64) as u8,
        (u >> 24u64) as u8, (u >> 16u64) as u8, (u >> 8u64) as u8, u as u8) == x) by (bit_vector)
        requires
            u == x as u64,
    ;
}

/// A token decodes to the session it was made from, as long as it has not
/// expired: every transported field comes back unchanged (the password hash
/// is never transported).
pub proof fn lemma_token_round_trip(s: SessionModel, text: Seq<char>, now: int)
    requires
        is_token_of(s, text),
        i64::MIN <= s.expires_at <= i64::MAX,
        now <= s.expires_at,
    ensures
        decode_spec(text, now) == Ok::<SessionModel, CodecError>(s.snapshot()),
{
    let p = payload_of(s.snapshot());
    let b = token_bytes(s.expires_at, p);
    lemma_be_round_trip(s.expires_at as i64);
    assert(b.subrange(8, b.len() as int) =~= p);
    assert(be_value(b) == be_value(be_bytes(s.expires_at as i64)));
}

/// Two sessions that differ at most in the password hash get the same
/// token: the token carries nothing of the hash.
pub proof fn lemma_token_ignores_password_hash(a: SessionModel, b: SessionModel)
    requires
        a.snapshot() == b.snapshot(),
    ensures
        token_text(a) == token_text(b),
{
}

/// A token whose prefix lies in the past is refused as expired, whatever
/// its payload holds.
pub proof fn lemma_expired_prefix_rejected(text: Seq<char>, now: int)
    requires
        base64_bytes(text) is Some,
        base64_bytes(text)->Some_0.len() >= 8,
        be_value(base64_bytes(text)->Some_0) < now,
    ensures
        decode_spec(text, now) == Err::<SessionModel, CodecError>(CodecError::Expired),
{
}

/// The big-endian bytes of `x`.
fn prefix_bytes(x: i64) -> (r: Vec<u8>)
    ensures
        r@ == be_bytes(x),
{
    let u = x as u64;
    let r = vec![
        (u >> 56u64) as u8, (u >> 48u64) as u8, (u >> 40u64) as u8, (u >> 32u64) as u8,
        (u >> 24u64) as u8, (u >> 16u64) as u8, (u >> 8u64) as u8, u as u8,
    ];
    assert(r@ =~= be_bytes(x));
    r
}

/// The signed integer held big-endian in the first 8 bytes of `b`.
fn read_prefix(b: &Vec<u8>) -> (r: i64)
    requires
        b@.len() >= 8,
    ensures
        r == be_value(b@),
{
    (((b[0] as u64) << 56u64) | ((b[1] as u64) << 48u64) | ((b[2] as u64) << 40u64) | ((b[3] as u64) << 32u64)
        | ((b[4] as u64) << 24u64) | ((b[5] as u64) << 16u64) | ((b[6] as u64) << 8u64) | (b[7] as u64)) as i64
}

impl SessionData {
    /// Encodes the session as a transport token. Encoding always succeeds
    /// and is a function of the session's snapshot: equal sessions, or
    /// sessions differing only in the password hash, get the same token.
    pub fn to_base64(&self) -> (r: Result<String, CodecError>)
        ensures
            r is Ok,
            r is Ok ==> r->Ok_0@ == token_text(self@),
            r is Ok ==> forall|i: int| 0 <= i < r->Ok_0@.len() ==> url_safe_char(#[trigger] r->Ok_0@[i]),
            r is Ok ==> is_token_of(self@, r->Ok_0@),
    {
        let mut payload = match bincode_serialize(self) {
            Ok(p) => p,
            Err(_) => return Err(CodecError::Unserializable),
        };
        let mut bytes = prefix_bytes(self.expires_at);
        bytes.append(&mut payload);
        let text = base64_encode(bytes.as_slice());
        Ok(text)
    }

    /// Decodes a transport token as of clock reading `now` (seconds since the
    /// epoch). The expiration prefix is checked before the payload is parsed.
    pub fn decode_at(encoded: &str, now: i64) -> (r: Result<SessionData, CodecError>)
        ensures
            decoded_view(r) == decode_spec(encoded@, now as int),
            base64_bytes(encoded@) is None ==> r == Err::<SessionData, CodecError>(CodecError::BadEncoding),
            base64_bytes(encoded@) matches Some(b) && b.len() < 8
                ==> r == Err::<SessionData, CodecError>(CodecError::Truncated),
            base64_bytes(encoded@) matches Some(b) && b.len() >= 8 && be_value(b) < now
                ==> r == Err::<SessionData, CodecError>(CodecError::Expired),
    {
        let mut bytes = match base64_decode(encoded) {
            Ok(b) => b,
            Err(_) => return Err(CodecError::BadEncoding),
        };
        if bytes.len() < 8 {
            return Err(CodecError::Truncated);
        }
        let expires_at = read_prefix(&bytes);
        if expires_at < now {
            return Err(CodecError::Expired);
        }
        let payload = bytes.split_off(8);
        match bincode_deserialize(payload.as_slice()) {
            Ok(s) => Ok(s),
            Err(_) => Err(CodecError::Corrupt),
        }
    }

    /// Decodes a transport token against the current time.
    pub fn from_base64(encoded: &str) -> (r: Result<SessionData, CodecError>)
        ensures
            exists|now: int| 0 <= now < CLOCK_LIMIT_SECS && decoded_view(r) == decode_spec(encoded@, now),
            base64_bytes(encoded@) is None ==> r == Err::<SessionData, CodecError>(CodecError::BadEncoding),
            base64_bytes(encoded@) matches Some(b) && b.len() < 8
                ==> r == Err::<SessionData, CodecError>(CodecError::Truncated),
            base64_bytes(encoded@) matches Some(b) && b.len() >= 8 && be_value(b) < 0
                ==> r == Err::<SessionData, CodecError>(CodecError::Expired),
    {
        let now = now_timestamp();
        SessionData::decode_at(encoded, now)
    }

    /// The session that a client's stored token stands for, if it holds
    /// one that decodes now.
    pub fn from_session(data: Option<&str>) -> (r: Option<SessionData>)
        ensures
            data is None ==> r is None,
            data matches Some(t) ==> exists|now: int| 0 <= now < CLOCK_LIMIT_SECS
                && (r matches Some(s) ==> #[trigger] decode_spec(t@, now) == Ok::<SessionModel, CodecError>(s@))
                && (r is None <==> decode_spec(t@, now) is Err),
    {
        match data {
            Some(t) => match SessionData::from_base64(t) {
                Ok(s) => Some(s),
                Err(_) => None,
            },
            None => None,
        }
    }
}

/// Why no user could be read from a client's stored token.
#[derive(Debug, Clone, Copy, PartialEq, Eq, Structural)]
pub enum TokenError {
    /// The client holds no token.
    Missing,
    /// The token did not decode.
    Invalid(CodecError),
}

/// `r` is what reading a user from a token whose decoding gave `d` returns:
/// the decoded session's user, or the decoding error as `Invalid`.
pub open spec fn user_read(d: Result<SessionModel, CodecError>, r: Result<User, TokenError>) -> bool {
    match d {
        Ok(s) => r matches Ok(u) && u@ == s.user,
        Err(e) => r == Err::<User, TokenError>(TokenError::Invalid(e)),
    }
}

impl User {
    /// The user snapshot carried by a client's stored token. Not to be
    /// trusted for authorization: validate the token against the store for
    /// that.
    pub fn from_session(data: Option<&str>) -> (r: Result<User, TokenError>)
        ensures
            data is None ==> r == Err::<User, TokenError>(TokenError::Missing),
            data matches Some(t) ==> exists|now: int| 0 <= now < CLOCK_LIMIT_SECS
                && user_read(#[trigger] decode_spec(t@, now), r),
    {
        match data {
            Some(t) => match SessionData::from_base64(t) {
                Ok(s) => Ok(s.user),
                Err(e) => Err(TokenError::Invalid(e)),
            },
            None => Err(TokenError::Missing),
        }
    }
}

/// Whether a client-held expiration instant is still ahead of `now`.
pub fn is_valid_at(expiration: Option<i64>, now: i64) -> (r: bool)
    ensures
        r == (expiration matches Some(e) && now < e),
{
    match expiration {
        Some(e) => now < e,
        None => false,
    }
}

/// Whether a client-held expiration instant is still ahead of the current
/// time.
pub fn is_valid(expiration: Option<i64>) -> (r: bool)
    ensures
        expiration is None ==> !r,
        expiration matches Some(e) && e <= 0 ==> !r,
        expiration matches Some(e) && e >= crate::clock::CLOCK_LIMIT_SECS ==> r,
{
    is_valid_at(expiration, now_timestamp())
}

} // verus!
