//! Password hashing and verification with Argon2.
use vstd::prelude::*;
use argon2::password_hash::rand_core::OsRng;
use argon2::password_hash::{Error as PhcError, PasswordHash, Salt, SaltString};
use argon2::{Argon2, PasswordHasher, PasswordVerifier};

verus! {

/// The error type of the `password-hash` crate, carried opaquely.
#[verifier::external_type_specification]
#[verifier::external_body]
pub struct ExPhcError(PhcError);

/// Whether `hash` parses as a PHC password-hash string.
pub uninterp spec fn phc_well_formed(hash: Seq<char>) -> bool;

/// Whether Argon2 (default configuration, parameters taken from the hash)
/// accepts `password` against the PHC string `hash`.
pub uninterp spec fn password_matches(password: Seq<char>, hash: Seq<char>) -> bool;

/// How every hash of this store begins: Argon2id, version 19 (0x13), and
/// argon2's default parameters (19 MiB of memory, 2 passes, 1 lane). The salt
/// and the digest follow, each after a `$`.
pub const PHC_PREFIX: &'static str = "$argon2id$v=19$m=19456,t=2,p=1$";

/// How many characters the salt of a hash of this store has: 16 random bytes
/// in unpadded base64.
pub const SALT_CHARS: usize = 22;

/// How many characters the digest of a hash of this store has: argon2's
/// default 32-byte output in unpadded base64.
pub const DIGEST_CHARS: usize = 43;

/// The longest password (in characters) that is sure to fit Argon2's limit
/// of `u32::MAX` bytes: a character takes at most 4 bytes in UTF-8.
pub const MAX_PASSWORD_CHARS: usize = 1_073_741_823;

/// `s` begins with `prefix`.
pub open spec fn starts_with(s: Seq<char>, prefix: Seq<char>) -> bool {
    prefix.len() <= s.len() && s.subrange(0, prefix.len() as int) == prefix
}

/// A character of the standard base64 alphabet, as PHC strings use it.
pub open spec fn b64_char(c: char) -> bool {
    ('A' <= c <= 'Z') || ('a' <= c <= 'z') || ('0' <= c <= '9') || c == '+' || c == '/'
}

/// The 6-bit value of a base64 character.
pub open spec fn b64_value(c: char) -> int {
    if 'A' <= c <= 'Z' {
        c as int - 'A' as int
    } else if 'a' <= c <= 'z' {
        c as int - 'a' as int + 26
    } else if '0' <= c <= '9' {
        c as int - '0' as int + 52
    } else if c == '+' {
        62
    } else {
        63
    }
}

/// `s` is the unpadded base64 text of 16 bytes: 22 characters, the last of
/// which carries only two bits.
pub open spec fn salt_text(s: Seq<char>) -> bool {
    &&& s.len() == SALT_CHARS
    &&& forall|i: int| 0 <= i < s.len() ==> b64_char(#[trigger] s[i])
    &&& b64_value(s[SALT_CHARS - 1]) % 16 == 0
}

/// `h` is the PHC string of this store's configuration with salt `salt`:
/// the prefix, the salt, a `$`, and a base64 digest.
pub open spec fn phc_of(h: Seq<char>, salt: Seq<char>) -> bool {
    let p = PHC_PREFIX@.len() as int;
    &&& h.len() == p + salt.len() + 1 + DIGEST_CHARS
    &&& h.subrange(0, p) == PHC_PREFIX@
    &&& h.subrange(p, p + salt.len()) == salt
    &&& h[p + salt.len()] == '$'
    &&& forall|i: int| p + salt.len() + 1 <= i < h.len() ==> b64_char(#[trigger] h[i])
}

/// `h` is a self-describing hash of this store: algorithm, version and
/// parameters, then a 22-character salt and a 43-character digest.
pub open spec fn phc_shape(h: Seq<char>) -> bool {
    let p = PHC_PREFIX@.len() as int;
    &&& h.len() == p + SALT_CHARS + 1 + DIGEST_CHARS
    &&& phc_of(h, h.subrange(p, p + SALT_CHARS))
    &&& forall|i: int| p <= i < p + SALT_CHARS ==> b64_char(#[trigger] h[i])
}

/// `h` names one of the Argon2 algorithms.
pub open spec fn argon2_named(h: Seq<char>) -> bool {
    starts_with(h, "$argon2id$"@) || starts_with(h, "$argon2i$"@) || starts_with(h, "$argon2d$"@)
}

/// Why a password could not be hashed or verified.
#[derive(Debug, Clone, Copy, PartialEq, Eq, Structural)]
pub enum CredentialError {
    /// The stored hash is not an Argon2 PHC string.
    MalformedHash,
    /// The hash parsed, but the password does not verify against it.
    Mismatch,
    /// Computing a hash failed.
    HashingFailed,
}

/// Relies on `SaltString::generate` over the operating system's RNG: 16
/// random bytes, rendered in unpadded standard base64. Nothing is stated of
/// the bytes themselves.
#[verifier::external_body]
fn fresh_salt() -> (r: String)
    ensures
        salt_text(r@),
{
    SaltString::generate(&mut OsRng).as_str().to_string()
}

/// Relies on `Salt::from_b64` and `Argon2::default().hash_password`. The PHC
/// string it renders (`PasswordHash`'s `Display`) is the default algorithm,
/// version and parameters, the salt as given, and the 32-byte digest in
/// base64; it verifies against the same password (argon2's documented round
/// trip). It fails only on a password over `u32::MAX` bytes or on a salt that
/// is not valid base64 of at least 8 bytes.
#[verifier::external_body]
fn argon2_hash(password: &str, salt: &str) -> (r: Result<String, PhcError>)
    ensures
        r is Ok ==> phc_well_formed(r->Ok_0@),
        r is Ok ==> password_matches(password@, r->Ok_0@),
        r is Ok ==> phc_of(r->Ok_0@, salt@),
        salt_text(salt@) && password@.len() <= MAX_PASSWORD_CHARS ==> r is Ok,
{
    Salt::from_b64(salt)
        .and_then(|s| Argon2::default().hash_password(password.as_bytes(), s))
        .map(|h| h.to_string())
}

/// Relies on `PasswordHash::new`: succeeds exactly on PHC strings.
#[verifier::external_body]
fn phc_parse(hash: &str) -> (r: Result<(), PhcError>)
    ensures
        r is Ok <==> phc_well_formed(hash@),
{
    PasswordHash::new(hash).map(|_| ())
}

/// Relies on `PasswordHash::new` followed by `Argon2::default().verify_password`;
/// verification parses the hash first, and accepts only the Argon2
/// algorithms with a salt and a digest, so success implies a PHC string that
/// names one of them.
#[verifier::external_body]
fn argon2_verify(password: &str, hash: &str) -> (r: Result<(), PhcError>)
    ensures
        r is Ok <==> password_matches(password@, hash@),
        r is Ok ==> phc_well_formed(hash@),
        r is Ok ==> argon2_named(hash@),
{
    PasswordHash::new(hash).and_then(|parsed| Argon2::default().verify_password(password.as_bytes(), &parsed))
}

/// Whether `s` begins with `prefix`.
fn has_prefix(s: &str, prefix: &str) -> (r: bool)
    ensures
        r == starts_with(s@, prefix@),
{
    let n = prefix.unicode_len();
    if s.unicode_len() < n {
        return false;
    }
    let mut i: usize = 0;
    while i < n
        invariant
            n == prefix@.len(),
            n <= s@.len(),
            i <= n,
            forall|k: int| 0 <= k < i ==> s@[k] == prefix@[k],
        decreases n - i,
    {
        if s.get_char(i) != prefix.get_char(i) {
            assert(s@.subrange(0, n as int)[i as int] != prefix@[i as int]);
            return false;
        }
        i += 1;
    }
    assert(s@.subrange(0, n as int) =~= prefix@);
    true
}

/// Hashes `password` with a fresh random salt into a self-describing PHC
/// string: Argon2id, version, parameters, salt and digest. Whatever salt was
/// drawn, a returned hash verifies against the same password with
/// [`verify_password`]; hashing succeeds for every password of at most
/// [`MAX_PASSWORD_CHARS`] characters.
pub fn hash_password(password: &str) -> (r: Result<String, CredentialError>)
    ensures
        r is Ok ==> phc_well_formed(r->Ok_0@),
        r is Ok ==> phc_shape(r->Ok_0@),
        r is Ok ==> starts_with(r->Ok_0@, PHC_PREFIX@),
        r is Ok ==> password_matches(password@, r->Ok_0@),
        password@.len() <= MAX_PASSWORD_CHARS ==> r is Ok,
        r is Err ==> r == Err::<String, CredentialError>(CredentialError::HashingFailed),
{
    let salt = fresh_salt();
    match argon2_hash(password, salt.as_str()) {
        Ok(h) => {
            proof {
                let p = PHC_PREFIX@.len() as int;
                assert(h@.subrange(p, p + SALT_CHARS) == salt@);
                assert forall|i: int| p <= i < p + SALT_CHARS implies b64_char(#[trigger] h@[i]) by {
                    assert(h@[i] == h@.subrange(p, p + SALT_CHARS)[i - p]);
                }
            }
            Ok(h)
        },
        Err(_) => Err(CredentialError::HashingFailed),
    }
}

/// Checks `password` against a stored hash. A string that is not a PHC
/// string naming an Argon2 algorithm is malformed (not made by this store).
pub fn verify_password(password: &str, hash: &str) -> (r: Result<(), CredentialError>)
    ensures
        r is Ok <==> password_matches(password@, hash@),
        r == Err::<(), CredentialError>(CredentialError::MalformedHash)
            <==> !phc_well_formed(hash@) || !argon2_named(hash@),
        r == Err::<(), CredentialError>(CredentialError::Mismatch) <==> (phc_well_formed(hash@)
            && argon2_named(hash@) && !password_matches(password@, hash@)),
{
    match argon2_verify(password, hash) {
        Ok(()) => Ok(()),
        Err(_) => {
            let named = has_prefix(hash, "$argon2id$") || has_prefix(hash, "$argon2i$") || has_prefix(hash, "$argon2d$");
            if named && phc_parse(hash).is_ok() {
                Err(CredentialError::Mismatch)
            } else {
                Err(CredentialError::MalformedHash)
            }
        },
    }
}

} // verus!
