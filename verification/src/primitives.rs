//! The calls this library makes into other crates and into parts of std that
//! carry no specification. Every function here is believed, not proved: its
//! body is the call, its contract says what the callee's documentation says.
//! Results that are a function of the arguments alone are given a name, so
//! that callers can state exactly what they return.

use argon2::password_hash::SaltString;
use argon2::{Algorithm, Argon2, Params, PasswordHash, PasswordHasher, PasswordVerifier, Version};
use chacha20poly1305::aead::{Aead, AeadCore, KeyInit, OsRng};
use chacha20poly1305::{ChaCha20Poly1305, Key, Nonce};
use chrono::{DateTime, Utc};
use chrono_tz::Europe::Zurich;
use std::fmt::Write;
use uuid::Uuid;
use vstd::prelude::*;

verus! {

/// Length in bytes of the tag that the cipher appends to a ciphertext.
pub const TAG_LEN: usize = 16;

/// What `Argon2::default().verify_password` says of `password` against the
/// PHC string `verifier`: `None` where `PasswordHash::new` rejects the string,
/// else whether the password verifies.
pub uninterp spec fn argon2_password_check(verifier: Seq<char>, password: Seq<char>) -> Option<bool>;

/// The key that Argon2id (version 0x13) derives with `hash_password_into`
/// under the given costs, or `None` where the call reports an error.
pub uninterp spec fn argon2id_key(
    password: Seq<char>,
    salt: Seq<u8>,
    memory_kib: u32,
    iterations: u32,
    lanes: u32,
    key_len: usize,
) -> Option<Seq<u8>>;

/// The ciphertext with its tag that ChaCha20-Poly1305 `encrypt` gives, or
/// `None` where it reports an error.
pub uninterp spec fn aead_seal(key: Seq<u8>, nonce: Seq<u8>, plaintext: Seq<u8>) -> Option<Seq<u8>>;

/// The plaintext that ChaCha20-Poly1305 `decrypt` gives, or `None` where it
/// rejects the ciphertext.
pub uninterp spec fn aead_open(key: Seq<u8>, nonce: Seq<u8>, ciphertext: Seq<u8>) -> Option<Seq<u8>>;

/// `char::is_alphanumeric`.
pub uninterp spec fn char_is_alphanumeric(c: char) -> bool;

/// `char::is_whitespace`.
pub uninterp spec fn char_is_whitespace(c: char) -> bool;

/// `str::to_lowercase`.
pub uninterp spec fn str_lowercase(s: Seq<char>) -> Seq<char>;

/// The text of the instant `secs` seconds and `nanos` nanoseconds after the
/// Unix epoch, in UTC, laid out by the chrono pattern; `None` where chrono
/// cannot represent the instant or refuses the pattern.
pub uninterp spec fn utc_text(secs: i64, nanos: u32, pattern: Seq<char>) -> Option<Seq<char>>;

/// As [`utc_text`], on the wall clock of the zone Europe/Zurich.
pub uninterp spec fn zurich_text(secs: i64, nanos: u32, pattern: Seq<char>) -> Option<Seq<char>>;

/// The view of an optional byte vector.
pub open spec fn bytes_view(v: Option<Vec<u8>>) -> Option<Seq<u8>> {
    match v {
        Some(b) => Some(b@),
        None => None,
    }
}

/// The view of an optional string.
pub open spec fn text_view(v: Option<String>) -> Option<Seq<char>> {
    match v {
        Some(s) => Some(s@),
        None => None,
    }
}

/// `PasswordHash::new` followed by `Argon2::default().verify_password`.
/// The contract only names the outcome. The hasher multiplies the degree of
/// parallelism that the verifier names by eight in 32 bits, which overflows
/// from 2^29 on, so a verifier with such a parameter `p` is left out.
#[verifier::external_body]
pub(crate) fn check_password(verifier: &str, password: &str) -> (r: Option<bool>)
    requires
        crate::phc::lanes_in_range(verifier@),
    ensures
        r == argon2_password_check(verifier@, password@),
{
    match PasswordHash::new(verifier) {
        Ok(parsed) => Some(Argon2::default().verify_password(password.as_bytes(), &parsed).is_ok()),
        Err(_) => None,
    }
}

/// `SaltString::generate` with the system's random source, then
/// `Argon2::default().hash_password`. Gives the PHC string and the salt, or
/// `None` where hashing reports an error. The salt is random, so the contract
/// claims only what argon2 documents of every such string: the password it was
/// made from verifies against it.
#[verifier::external_body]
pub(crate) fn fresh_verifier(password: &str) -> (r: Option<(String, String)>)
    ensures
        r matches Some(pair) ==> argon2_password_check(pair.0@, password@) == Some(true),
{
    let salt = SaltString::generate(&mut OsRng);
    match Argon2::default().hash_password(password.as_bytes(), &salt) {
        Ok(hash) => Some((hash.to_string(), salt.to_string())),
        Err(_) => None,
    }
}

/// `Params::new`, `Argon2::new` for Argon2id version 0x13, and
/// `hash_password_into` on a buffer of `key_len` bytes. The contract names the
/// outcome; a key that comes back has the buffer's length. `Params::new`
/// multiplies `lanes` by eight in 32 bits, so `lanes` is held to the range
/// that Argon2 admits.
#[verifier::external_body]
pub(crate) fn derive_key(
    password: &str,
    salt: &[u8],
    memory_kib: u32,
    iterations: u32,
    lanes: u32,
    key_len: usize,
) -> (r: Option<Vec<u8>>)
    requires
        lanes <= 0x00FF_FFFF,
    ensures
        bytes_view(r) == argon2id_key(password@, salt@, memory_kib, iterations, lanes, key_len),
        r matches Some(key) ==> key@.len() == key_len,
{
    let params = Params::new(memory_kib, iterations, lanes, Some(key_len)).ok()?;
    let mut key = vec![0u8; key_len];
    Argon2::new(Algorithm::Argon2id, Version::V0x13, params)
        .hash_password_into(password.as_bytes(), salt, &mut key)
        .ok()?;
    Some(key)
}

/// `ChaCha20Poly1305::generate_nonce` with the system's random source: twelve
/// bytes, of which nothing else is known.
#[verifier::external_body]
pub(crate) fn fresh_nonce() -> (r: Vec<u8>)
    ensures
        r@.len() == 12,
{
    ChaCha20Poly1305::generate_nonce(&mut OsRng).to_vec()
}

/// `ChaCha20Poly1305::new` and `encrypt` without associated data. The
/// ciphertext is the plaintext's length plus the tag, and `decrypt` under the
/// same key and nonce gives the plaintext back, as the crate documents.
#[verifier::external_body]
pub(crate) fn seal(key: &[u8], nonce: &[u8], plaintext: &[u8]) -> (r: Option<Vec<u8>>)
    requires
        key@.len() == 32,
        nonce@.len() == 12,
    ensures
        bytes_view(r) == aead_seal(key@, nonce@, plaintext@),
        r matches Some(c) ==> c@.len() == plaintext@.len() + TAG_LEN,
        r matches Some(c) ==> aead_open(key@, nonce@, c@) == Some(plaintext@),
{
    ChaCha20Poly1305::new(Key::from_slice(key)).encrypt(Nonce::from_slice(nonce), plaintext).ok()
}

/// `ChaCha20Poly1305::new` and `decrypt` without associated data. A
/// ciphertext shorter than the tag is refused, and a plaintext that comes back
/// is the ciphertext's length less the tag.
#[verifier::external_body]
pub(crate) fn unseal(key: &[u8], nonce: &[u8], ciphertext: &[u8]) -> (r: Option<Vec<u8>>)
    requires
        key@.len() == 32,
        nonce@.len() == 12,
    ensures
        bytes_view(r) == aead_open(key@, nonce@, ciphertext@),
        r matches Some(p) ==> ciphertext@.len() >= TAG_LEN && p@.len() + TAG_LEN
            == ciphertext@.len(),
{
    ChaCha20Poly1305::new(Key::from_slice(key)).decrypt(Nonce::from_slice(nonce), ciphertext).ok()
}

/// `Uuid::new_v4().to_string()`: random, so nothing is claimed of it.
#[verifier::external_body]
pub(crate) fn fresh_id() -> String {
    Uuid::new_v4().to_string()
}

/// `Utc::now()`, as seconds since the Unix epoch and the nanoseconds within
/// the second. Nothing is claimed of a clock reading.
#[verifier::external_body]
pub(crate) fn clock_now() -> (i64, u32) {
    let now = Utc::now();
    (now.timestamp(), now.timestamp_subsec_nanos())
}

/// `DateTime::from_timestamp` and `format` in UTC.
#[verifier::external_body]
pub(crate) fn format_utc(secs: i64, nanos: u32, pattern: &str) -> (r: Option<String>)
    ensures
        text_view(r) == utc_text(secs, nanos, pattern@),
{
    let instant = DateTime::from_timestamp(secs, nanos)?;
    let mut out = String::new();
    write!(out, "{}", instant.format(pattern)).ok()?;
    Some(out)
}

/// `DateTime::from_timestamp`, `with_timezone(&Zurich)` and `format`.
#[verifier::external_body]
pub(crate) fn format_zurich(secs: i64, nanos: u32, pattern: &str) -> (r: Option<String>)
    ensures
        text_view(r) == zurich_text(secs, nanos, pattern@),
{
    let instant = DateTime::from_timestamp(secs, nanos)?;
    let mut out = String::new();
    write!(out, "{}", instant.with_timezone(&Zurich).format(pattern)).ok()?;
    Some(out)
}

/// `char::is_alphanumeric`.
#[verifier::external_body]
pub(crate) fn is_alphanumeric(c: char) -> (r: bool)
    ensures
        r == char_is_alphanumeric(c),
{
    c.is_alphanumeric()
}

/// `char::is_whitespace`.
#[verifier::external_body]
pub(crate) fn is_whitespace(c: char) -> (r: bool)
    ensures
        r == char_is_whitespace(c),
{
    c.is_whitespace()
}

/// `str::to_lowercase`.
#[verifier::external_body]
pub(crate) fn lowercase(s: &str) -> (r: String)
    ensures
        r@ == str_lowercase(s@),
{
    s.to_lowercase()
}

} // verus!
