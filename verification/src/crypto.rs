//! Password hashing and the fingerprint of a reading.

use vstd::prelude::*;
use vstd::string::*;
use crate::db::SensorReading;
use crate::encoding::{canonical_encoding, canonical_text};

verus! {

/// Longest password, in bytes, that the hashing function accepts.
pub const MAX_PASSWORD_BYTES: usize = 0xFFFF_FFFF;

/// Number of characters of a fingerprint.
pub const FINGERPRINT_LENGTH: usize = 64;

/// Whether Argon2, with its default settings, accepts `password` against
/// the stored string `stored`.
pub uninterp spec fn phc_accepts(password: Seq<char>, stored: Seq<char>) -> bool;

/// The BLAKE3 digest of the UTF-8 bytes of `text`, in hexadecimal.
pub uninterp spec fn blake3_hex(text: Seq<char>) -> Seq<char>;

/// Whether a password is short enough to be hashed: its UTF-8 encoding
/// stays within the limit of the hashing function.
pub open spec fn hashable(password: Seq<char>) -> bool {
    vstd::utf8::encode_utf8(password).len() <= MAX_PASSWORD_BYTES
}

/// Whether a stored string has the first mark of the PHC format: it
/// begins with `$`.
pub open spec fn begins_as_phc(stored: Seq<char>) -> bool {
    stored.len() > 0 && stored[0] == '$'
}

/// Whether a character is a lowercase hexadecimal digit.
pub open spec fn is_lower_hex(c: char) -> bool {
    ('0' <= c && c <= '9') || ('a' <= c && c <= 'f')
}

/// A digest as it is rendered: 64 lowercase hexadecimal characters.
pub open spec fn is_hex_digest(s: Seq<char>) -> bool {
    &&& s.len() == FINGERPRINT_LENGTH
    &&& forall|i: int| 0 <= i < s.len() ==> is_lower_hex(#[trigger] s[i])
}

/// The fingerprint of a reading: the digest of its canonical text.
pub open spec fn fingerprint(reading: SensorReading) -> Seq<char> {
    blake3_hex(canonical_text(reading))
}

/// Hashes a password with `argon2::Argon2::default()` under a salt drawn
/// from the operating system by `SaltString::generate`.
///
/// Trusted: the PHC string that comes back begins with `$` and is
/// accepted for the same password, as the crate documents for hashing
/// followed by verifying. The salt is random, so nothing else is said of
/// the string; in particular nothing relates the strings of two calls.
#[verifier::external_body]
fn argon2_hash(input: &str) -> (hash: String)
    requires
        hashable(input@),
    ensures
        phc_accepts(input@, hash@),
        begins_as_phc(hash@),
{
    let salt = argon2::password_hash::SaltString::generate(
        &mut argon2::password_hash::rand_core::OsRng,
    );
    let hasher = argon2::Argon2::default();
    argon2::PasswordHasher::hash_password(&hasher, input.as_bytes(), &salt)
        .expect("Failed to hash password")
        .to_string()
}

/// Parses a PHC string with `argon2::PasswordHash::new` and checks the
/// password against it with `Argon2::default().verify_password`.
///
/// Trusted: the answer depends on the two strings alone; a string that
/// does not parse gives `false`, and the parser turns away the empty
/// string and every string that does not begin with `$`.
#[verifier::external_body]
fn argon2_verify(password: &str, stored_hash: &str) -> (ok: bool)
    ensures
        ok == phc_accepts(password@, stored_hash@),
        ok ==> begins_as_phc(stored_hash@),
{
    match argon2::PasswordHash::new(stored_hash) {
        Ok(parsed) => argon2::PasswordVerifier::verify_password(
            &argon2::Argon2::default(),
            password.as_bytes(),
            &parsed,
        ).is_ok(),
        Err(_) => false,
    }
}

/// Hashes text with `blake3::hash` and renders the digest with
/// `Hash::to_hex`.
///
/// Trusted: the digest depends on the text alone and is rendered as 64
/// lowercase hexadecimal characters.
#[verifier::external_body]
fn blake3_digest(text: &str) -> (digest: String)
    ensures
        digest@ == blake3_hex(text@),
        is_hex_digest(digest@),
{
    blake3::hash(text.as_bytes()).to_hex().to_string()
}

/// Hashes a password for storage under a fresh random salt. Every hash
/// that comes back is a string in the PHC format and verifies against
/// the password it was made from.
pub fn calculate_hash(input: &str) -> (hash: String)
    requires
        hashable(input@),
    ensures
        phc_accepts(input@, hash@),
        begins_as_phc(hash@),
{
    argon2_hash(input)
}

/// Checks a password against a stored hash. A malformed hash gives
/// `false`: so does, in particular, every string that is empty or does
/// not begin with `$`.
pub fn verify_hash(password: &str, stored_hash: &str) -> (ok: bool)
    ensures
        ok == phc_accepts(password@, stored_hash@),
        !begins_as_phc(stored_hash@) ==> !ok,
{
    argon2_verify(password, stored_hash)
}

/// The fingerprint of a reading, as 64 lowercase hexadecimal characters.
pub fn reading_hash(reading: SensorReading) -> (digest: String)
    ensures
        digest@ == fingerprint(reading),
        is_hex_digest(digest@),
{
    let data = canonical_encoding(&reading);
    blake3_digest(data.as_str())
}

/// Same four values, same fingerprint: the fingerprint is a function of
/// sensor, whole second, and CO2 and temperature as they are written, and
/// of nothing else.
pub proof fn lemma_fingerprint_is_deterministic(a: SensorReading, b: SensorReading)
    requires
        a.sensor_id == b.sensor_id,
        a.timestamp.secs == b.timestamp.secs,
        a.co2.written() == b.co2.written(),
        a.temperature.written() == b.temperature.written(),
    ensures
        canonical_text(a) == canonical_text(b),
        fingerprint(a) == fingerprint(b),
{
}

} // verus!
