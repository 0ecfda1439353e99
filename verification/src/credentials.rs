//! Credential storage: turning a plaintext password into a salt and hash
//! pair fit for a user row, and verifying a presented password against a
//! stored pair. The key derivation is PBKDF2 with HMAC-SHA-512 at a fixed,
//! deliberately slow work factor; both outputs are stored as uppercase
//! hexadecimal strings.

use vstd::prelude::*;

use crate::hex::{
    hex_decodable, hex_parse, hex_upper_decode, hex_upper_encode, hex_upper_of,
    lemma_hex_round_trip,
};

verus! {

/// The length in bytes of the salt and of the derived hash: the SHA-512
/// output length.
pub const CREDENTIAL_LEN: usize = 64;

/// The fixed PBKDF2 iteration count.
pub const N_ITER: u32 = 25000;

/// Names the 64-byte key that PBKDF2 with HMAC-SHA-512 derives from an
/// iteration count, a salt and a password. The result is a function of those
/// alone; nothing more is assumed of it.
pub uninterp spec fn pbkdf2_sha512(iterations: u32, salt: Seq<u8>, password: Seq<char>) -> Seq<u8>;

/// A password hashing failure: the only one possible is that the secure
/// random source refused to produce a salt.
#[derive(Clone, Copy, PartialEq, Eq, Structural, Debug)]
pub enum CredentialError {
    RandomUnavailable,
}

/// A salt and hash pair as stored in a user row: both uppercase hexadecimal,
/// always produced together by one `generate` call.
pub struct SaltedHash {
    pub salt: String,
    pub hash: String,
}

/// What `generate` promises of a stored pair: the salt encodes 64 random
/// bytes, and the hash encodes the key PBKDF2 derives from that salt and the
/// password at the fixed work factor.
pub open spec fn generated_credentials(salt: Seq<char>, hash: Seq<char>, password: Seq<char>) -> bool {
    exists|sb: Seq<u8>, db: Seq<u8>|
        {
            &&& sb.len() == CREDENTIAL_LEN
            &&& db == pbkdf2_sha512(N_ITER, sb, password)
            &&& db.len() == CREDENTIAL_LEN
            &&& salt == hex_upper_of(sb)
            &&& hash == hex_upper_of(db)
        }
}

/// What `verify` decides: both fields decode as uppercase hexadecimal, the
/// hash is of full length, and it equals the key PBKDF2 derives from the
/// decoded salt and the presented password.
pub open spec fn credentials_match(salt: Seq<char>, hash: Seq<char>, password: Seq<char>) -> bool {
    &&& hex_decodable(salt)
    &&& hex_decodable(hash)
    &&& hex_parse(hash).len() == CREDENTIAL_LEN
    &&& hex_parse(hash) == pbkdf2_sha512(N_ITER, hex_parse(salt), password)
}

/// A pair produced by `generate` for a password verifies against that same
/// password.
pub proof fn lemma_generated_credentials_match(
    salt: Seq<char>,
    hash: Seq<char>,
    password: Seq<char>,
)
    requires
        generated_credentials(salt, hash, password),
    ensures
        credentials_match(salt, hash, password),
{
    let (sb, db) = choose|sb: Seq<u8>, db: Seq<u8>|
        {
            &&& sb.len() == CREDENTIAL_LEN
            &&& db == pbkdf2_sha512(N_ITER, sb, password)
            &&& db.len() == CREDENTIAL_LEN
            &&& salt == hex_upper_of(sb)
            &&& hash == hex_upper_of(db)
        };
    lemma_hex_round_trip(sb);
    lemma_hex_round_trip(db);
}

/// Relies on `ring::rand::SystemRandom::new`: a handle on the system's
/// secure random source.
#[verifier::external_type_specification]
#[verifier::external_body]
pub struct ExSystemRandom(ring::rand::SystemRandom);

/// Relies on `ring::rand::SystemRandom::new`.
#[verifier::external_body]
pub(crate) fn new_system_random() -> ring::rand::SystemRandom {
    ring::rand::SystemRandom::new()
}

/// Relies on `ring::rand::SecureRandom::fill` on `SystemRandom`: on success
/// the buffer is filled with securely generated random bytes; nothing is
/// assumed of their values.
#[verifier::external_body]
pub(crate) fn fill_random(rng: &ring::rand::SystemRandom, len: usize) -> (r: Option<Vec<u8>>)
    ensures
        r matches Some(v) ==> v@.len() == len,
{
    let mut buf = vec![0u8; len];
    match ring::rand::SecureRandom::fill(rng, &mut buf) {
        Ok(()) => Some(buf),
        Err(_) => None,
    }
}

/// Relies on `ring::pbkdf2::derive` with `PBKDF2_HMAC_SHA512`: fills a
/// buffer of the SHA-512 output length (64 bytes) with the key derived from
/// the iteration count, salt and password, a deterministic function of those
/// alone.
#[verifier::external_body]
pub(crate) fn pbkdf2_derive(iterations: u32, salt: &Vec<u8>, password: &str) -> (r: Vec<u8>)
    requires
        1 <= iterations,
    ensures
        r@.len() == CREDENTIAL_LEN,
        r@ == pbkdf2_sha512(iterations, salt@, password@),
{
    let mut out = vec![0u8; ring::digest::SHA512_OUTPUT_LEN];
    ring::pbkdf2::derive(
        ring::pbkdf2::PBKDF2_HMAC_SHA512,
        core::num::NonZeroU32::new(iterations).unwrap(),
        salt,
        password.as_bytes(),
        &mut out,
    );
    out
}

/// Relies on `ring::pbkdf2::verify` with `PBKDF2_HMAC_SHA512`: re-derives a
/// key of the stored length from the iteration count, salt and password and
/// compares it against the stored key in constant time, so the comparison
/// leaks nothing about the position of a mismatch.
#[verifier::external_body]
pub(crate) fn pbkdf2_matches(
    iterations: u32,
    salt: &Vec<u8>,
    password: &str,
    derived: &Vec<u8>,
) -> (r: bool)
    requires
        1 <= iterations,
        derived@.len() == CREDENTIAL_LEN,
    ensures
        r == (derived@ == pbkdf2_sha512(iterations, salt@, password@)),
{
    ring::pbkdf2::verify(
        ring::pbkdf2::PBKDF2_HMAC_SHA512,
        core::num::NonZeroU32::new(iterations).unwrap(),
        salt,
        password.as_bytes(),
        derived,
    )
        .is_ok()
}

impl SaltedHash {
    /// Draws a fresh 64-byte random salt, derives the hash for the password,
    /// and encodes both for storage. Fails only if the secure random source
    /// does.
    pub fn generate(password: &str) -> (r: Result<SaltedHash, CredentialError>)
        ensures
            r matches Ok(sh) ==> generated_credentials(sh.salt@, sh.hash@, password@),
            r matches Ok(sh) ==> credentials_match(sh.salt@, sh.hash@, password@),
    {
        let rng = new_system_random();
        let salt_bytes = match fill_random(&rng, CREDENTIAL_LEN) {
            Some(v) => v,
            None => {
                return Err(CredentialError::RandomUnavailable);
            },
        };
        let hash_bytes = pbkdf2_derive(N_ITER, &salt_bytes, password);
        let sh = SaltedHash {
            salt: hex_upper_encode(&salt_bytes),
            hash: hex_upper_encode(&hash_bytes),
        };
        proof {
            assert(generated_credentials(sh.salt@, sh.hash@, password@)) by {
                assert({
                    &&& salt_bytes@.len() == CREDENTIAL_LEN
                    &&& hash_bytes@ == pbkdf2_sha512(N_ITER, salt_bytes@, password@)
                    &&& hash_bytes@.len() == CREDENTIAL_LEN
                    &&& sh.salt@ == hex_upper_of(salt_bytes@)
                    &&& sh.hash@ == hex_upper_of(hash_bytes@)
                });
            }
            lemma_generated_credentials_match(sh.salt@, sh.hash@, password@);
        }
        Ok(sh)
    }

    /// Re-derives the hash from the stored salt and the presented password
    /// and compares. Any mismatch, including a stored salt or hash that is
    /// not well-formed hexadecimal, is verification failure, never an error.
    pub fn verify(&self, password: &str) -> (r: bool)
        ensures
            r == credentials_match(self.salt@, self.hash@, password@),
    {
        let salt_bytes = match hex_upper_decode(self.salt.as_str()) {
            Some(v) => v,
            None => {
                return false;
            },
        };
        let hash_bytes = match hex_upper_decode(self.hash.as_str()) {
            Some(v) => v,
            None => {
                return false;
            },
        };
        if hash_bytes.len() != CREDENTIAL_LEN {
            return false;
        }
        pbkdf2_matches(N_ITER, &salt_bytes, password, &hash_bytes)
    }
}

} // verus!
