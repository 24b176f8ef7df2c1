//! Password hashing, verification, and the strength policy.
//!
//! Hashing derives a memory-hard digest under a fresh random salt and
//! returns a self-describing encoded string; verification recomputes the
//! digest with the embedded parameters and compares in constant time. A
//! malformed encoded string is an error, distinct from a mismatch, which
//! is simply a `false` result. The strength policy scores a password on
//! the five ordinal levels and rejects everything below the fixed floor.

use vstd::prelude::*;

use argon2::Argon2;
use argon2::password_hash::PasswordHasher;
use argon2::password_hash::PasswordVerifier;
use argon2::password_hash::phc::PasswordHash;

use crate::service::AuthService;

verus! {

/// The outcome of recomputing the digest of `password` against the
/// parameters, salt and digest embedded in `hash`: a match or mismatch,
/// or an error when `hash` is not a well-formed encoded string.
pub uninterp spec fn argon2_check(password: Seq<char>, hash: Seq<char>) -> Result<bool, ()>;

/// The least strength level the policy accepts; a fixed design constant,
/// not configuration.
pub const MIN_ACCEPTED_STRENGTH: u8 = 3;

/// The most bytes the hasher accepts as a password. A character encodes
/// to at most four bytes, so any input of at most a quarter of this many
/// characters is within the hasher's range.
pub const MAX_HASHER_INPUT_BYTES: u64 = 0xFFFFFFFF;

impl AuthService {
    /// Derives a salted one-way hash of the password and returns it as a
    /// self-describing encoded string; fails only on hasher failure, e.g.
    /// for want of entropy or an over-long input.
    ///
    /// Relies on `Argon2::hash_password` of the argon2 crate: the encoded
    /// string it produces embeds the algorithm, parameters and salt used,
    /// so that recomputation against the same password matches; and the
    /// string parses back as a supported hash, so checking any candidate
    /// password within the hasher's input range against it yields a match
    /// or a mismatch, never the malformed-hash error.
    #[verifier::external_body]
    pub fn hash_password(password: &str) -> (r: Result<String, String>)
        ensures
            match r {
                Ok(h) => argon2_check(password@, h@) == Ok::<bool, ()>(true)
                    && forall|x: Seq<char>|
                        4 * x.len() <= MAX_HASHER_INPUT_BYTES ==> (#[trigger] argon2_check(
                            x,
                            h@,
                        )) is Ok,
                Err(_) => true,
            },
    {
        Argon2::default()
            .hash_password(password.as_bytes())
            .map(|hash| hash.to_string())
            .map_err(|e| e.to_string())
    }

    /// Parses the encoded hash string and recomputes the digest of the
    /// password with the embedded parameters and salt.
    ///
    /// Relies on `PasswordHash::new` and `Argon2::verify_password` of the
    /// argon2 crate: parsing and recomputation are functions of the two
    /// arguments alone; a mismatch is reported as `PasswordInvalid`,
    /// distinct from the errors of a malformed or unsupported hash.
    #[verifier::external_body]
    fn argon2_verify(password: &str, hash: &str) -> (r: Result<bool, ()>)
        ensures
            r == argon2_check(password@, hash@),
    {
        match PasswordHash::new(hash) {
            Err(_) => Err(()),
            Ok(parsed) => match Argon2::default().verify_password(password.as_bytes(), &parsed) {
                Ok(()) => Ok(true),
                Err(argon2::password_hash::Error::PasswordInvalid) => Ok(false),
                Err(_) => Err(()),
            },
        }
    }

    /// Whether the password matches the encoded hash string: `Ok(true)`
    /// on a match, `Ok(false)` on a mismatch, and an error exactly when
    /// the encoded string is malformed or unsupported.
    pub fn verify_password(password: &str, hash: &str) -> (r: Result<bool, String>)
        ensures
            r matches Ok(b) ==> argon2_check(password@, hash@) == Ok::<bool, ()>(b),
            r is Err <==> argon2_check(password@, hash@) is Err,
            r matches Err(m) ==> m@ == "invalid password hash"@,
    {
        match Self::argon2_verify(password, hash) {
            Ok(b) => Ok(b),
            Err(_) => Err("invalid password hash".to_owned()),
        }
    }

    /// Scores the password with the strength estimator.
    ///
    /// Relies on `zxcvbn::zxcvbn` of the zxcvbn crate, which returns one
    /// of the five ordinal levels. The score is not a function of the
    /// password alone: the estimator rates date and year patterns by
    /// their distance from a reference year it reads from the clock, so
    /// nothing beyond the range is assumed of the outcome.
    #[verifier::external_body]
    fn zxcvbn_score(password: &str) -> (r: u8)
        ensures
            0 <= r <= 4,
    {
        u8::from(zxcvbn::zxcvbn(password, &[]).score())
    }

    /// Whether a strength level reaches the policy's fixed floor.
    pub fn strength_acceptable(score: u8) -> (r: bool)
        ensures
            r == (score >= MIN_ACCEPTED_STRENGTH),
    {
        score >= MIN_ACCEPTED_STRENGTH
    }

    /// Draws the estimator's strength level for the password and accepts
    /// exactly when it reaches the fixed floor. The level itself depends
    /// on the estimator's clock-derived reference year, so which passwords
    /// are accepted is not pinned here; whatever level comes back, a
    /// rejection carries exactly the fixed message.
    pub fn check_password_strength(password: &str) -> (r: Result<(), String>)
        ensures
            r matches Err(m) ==> m@ == "Password is too weak"@,
    {
        let score = Self::zxcvbn_score(password);
        if Self::strength_acceptable(score) {
            Ok(())
        } else {
            Err("Password is too weak".to_owned())
        }
    }
}

/// A hash string freshly produced for a password verifies against that
/// same password: `hash_password` promises `argon2_check(p, h) ==
/// Ok(true)` of every hash `h` it returns for `p`, and any verification
/// outcome for that pair — `verify_password` ties its result to exactly
/// `argon2_check(p, h)` — is then forced to be `Ok(true)`.
pub proof fn lemma_hash_round_trip(
    password: Seq<char>,
    hash: Seq<char>,
    verify_outcome: Result<bool, ()>,
)
    requires
        argon2_check(password, hash) == Ok::<bool, ()>(true),
        verify_outcome == argon2_check(password, hash),
    ensures
        verify_outcome == Ok::<bool, ()>(true),
{
}

} // verus!
