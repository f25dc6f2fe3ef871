//! The credential value: a one-way hash artifact derived from a secret of at
//! least 8 characters. The plaintext is never stored; verification re-derives
//! from the parameters embedded in the artifact.
use vstd::prelude::*;
use vstd::string::*;

verus! {

/// Why a credential could not be derived.
#[derive(Debug, Clone, Copy, PartialEq, Eq)]
pub enum PasswordError {
    /// The secret has fewer than 8 characters.
    TooShort,
    /// The hashing backend reported a failure; not an input fault.
    DerivationFailed,
}

/// A derived hash artifact (algorithm id, parameters, salt and digest in one
/// encoded string).
#[derive(Debug, PartialEq, Eq, Hash)]
pub struct Password(String);

/// Whether argon2 verification of `candidate` against the stored `artifact`
/// succeeds. The artifact embeds algorithm, parameters and salt, so the
/// outcome depends on these two strings alone; a malformed artifact matches
/// no candidate.
pub uninterp spec fn verifies(artifact: Seq<char>, candidate: Seq<char>) -> bool;

/// Relies on argon2's `PasswordHasher::hash_password` with a freshly
/// generated salt: the returned PHC string embeds algorithm, parameters and
/// salt, and argon2's `PasswordVerifier::verify_password` re-derives from
/// exactly those, so the artifact verifies against the plaintext it was
/// derived from, whatever salt was drawn.
#[verifier::external_body]
fn derive_artifact(plain: &str) -> (r: Option<String>)
    ensures
        r matches Some(h) ==> verifies(h@, plain@),
{
    let salt = argon2::password_hash::SaltString::generate(&mut rand_core::OsRng);
    match argon2::PasswordHasher::hash_password(
        &argon2::Argon2::default(),
        plain.as_bytes(),
        &salt,
    ) {
        Ok(h) => Some(h.to_string()),
        Err(_) => None,
    }
}

/// Relies on argon2's `PasswordVerifier::verify_password`: it re-derives the
/// hash with the algorithm, parameters and salt parsed out of `artifact` and
/// compares in constant time, so the outcome is a function of the two
/// strings; an artifact that fails to parse reports no match rather than
/// panicking.
#[verifier::external_body]
fn check_candidate(artifact: &str, candidate: &str) -> (r: bool)
    ensures
        r == verifies(artifact@, candidate@),
{
    match argon2::password_hash::PasswordHash::new(artifact) {
        Ok(parsed) => argon2::PasswordVerifier::verify_password(
            &argon2::Argon2::default(),
            candidate.as_bytes(),
            &parsed,
        ).is_ok(),
        Err(_) => false,
    }
}

impl Clone for Password {
    fn clone(&self) -> (res: Password)
        ensures
            res == *self,
    {
        Password(self.0.clone())
    }
}

impl View for Password {
    type V = Seq<char>;

    closed spec fn view(&self) -> Seq<char> {
        self.0@
    }
}

impl Password {
    /// Derives a credential from a plaintext secret: rejects secrets of fewer
    /// than 8 characters, salts and hashes the rest. A successfully derived
    /// artifact verifies against the very secret it came from.
    pub fn from_plain(password: &str) -> (r: Result<Password, PasswordError>)
        ensures
            r matches Err(PasswordError::TooShort) <==> password@.len() < 8,
            r matches Ok(p) ==> verifies(p@, password@),
            r matches Err(PasswordError::DerivationFailed) ==> password@.len() >= 8,
    {
        if password.unicode_len() < 8 {
            return Err(PasswordError::TooShort);
        }
        match derive_artifact(password) {
            Some(h) => Ok(Password(h)),
            None => Err(PasswordError::DerivationFailed),
        }
    }

    /// Wraps an already-derived artifact without re-hashing; for
    /// reconstructing a stored record only.
    pub fn from_hash(hash: String) -> (r: Password)
        ensures
            r@ == hash@,
    {
        Password(hash)
    }

    /// The stored artifact.
    pub fn as_str(&self) -> (r: &str)
        ensures
            r@ == self@,
    {
        self.0.as_str()
    }

    /// Whether `password` matches this credential. Never panics: a malformed
    /// stored artifact reports a non-match.
    pub fn verify(&self, password: &str) -> (r: bool)
        ensures
            r == verifies(self@, password@),
    {
        check_candidate(self.0.as_str(), password)
    }
}

} // verus!
