//! Secrets given by users and their argon2 hashes.

use crate::error::{ApiError, ApiResult};
use argon2::{PasswordHasher, PasswordVerifier};
use vstd::prelude::*;

verus! {

/// A secret (the value of a basic-auth header) that protects a file.
#[derive(Debug)]
pub struct Secret(String);

/// The argon2 PHC string that a protected file stores in place of its secret.
#[derive(Debug)]
pub struct SecretHash(String);

impl View for Secret {
    type V = Seq<char>;

    closed spec fn view(&self) -> Seq<char> {
        self.0@
    }
}

impl View for SecretHash {
    type V = Seq<char>;

    closed spec fn view(&self) -> Seq<char> {
        self.0@
    }
}

/// Why checking a secret against a hash failed.
#[derive(Debug)]
pub enum VerifyError {
    /// The secret does not match the hash.
    Password,
    /// The hash could not be used (malformed PHC string, unsupported
    /// parameters, ...); the text describes the failure.
    Other(String),
}

/// What argon2 concludes when it checks `password` against the PHC string
/// `hash`: `Some(true)` when they match, `Some(false)` when it reports a wrong
/// password, `None` when it reports any other failure.
pub uninterp spec fn argon2_verdict(password: Seq<char>, hash: Seq<char>) -> Option<bool>;

/// Checks `password` against the PHC string `hash` with
/// `argon2::PasswordHash::new` and `Argon2::default().verify_password`.
/// Trusted: the outcome is what `argon2_verdict` names for these arguments;
/// the verifier recomputes the hash with the parameters and salt written in
/// `hash`, so it depends on the two arguments alone.
#[verifier::external_body]
fn argon2_verify(password: &str, hash: &str) -> (r: Result<(), VerifyError>)
    ensures
        match r {
            Ok(()) => argon2_verdict(password@, hash@) == Some(true),
            Err(VerifyError::Password) => argon2_verdict(password@, hash@) == Some(false),
            Err(VerifyError::Other(_)) => argon2_verdict(password@, hash@) is None,
        },
{
    let parsed = match argon2::PasswordHash::new(hash) {
        Ok(parsed) => parsed,
        Err(e) => return Err(VerifyError::Other(e.to_string())),
    };
    match argon2::Argon2::default().verify_password(password.as_bytes(), &parsed) {
        Ok(()) => Ok(()),
        Err(argon2::password_hash::Error::Password) => Err(VerifyError::Password),
        Err(e) => Err(VerifyError::Other(e.to_string())),
    }
}

/// Whether argon2 can hash a password: its UTF-8 form has at most
/// `argon2::MAX_PWD_LEN` (2^32 - 1) bytes.
pub open spec fn hashable(password: Seq<char>) -> bool {
    vstd::utf8::encode_utf8(password).len() <= 0xFFFF_FFFF
}

/// Hashes `password` with `Argon2::default().hash_password` and a fresh salt
/// from `SaltString::generate(OsRng)`, returning the PHC string.
/// Trusted: the salt is random, so nothing is claimed of which string comes
/// back beyond the fact that argon2 accepts `password` against it (the
/// verifier recomputes the hash with the same parameters and salt).  With the
/// default parameters and a generated salt (16 bytes), argon2's source fails
/// only on a password longer than `MAX_PWD_LEN` bytes, with
/// `password_hash::Error::Password`, whose text is "invalid password".
#[verifier::external_body]
fn argon2_hash(password: &str) -> (r: Result<String, String>)
    ensures
        r is Ok <==> hashable(password@),
        r matches Ok(h) ==> argon2_verdict(password@, h@) == Some(true),
        r matches Err(e) ==> e@ == "invalid password"@,
{
    let salt = argon2::password_hash::SaltString::generate(&mut rand::rngs::OsRng);
    match argon2::Argon2::default().hash_password(password.as_bytes(), &salt) {
        Ok(h) => Ok(h.to_string()),
        Err(e) => Err(e.to_string()),
    }
}

impl Secret {
    /// Wraps a secret.
    pub fn new(secret: String) -> (r: Secret)
        ensures
            r@ == secret@,
    {
        Secret(secret)
    }

    /// The secret's text.
    pub fn as_str(&self) -> (r: &str)
        ensures
            r@ == self@,
    {
        self.0.as_str()
    }

    /// A copy of the secret.
    pub fn duplicate(&self) -> (r: Secret)
        ensures
            r@ == self@,
    {
        Secret(self.0.clone())
    }

    /// Checks the secret against a stored hash.
    pub fn verify(&self, hash: &SecretHash) -> (r: Result<(), VerifyError>)
        ensures
            match r {
                Ok(()) => argon2_verdict(self@, hash@) == Some(true),
                Err(VerifyError::Password) => argon2_verdict(self@, hash@) == Some(false),
                Err(VerifyError::Other(_)) => argon2_verdict(self@, hash@) is None,
            },
    {
        argon2_verify(self.0.as_str(), hash.0.as_str())
    }

    /// Hashes the secret for storage with a fresh random salt.  Hashing
    /// succeeds exactly when argon2 can take the secret (at most 2^32 - 1 bytes
    /// of UTF-8); a hash that comes back accepts the secret; the failure is a
    /// `HashError` carrying argon2's description, "invalid password".
    pub fn hash(&self) -> (r: ApiResult<SecretHash>)
        ensures
            r is Ok <==> hashable(self@),
            r matches Ok(h) ==> argon2_verdict(self@, h@) == Some(true),
            r matches Err(e) ==> e matches ApiError::HashError(m) && m@ == "invalid password"@,
    {
        match argon2_hash(self.0.as_str()) {
            Ok(h) => Ok(SecretHash(h)),
            Err(e) => Err(ApiError::HashError(e)),
        }
    }
}

impl SecretHash {
    /// Wraps a stored PHC string.
    pub fn new(hash: String) -> (r: SecretHash)
        ensures
            r@ == hash@,
    {
        SecretHash(hash)
    }

    /// The PHC string.
    pub fn as_str(&self) -> (r: &str)
        ensures
            r@ == self@,
    {
        self.0.as_str()
    }

    /// Whether two hashes are the same string.
    pub fn same(&self, other: &SecretHash) -> (r: bool)
        ensures
            r == (self@ == other@),
    {
        self.0 == other.0
    }

    /// A copy of the hash.
    pub fn duplicate(&self) -> (r: SecretHash)
        ensures
            r@ == self@,
    {
        SecretHash(self.0.clone())
    }
}

} // verus!
