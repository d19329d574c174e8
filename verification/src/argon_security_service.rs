use vstd::prelude::*;

use crate::config::AppConfig;
use crate::errors::SpotitubeError;

verus! {

/// The encoded hash that the memory-hard primitive produces for a password
/// and a salt under the service's fixed cost configuration.
pub uninterp spec fn hash_of(password: Seq<char>, salt: Seq<char>) -> Seq<char>;

/// The outcome of checking a password against an encoded hash: Some(b) when
/// the encoded string is well formed and the check decides b, None when it is
/// not a well-formed encoded hash.
pub uninterp spec fn verify_of(encoded: Seq<char>, password: Seq<char>) -> Option<bool>;

/// Relies on argon2::hash_encoded of the rust-argon2 crate: under the default
/// configuration it succeeds whenever the salt is at least 8 bytes and both
/// inputs fit the primitive's 32-bit length limits, and the encoded result is
/// a function of the password and salt alone. argon2::verify_encoded of that
/// result against the same password decodes the parameters it carries,
/// recomputes the hash and reports a match.
#[verifier::external_body]
fn argon_hash_encoded(raw_password: &str, salt: &str) -> (r: Option<String>)
    requires
        8 <= salt@.len() <= 0x3FFF_FFFF,
        raw_password@.len() <= 0x3FFF_FFFF,
    ensures
        r is Some,
        r matches Some(h) ==> h@ == hash_of(raw_password@, salt@) && verify_of(h@, raw_password@)
            == Some(true),
{
    argon2::hash_encoded(raw_password.as_bytes(), salt.as_bytes(), &argon2::Config::default()).ok()
}

/// Relies on argon2::verify_encoded of the rust-argon2 crate: the outcome is
/// a function of the encoded string and the password alone, and it errs
/// exactly when the encoded string is not a well-formed encoded hash.
#[verifier::external_body]
fn argon_verify_encoded(stored: &str, attempted: &str) -> (r: Option<bool>)
    ensures
        r == verify_of(stored@, attempted@),
{
    argon2::verify_encoded(stored, attempted.as_bytes()).ok()
}

/// The credential hasher: one-way hashes and verifies passwords with a
/// memory-hard primitive under a fixed service-wide salt and cost
/// configuration.
pub struct ArgonSecurityService {
    pub config: AppConfig,
}

impl ArgonSecurityService {
    pub open spec fn wf(&self) -> bool {
        self.config.wf()
    }

    pub fn new(config: AppConfig) -> (r: Self)
        ensures
            r.config == config,
    {
        Self { config }
    }

    /// Hashes a raw password under the service-wide salt. Deterministic for a
    /// fixed configuration, and the result always verifies against the very
    /// password it was produced from.
    pub fn hash_password(&self, raw_password: &str) -> (r: Result<String, SpotitubeError>)
        requires
            self.wf(),
            raw_password@.len() <= 0x3FFF_FFFF,
        ensures
            r is Ok,
            r matches Ok(h) ==> h@ == hash_of(raw_password@, self.config.argon_salt@) && verify_of(
                h@,
                raw_password@,
            ) == Some(true),
    {
        match argon_hash_encoded(raw_password, self.config.argon_salt.as_str()) {
            Some(h) => Ok(h),
            None => Err(SpotitubeError::HashingFailure),
        }
    }

    /// Checks an attempted password against a stored encoded hash. Fails only
    /// when the stored string is not a well-formed hash of this component:
    /// corrupted storage, never user error.
    pub fn verify_password(&self, stored_password: &str, attempted_password: &str) -> (r: Result<
        bool,
        SpotitubeError,
    >)
        ensures
            r is Ok <==> verify_of(stored_password@, attempted_password@) is Some,
            r matches Ok(b) ==> verify_of(stored_password@, attempted_password@) == Some(b),
            r matches Err(e) ==> e is HashingFailure,
    {
        match argon_verify_encoded(stored_password, attempted_password) {
            Some(b) => Ok(b),
            None => Err(SpotitubeError::HashingFailure),
        }
    }
}

} // verus!
