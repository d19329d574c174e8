use vstd::prelude::*;

verus! {

/// Process-wide, read-once configuration: the symmetric token-signing secret
/// and the service-wide password-hashing salt. Both are loaded at process
/// start and never mutated afterwards.
pub struct AppConfig {
    pub token_secret: String,
    pub argon_salt: String,
}

impl AppConfig {
    /// The hashing primitive accepts a salt of 8 bytes or more; a character
    /// count of at least 8 guarantees that, and the upper bound keeps the
    /// byte length within the primitive's 32-bit limit.
    pub open spec fn wf(&self) -> bool {
        8 <= self.argon_salt@.len() <= 0x3FFF_FFFF
    }

    pub fn new(token_secret: String, argon_salt: String) -> (r: AppConfig)
        requires
            8 <= argon_salt@.len() <= 0x3FFF_FFFF,
        ensures
            r.wf(),
            r.token_secret == token_secret,
            r.argon_salt == argon_salt,
    {
        AppConfig { token_secret, argon_salt }
    }
}

impl Clone for AppConfig {
    fn clone(&self) -> (r: Self)
        ensures
            r == *self,
    {
        AppConfig { token_secret: self.token_secret.clone(), argon_salt: self.argon_salt.clone() }
    }
}

} // verus!
