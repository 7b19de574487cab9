//! Passwords: making one up, hashing it, and checking it against a stored
//! hash.

use vstd::prelude::*;

verus! {

/// Why a password could not be hashed or checked.
#[derive(Debug, Clone, Copy, PartialEq, Eq, Structural)]
pub enum PasswordError {
    /// Hashing failed.
    HashFailed,
    /// The stored hash is not a PHC string.
    InvalidHashFormat,
    /// The password could not be compared with the hash.
    VerifyError,
}

impl PasswordError {
    /// The text of the failure.
    pub open spec fn message_spec(&self) -> Seq<char> {
        match *self {
            PasswordError::HashFailed => "password hashing failed"@,
            PasswordError::InvalidHashFormat => "invalid password hash format"@,
            PasswordError::VerifyError => "password verification error"@,
        }
    }

    /// The text of the failure.
    pub fn to_string(&self) -> (text: String)
        ensures
            text@ == self.message_spec(),
    {
        match self {
            PasswordError::HashFailed => String::from_str("password hashing failed"),
            PasswordError::InvalidHashFormat => String::from_str("invalid password hash format"),
            PasswordError::VerifyError => String::from_str("password verification error"),
        }
    }
}

/// What checking a password against a stored hash comes to.
#[derive(Debug, Clone, Copy, PartialEq, Eq, Structural)]
pub enum Verification {
    /// The password is the one that was hashed.
    Verified,
    /// The password is another one.
    Mismatch,
    /// The stored hash is not a PHC string.
    Malformed,
    /// The hash names an algorithm, a version or parameters that cannot be
    /// used.
    Unusable,
}

/// Memory cost of a hash, in KiB: 19 MiB.
pub const ARGON2_MEMORY_KIB: u32 = 19_456;

/// Number of passes of a hash.
pub const ARGON2_ITERATIONS: u32 = 2;

/// Number of lanes of a hash.
pub const ARGON2_LANES: u32 = 1;

/// What Argon2 makes of `plain` and the stored PHC string `stored_phc`.
pub uninterp spec fn argon2_verification(plain: Seq<u8>, stored_phc: Seq<char>) -> Verification;

/// Whether Argon2 accepts the three costs: at least one pass, between 1 and
/// 2^24 - 1 lanes, and at least 8 KiB of memory for each lane.
pub open spec fn argon2_costs_valid(memory_kib: u32, iterations: u32, lanes: u32) -> bool {
    &&& 1 <= iterations
    &&& 1 <= lanes <= 0xFF_FFFF
    &&& 8 * lanes <= memory_kib
}

/// Calls `PasswordHash::new` on the stored hash and, with an Argon2id
/// context of version 0x13 and the given costs, `verify_password`. The
/// contract names the result: verification recomputes the hash from the
/// password and from the salt and parameters that the stored hash itself
/// carries, so the same two inputs always give the same verdict.
#[verifier::external_body]
fn argon2_verify(
    plain: &[u8],
    stored_phc: &str,
    memory_kib: u32,
    iterations: u32,
    lanes: u32,
) -> (v:
    Verification)
    requires
        argon2_costs_valid(memory_kib, iterations, lanes),
    ensures
        v == argon2_verification(plain@, stored_phc@),
{
    let parsed = match argon2::password_hash::PasswordHash::new(stored_phc) {
        Ok(parsed) => parsed,
        Err(_) => return Verification::Malformed,
    };
    let params = argon2::Params::new(memory_kib, iterations, lanes, None).expect("valid costs");
    let a2 = argon2::Argon2::new(argon2::Algorithm::Argon2id, argon2::Version::V0x13, params);
    match argon2::password_hash::PasswordVerifier::verify_password(&a2, plain, &parsed) {
        Ok(_) => Verification::Verified,
        Err(argon2::password_hash::Error::Password) => Verification::Mismatch,
        Err(_) => Verification::Unusable,
    }
}

/// Calls `SaltString::generate` with the operating system's random source
/// and, with an Argon2id context of version 0x13 and the given costs,
/// `hash_password`. The salt is random, so nothing is claimed of the text
/// but this: checking the same password against it succeeds. Where the
/// operating system has no random bytes to give, `SaltString::generate`
/// panics: no argument of this function brings that about or keeps it off.
#[verifier::external_body]
fn argon2_hash(plain: &[u8], memory_kib: u32, iterations: u32, lanes: u32) -> (r: Option<String>)
    requires
        argon2_costs_valid(memory_kib, iterations, lanes),
    ensures
        r matches Some(phc) ==> argon2_verification(plain@, phc@) == Verification::Verified,
{
    let salt = argon2::password_hash::SaltString::generate(&mut rand::rngs::OsRng);
    let params = argon2::Params::new(memory_kib, iterations, lanes, None).expect("valid costs");
    let a2 = argon2::Argon2::new(argon2::Algorithm::Argon2id, argon2::Version::V0x13, params);
    match argon2::password_hash::PasswordHasher::hash_password(&a2, plain, &salt) {
        Ok(phc) => Some(phc.to_string()),
        Err(_) => None,
    }
}

/// Calls `Rng::gen_range` on the operating system's random source. Of the
/// number only its range is known. Where the operating system has no random
/// bytes to give, `gen_range` panics: no argument of this function brings
/// that about or keeps it off.
#[verifier::external_body]
fn random_below(bound: usize) -> (n: usize)
    requires
        bound > 0,
    ensures
        n < bound,
{
    rand::Rng::gen_range(&mut rand::rngs::OsRng, 0..bound)
}

/// The characters a generated password is made of: the Latin letters, the
/// digits, and twenty-six symbols.
pub fn password_charset() -> (charset: &'static str)
    ensures
        charset@.len() == 88,
        charset@
            == "ABCDEFGHIJKLMNOPQRSTUVWXYZabcdefghijklmnopqrstuvwxyz0123456789!@#$%^&*()_+-=[]{}|;:,.<>?"@,
{
    proof {
        reveal_strlit(
            "ABCDEFGHIJKLMNOPQRSTUVWXYZabcdefghijklmnopqrstuvwxyz0123456789!@#$%^&*()_+-=[]{}|;:,.<>?",
        );
    }
    "ABCDEFGHIJKLMNOPQRSTUVWXYZabcdefghijklmnopqrstuvwxyz0123456789!@#$%^&*()_+-=[]{}|;:,.<>?"
}

/// Whether `password` has `len` characters, all of them from
/// [`password_charset`].
pub open spec fn is_generated_password(password: Seq<char>, len: nat) -> bool {
    &&& password.len() == len
    &&& forall|i: int|
        0 <= i < len ==> #[trigger] "ABCDEFGHIJKLMNOPQRSTUVWXYZabcdefghijklmnopqrstuvwxyz0123456789!@#$%^&*()_+-=[]{}|;:,.<>?"@.contains(
            password[i],
        )
}

/// Makes up a password of `len` characters, each drawn at random from
/// [`password_charset`].
pub fn generate_password(len: usize) -> (password: String)
    ensures
        is_generated_password(password@, len as nat),
{
    let charset = password_charset();
    let mut password = String::new();
    let mut i: usize = 0;
    while i < len
        invariant
            i <= len,
            charset@.len() == 88,
            charset@
                == "ABCDEFGHIJKLMNOPQRSTUVWXYZabcdefghijklmnopqrstuvwxyz0123456789!@#$%^&*()_+-=[]{}|;:,.<>?"@,
            password@.len() == i,
            forall|j: int| 0 <= j < i ==> #[trigger] charset@.contains(password@[j]),
        decreases len - i,
    {
        let pick = random_below(88);
        let ghost before = password@;
        password.append(charset.substring_char(pick, pick + 1));
        proof {
            assert(password@ =~= before.push(charset@[pick as int]));
            assert(charset@.contains(charset@[pick as int]));
        }
        i += 1;
    }
    password
}

/// Hashes a plain password into a PHC string with a fresh random salt.
pub fn hash_password(plain: &[u8]) -> (r: Result<String, PasswordError>)
    ensures
        r matches Ok(phc) ==> argon2_verification(plain@, phc@) == Verification::Verified,
        r matches Err(e) ==> e == PasswordError::HashFailed,
{
    match argon2_hash(plain, ARGON2_MEMORY_KIB, ARGON2_ITERATIONS, ARGON2_LANES) {
        Some(phc) => Ok(phc),
        None => Err(PasswordError::HashFailed),
    }
}

/// What [`verify_password`] makes of a verdict.
pub open spec fn verdict(verification: Verification) -> Result<bool, PasswordError> {
    match verification {
        Verification::Verified => Ok(true),
        Verification::Mismatch => Ok(false),
        Verification::Malformed => Err(PasswordError::InvalidHashFormat),
        Verification::Unusable => Err(PasswordError::VerifyError),
    }
}

/// Tells what a verdict means: a mismatch is an answer, not a failure.
pub fn judge(verification: Verification) -> (r: Result<bool, PasswordError>)
    ensures
        r == verdict(verification),
{
    match verification {
        Verification::Verified => Ok(true),
        Verification::Mismatch => Ok(false),
        Verification::Malformed => Err(PasswordError::InvalidHashFormat),
        Verification::Unusable => Err(PasswordError::VerifyError),
    }
}

/// Checks a plain password against a stored PHC string.
pub fn verify_password(plain: &[u8], stored_phc: &str) -> (r: Result<bool, PasswordError>)
    ensures
        r == verdict(argon2_verification(plain@, stored_phc@)),
{
    judge(argon2_verify(plain, stored_phc, ARGON2_MEMORY_KIB, ARGON2_ITERATIONS, ARGON2_LANES))
}

} // verus!
