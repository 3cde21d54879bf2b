//! One-way password hashing with Argon2 and a fresh salt per password.
use vstd::prelude::*;
use vstd::string::*;
use crate::api::errors::UserError;

verus! {

/// What checking `password` against the stored text `hash` yields: nothing
/// where `hash` is not a well-formed hash string, else whether the password
/// reproduces the stored digest under the parameters and salt that `hash`
/// records.
pub uninterp spec fn hash_check(password: Seq<char>, hash: Seq<char>) -> Option<bool>;

/// Calls `argon2::PasswordHash::new` on `hash` and, where that parses,
/// `Argon2::default().verify_password` on the password's bytes. The result
/// depends on the two texts alone.
#[verifier::external_body]
fn check_hash(password: &str, hash: &str) -> (checked: Option<bool>)
    ensures
        checked == hash_check(password@, hash@),
{
    match argon2::PasswordHash::new(hash) {
        Ok(parsed) => Some(
            argon2::PasswordVerifier::verify_password(
                &argon2::Argon2::default(),
                password.as_bytes(),
                &parsed,
            ).is_ok(),
        ),
        Err(_) => None,
    }
}

/// The number of random bytes in a salt.
pub const SALT_LENGTH: usize = 16;

/// The hash string of `password` under the salt bytes `salt` and the default
/// parameters, or nothing where hashing fails.
pub uninterp spec fn salted_hash(password: Seq<char>, salt: Seq<u8>) -> Option<Seq<char>>;

/// Calls `rand_core::RngCore::try_fill_bytes` on `rand_core::OsRng` with a
/// buffer of `argon2::password_hash::Salt::RECOMMENDED_LENGTH` bytes, which
/// are 16. Where the operating system gives no random bytes, nothing comes
/// back. Of the bytes only their number is claimed.
#[verifier::external_body]
fn draw_salt() -> (salt: Option<Vec<u8>>)
    ensures
        salt matches Some(bytes) ==> bytes@.len() == SALT_LENGTH,
{
    let mut bytes = [0u8; argon2::password_hash::Salt::RECOMMENDED_LENGTH];
    match rand_core::RngCore::try_fill_bytes(&mut rand_core::OsRng, &mut bytes) {
        Ok(()) => Some(bytes.to_vec()),
        Err(_) => None,
    }
}

/// Calls `argon2::password_hash::SaltString::encode_b64` on the salt bytes
/// and `Argon2::default().hash_password` on the password's bytes, and hands
/// out the hash string. The string depends on password and salt alone, and
/// it is one that the same password passes: checking recomputes the digest
/// under the parameters and the salt that the string records.
#[verifier::external_body]
fn hash_with_salt(password: &str, salt: &Vec<u8>) -> (hashed: Option<String>)
    requires
        salt@.len() == SALT_LENGTH,
    ensures
        match hashed {
            Some(h) => salted_hash(password@, salt@) == Some(h@) && hash_check(password@, h@)
                == Some(true),
            None => salted_hash(password@, salt@) is None,
        },
{
    let salt = match argon2::password_hash::SaltString::encode_b64(salt) {
        Ok(salt) => salt,
        Err(_) => return None,
    };
    match argon2::PasswordHasher::hash_password(
        &argon2::Argon2::default(),
        password.as_bytes(),
        &salt,
    ) {
        Ok(hash) => Some(hash.to_string()),
        Err(_) => None,
    }
}

/// Whether `password` is accepted for the stored text `hash`. A text that is
/// no hash string accepts nothing.
pub open spec fn accepts(hash: Seq<char>, password: Seq<char>) -> bool {
    hash_check(password, hash) == Some(true)
}

/// What `hash` may return for `password`: the hash string of the password
/// under some salt of `SALT_LENGTH` bytes, which accepts the password, or
/// the one error of the hasher.
pub open spec fn is_hash_outcome(password: Seq<char>, outcome: Result<String, UserError>) -> bool {
    match outcome {
        Ok(hash) => {
            &&& accepts(hash@, password)
            &&& exists|salt: Seq<u8>|
                salt.len() == SALT_LENGTH && #[trigger] salted_hash(password, salt) == Some(hash@)
        },
        Err(e) => e == UserError::HashPassword,
    }
}

/// Decides what the hasher's raw outcome means for the caller.
pub fn hash_outcome(hashed: Option<String>) -> (outcome: Result<String, UserError>)
    ensures
        outcome == match hashed {
            Some(h) => Ok::<String, UserError>(h),
            None => Err::<String, UserError>(UserError::HashPassword),
        },
{
    match hashed {
        Some(h) => Ok(h),
        None => Err(UserError::HashPassword),
    }
}

/// Hashes `password` under a fresh random salt. The string that comes back
/// records algorithm, parameters, salt and digest. Where the system gives
/// no random bytes, or hashing fails, the answer is `HashPassword`.
pub fn hash(password: &str) -> (outcome: Result<String, UserError>)
    ensures
        is_hash_outcome(password@, outcome),
{
    match draw_salt() {
        Some(salt) => {
            let hashed = hash_with_salt(password, &salt);
            proof {
                if hashed is Some {
                    assert(salted_hash(password@, salt@) == Some(hashed->Some_0@));
                }
            }
            hash_outcome(hashed)
        },
        None => Err(UserError::HashPassword),
    }
}

/// Checks `password` against a stored hash. A malformed hash is a failed
/// check, never an error.
pub fn verify(password: &str, hash: &str) -> (ok: bool)
    ensures
        ok == accepts(hash@, password@),
{
    match check_hash(password, hash) {
        Some(matched) => matched,
        None => false,
    }
}

/// A password passes the check against every hash that was made from it.
pub proof fn lemma_fresh_hash_accepts_its_password(password: Seq<char>, hash: String)
    requires
        is_hash_outcome(password, Ok(hash)),
    ensures
        accepts(hash@, password),
{
}

/// A text that is no hash string accepts no password.
pub proof fn lemma_malformed_hash_accepts_nothing(password: Seq<char>, hash: Seq<char>)
    requires
        hash_check(password, hash) is None,
    ensures
        !accepts(hash, password),
{
}

} // verus!
