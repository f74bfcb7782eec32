use vstd::prelude::*;
use scrypt::password_hash::rand_core::OsRng;
use scrypt::password_hash::{PasswordHash, PasswordHasher, PasswordVerifier, SaltString};
use scrypt::Scrypt;
use crate::text::{owned, str_eq};

verus! {

/// Whether scrypt accepts `password` against the PHC-format hash string
/// `hash` (false when the string does not parse).
pub uninterp spec fn scrypt_verifies(password: Seq<char>, hash: Seq<char>) -> bool;

/// Relies on `Scrypt::hash_password` with a salt drawn from `OsRng`: the PHC
/// string it returns verifies against the same password, since verification
/// recomputes the hash with the salt and parameters held in the string.
#[verifier::external_body]
fn scrypt_hash(password: &str) -> (r: String)
    ensures
        scrypt_verifies(password@, r@),
{
    let salt = SaltString::generate(&mut OsRng);
    Scrypt.hash_password(password.as_bytes(), &salt).unwrap().to_string()
}

/// Relies on `PasswordHash::new` and `Scrypt::verify_password`; a hash string
/// that does not parse is rejected.
#[verifier::external_body]
fn scrypt_verify(password: &str, hash: &str) -> (r: bool)
    ensures
        r == scrypt_verifies(password@, hash@),
{
    match PasswordHash::new(hash) {
        Ok(parsed) => Scrypt.verify_password(password.as_bytes(), &parsed).is_ok(),
        Err(_) => false,
    }
}

/// A way to store passwords and check them later.
pub trait HashingAlgorithm {
    /// `hash` is accepted for `hashable`.
    spec fn verifies(hashable: Seq<char>, hash: Seq<char>) -> bool;

    fn get_hash(hashable: &str) -> (r: String)
        ensures
            Self::verifies(hashable@, r@);

    fn verify_hash(hashable: &str, hash: &str) -> (r: bool)
        ensures
            r == Self::verifies(hashable@, hash@);
}

/// Salted scrypt hashes in PHC string format.
pub struct ScryptHashing {}

impl HashingAlgorithm for ScryptHashing {
    open spec fn verifies(hashable: Seq<char>, hash: Seq<char>) -> bool {
        scrypt_verifies(hashable, hash)
    }

    fn get_hash(hashable: &str) -> (r: String) {
        scrypt_hash(hashable)
    }

    fn verify_hash(hashable: &str, hash: &str) -> (r: bool) {
        scrypt_verify(hashable, hash)
    }
}

/// Stores the text itself; for tests, where scrypt is slow.
pub struct NonHashing {}

impl HashingAlgorithm for NonHashing {
    open spec fn verifies(hashable: Seq<char>, hash: Seq<char>) -> bool {
        hashable == hash
    }

    fn get_hash(hashable: &str) -> (r: String) {
        owned(hashable)
    }

    fn verify_hash(hashable: &str, hash: &str) -> (r: bool) {
        str_eq(hashable, hash)
    }
}

} // verus!
