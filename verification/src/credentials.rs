//! Password hashing and session tokens.
//!
//! Both are the work of outside crates. What the library relies on is stated
//! here and nowhere else.

use vstd::prelude::*;

verus! {

/// `bcrypt::BcryptError`, the reason a hash could not be made or read.
/// Never inspected.
#[verifier::external_type_specification]
#[verifier::external_body]
pub struct ExBcryptError(bcrypt::BcryptError);

/// What `bcrypt::verify` says of a password and a stored hash: whether the
/// hash was made from the password, or `None` where the hash cannot be read.
pub uninterp spec fn bcrypt_verdict(password: Seq<char>, hash: Seq<char>) -> Option<bool>;

/// `bcrypt::hash` at the crate's default cost. Trusted: a hash that it
/// returns is one that `bcrypt::verify` accepts for the same password. The
/// salt is random, so nothing else is said of the hash. It fails where the
/// system gives no random bytes.
#[verifier::external_body]
fn bcrypt_hash(password: &str) -> (r: Result<String, bcrypt::BcryptError>)
    ensures
        r matches Ok(hash) ==> bcrypt_verdict(password@, hash@) == Some(true),
{
    bcrypt::hash(password, bcrypt::DEFAULT_COST)
}

/// `bcrypt::verify`. Trusted: its answer depends on the password and the
/// hash alone.
#[verifier::external_body]
fn bcrypt_verify(password: &str, hash: &str) -> (r: Result<bool, bcrypt::BcryptError>)
    ensures
        match r {
            Ok(accepted) => bcrypt_verdict(password@, hash@) == Some(accepted),
            Err(_) => bcrypt_verdict(password@, hash@) is None,
        },
{
    bcrypt::verify(password, hash)
}

/// The length of a session token.
pub const TOKEN_LENGTH: usize = 36;

/// `uuid::Uuid::new_v4`, written out as text. Trusted: the text is the
/// hyphenated form, 36 characters long. The value is random.
#[verifier::external_body]
pub(crate) fn uuid_text() -> (token: String)
    ensures
        token@.len() == TOKEN_LENGTH,
{
    uuid::Uuid::new_v4().to_string()
}

/// Whether `hash` is a credential for `password`.
pub open spec fn accepts(password: Seq<char>, hash: Seq<char>) -> bool {
    bcrypt_verdict(password, hash) == Some(true)
}

/// Hashes a password for storage. `None` where no hash could be made.
pub fn hash_password(password: &str) -> (r: Option<String>)
    ensures
        r matches Some(hash) ==> accepts(password@, hash@),
{
    match bcrypt_hash(password) {
        Ok(hash) => Some(hash),
        Err(_) => None,
    }
}

/// Checks a password against a stored hash. A hash that cannot be read
/// accepts nothing.
pub fn password_matches(password: &str, hash: &str) -> (b: bool)
    ensures
        b == accepts(password@, hash@),
{
    match bcrypt_verify(password, hash) {
        Ok(accepted) => accepted,
        Err(_) => false,
    }
}

} // verus!
