use vstd::prelude::*;
use crate::shared::password_hash::PasswordHash;

verus! {

broadcast use vstd::string::group_string_axioms;

#[verifier::external_type_specification]
#[verifier::external_body]
pub struct ExBcryptError(::bcrypt::BcryptError);

/// What `bcrypt::verify` gives for a password and a hash: `Some(b)` when it
/// returns `Ok(b)`, `None` when it returns an error.
pub uninterp spec fn bcrypt_verify_outcome(password: Seq<char>, hash: Seq<char>) -> Option<bool>;

/// The digit that stands for `d`, which is below ten.
pub open spec fn digit(d: int) -> char {
    ('0' as int + d) as char
}

/// The shape of a bcrypt hash of version `2b` made at `cost`: `$2b$`, the cost
/// in two digits, `$`, then 53 characters of salt and hash.
pub open spec fn is_bcrypt_hash(hash: Seq<char>, cost: int) -> bool {
    &&& hash.len() == 60
    &&& hash[0] == '$' && hash[1] == '2' && hash[2] == 'b' && hash[3] == '$'
    &&& hash[4] == digit(cost / 10) && hash[5] == digit(cost % 10)
    &&& hash[6] == '$'
}

/// Every character is ASCII.
pub open spec fn is_ascii_chars(s: Seq<char>) -> bool {
    forall|i: int| 0 <= i < s.len() ==> (#[trigger] s[i] as u32) < 128
}

/// Calls `bcrypt::hash`, which salts with fresh OS randomness, so that two
/// calls on one password give different hashes. The crate's source shows that
/// a cost outside 4 to 31 is refused, that a hash made is 60 characters in the
/// `$2b$` format with the cost in two digits, and that `bcrypt::verify`
/// accepts the password against it. The salt and the digest are not stated.
#[verifier::external_body]
fn bcrypt_hash(password: &str, cost: u32) -> (r: Result<String, ::bcrypt::BcryptError>)
    ensures
        (cost < 4 || cost > 31) ==> r is Err,
        r matches Ok(h) ==> is_bcrypt_hash(h@, cost as int)
            && bcrypt_verify_outcome(password@, h@) == Some(true),
{
    ::bcrypt::hash(password, cost)
}

/// Calls `bcrypt::verify`, whose outcome is named `bcrypt_verify_outcome`.
/// The crate's source shows that a hash that is not 60 ASCII characters is
/// refused with an error.
#[verifier::external_body]
fn bcrypt_verify(password: &str, hash: &str) -> (r: Result<bool, ::bcrypt::BcryptError>)
    ensures
        match r {
            Ok(b) => bcrypt_verify_outcome(password@, hash@) == Some(b),
            Err(_) => bcrypt_verify_outcome(password@, hash@) is None,
        },
        !(hash@.len() == 60 && is_ascii_chars(hash@)) ==> r is Err,
{
    ::bcrypt::verify(password, hash)
}

/// Password hashing with bcrypt at cost 10.
pub struct BcryptPasswordHash;

/// What `hash_password` may give for `password`: nothing, when hashing
/// failed, or a bcrypt hash at cost 10 that the password verifies against.
pub open spec fn is_hash_of(password: Seq<char>, hash: Seq<char>) -> bool {
    hash.len() == 0 || (is_bcrypt_hash(hash, 10) && bcrypt_verify_outcome(password, hash) == Some(true))
}

/// Whether `verify_password` accepts `password` against `hash`.
pub open spec fn verifies(password: Seq<char>, hash: Seq<char>) -> bool {
    bcrypt_verify_outcome(password, hash) == Some(true)
}

/// The hash to store once hashing has run: the hash made, or an empty text
/// when hashing failed.
pub fn stored_hash(outcome: Result<String, ::bcrypt::BcryptError>) -> (r: String)
    ensures
        outcome matches Ok(h) ==> r == h,
        outcome is Err ==> r@.len() == 0,
{
    match outcome {
        Ok(h) => h,
        Err(_) => String::new(),
    }
}

/// Whether a password matched once verification has run: only a successful
/// verification that found a match counts.
pub fn verification_result(outcome: Result<bool, ::bcrypt::BcryptError>) -> (r: bool)
    ensures
        r <==> outcome == Ok::<bool, ::bcrypt::BcryptError>(true),
{
    match outcome {
        Ok(b) => b,
        Err(_) => false,
    }
}

impl PasswordHash for BcryptPasswordHash {
    /// A bcrypt hash of `password` at cost 10, or an empty text when hashing
    /// fails; at this cost `bcrypt::hash` fails only when the OS random source
    /// that salts it fails.
    fn hash_password(&self, password: &str) -> (r: String)
        ensures
            is_hash_of(password@, r@),
    {
        stored_hash(bcrypt_hash(password, 10))
    }

    /// Whether `password` matches `hash`; a malformed hash matches nothing.
    fn verify_password(&self, password: &str, hash: &str) -> (r: bool)
        ensures
            r == verifies(password@, hash@),
            !(hash@.len() == 60 && is_ascii_chars(hash@)) ==> !r,
    {
        verification_result(bcrypt_verify(password, hash))
    }
}

/// A password verifies against every non-empty hash that `hash_password`
/// makes of it.
pub proof fn password_verifies_against_its_hash(password: Seq<char>, hash: Seq<char>)
    requires
        is_hash_of(password, hash),
        hash.len() > 0,
    ensures
        verifies(password, hash),
{
}

} // verus!
