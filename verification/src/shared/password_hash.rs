use vstd::prelude::*;

verus! {

/// Hashing of passwords and checking of a password against a stored hash.
pub trait PasswordHash {
    /// A hash of `password` to store in its place.
    fn hash_password(&self, password: &str) -> String;

    /// Whether `password` is the one that `hash` was made from.
    fn verify_password(&self, password: &str, hash: &str) -> bool;
}

} // verus!
