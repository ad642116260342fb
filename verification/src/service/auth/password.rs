use vstd::prelude::*;

verus! {

/// What `bcrypt::verify(password, hash)` answers: `Some(b)` for `Ok(b)`, `None`
/// where the hash cannot be read.
pub uninterp spec fn bcrypt_verify(password: Seq<char>, hash: Seq<char>) -> Option<bool>;

/// Calls `bcrypt::verify(password, hash)`.
/// Trusted: the answer is `bcrypt_verify(password@, hash@)`.
#[verifier::external_body]
fn bcrypt_verify_call(password: &str, hash: &str) -> (r: Option<bool>)
    ensures
        r == bcrypt_verify(password@, hash@),
{
    bcrypt::verify(password, hash).ok()
}

/// The text of a bcrypt hash made at the default cost: sixty characters that
/// begin `$2b$12$` (the version, the cost, then 22 characters of salt and 31 of
/// hash).
pub open spec fn bcrypt_hash_shape(h: Seq<char>) -> bool {
    &&& h.len() == 60
    &&& h.subrange(0, 7) == seq!['$', '2', 'b', '$', '1', '2', '$']
}

/// What a hash outcome of `password` can be: none, where hashing failed, or a
/// default-cost bcrypt hash that verifies `password`.
pub open spec fn hash_outcome(password: Seq<char>, hashed: Option<String>) -> bool {
    hashed matches Some(h) ==> bcrypt_verify(password, h@) == Some(true) && bcrypt_hash_shape(h@)
}

/// Calls `bcrypt::hash(password, bcrypt::DEFAULT_COST)` (a fresh random salt).
/// Trusted: a hash it gives verifies `password` (`bcrypt::verify` recomputes
/// the hash with the salt and cost that the hash text holds), and is written
/// `$2b$12$` followed by the 22 base64 characters of the 16-byte salt and the
/// 31 of the 23-byte hash (`HashParts::format`). `None` is the case where the
/// system's randomness fails.
#[verifier::external_body]
fn bcrypt_hash_call(password: &str) -> (r: Option<String>)
    ensures
        hash_outcome(password@, r),
{
    bcrypt::hash(password, bcrypt::DEFAULT_COST).ok()
}

/// Checks `password` against the stored bcrypt `hash`.
pub fn password_matches(password: &String, hash: &String) -> (r: Option<bool>)
    ensures
        r == bcrypt_verify(password@, hash@),
{
    bcrypt_verify_call(password.as_str(), hash.as_str())
}

/// Hashes `password` with bcrypt at the default cost; the hash, where it is
/// made, verifies `password` and has the shape of a bcrypt hash, so it differs
/// from any password that does not.
pub fn hash_password(password: &String) -> (r: Option<String>)
    ensures
        hash_outcome(password@, r),
        !bcrypt_hash_shape(password@) ==> (r matches Some(h) ==> h@ != password@),
{
    bcrypt_hash_call(password.as_str())
}

} // verus!
