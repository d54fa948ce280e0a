use vstd::prelude::*;

verus! {

#[verifier::external_type_specification]
#[verifier::external_body]
pub struct ExBcryptError(bcrypt::BcryptError);

/// What `bcrypt::verify` answers for a password and a stored hash: `Some(ok)` when the
/// hash can be read, `None` when bcrypt refuses it.
pub uninterp spec fn bcrypt_check(password: Seq<char>, hash: Seq<char>) -> Option<bool>;

/// The form of a hash bcrypt writes at the default cost: `$2b$12$`, then 22 characters of
/// salt and 31 of hash, 60 in all.
pub open spec fn is_bcrypt_text(h: Seq<char>) -> bool {
    h.len() == 60 && h.subrange(0, 7) == "$2b$12$"@
}

/// `bcrypt::hash` with `DEFAULT_COST`. The salt is random, so the hash is not fixed; what
/// holds of every hash it hands back is that `bcrypt::verify` accepts the same password
/// against it (the hash carries its cost and salt, and verifying re-hashes the password
/// with them), and its form: version `2b`, cost `12`, the 16-byte salt and 23-byte hash in
/// bcrypt's base64 (22 and 31 characters).
#[verifier::external_body]
pub(crate) fn hash_password(password: &str) -> (r: Result<String, bcrypt::BcryptError>)
    ensures
        r matches Ok(h) ==> bcrypt_check(password@, h@) == Some(true),
        r matches Ok(h) ==> is_bcrypt_text(h@),
{
    bcrypt::hash(password, bcrypt::DEFAULT_COST)
}

/// `bcrypt::verify`: whether `password` hashes to `hash` under the cost and salt it carries.
#[verifier::external_body]
pub(crate) fn verify_password(password: &str, hash: &str) -> (r: Result<bool, bcrypt::BcryptError>)
    ensures
        match r {
            Ok(b) => bcrypt_check(password@, hash@) == Some(b),
            Err(_) => bcrypt_check(password@, hash@) is None,
        },
{
    bcrypt::verify(password, hash)
}

/// Whether a login with `password` is accepted against the stored `hash`: bcrypt must
/// read the hash and match the password; a hash it cannot read counts as a mismatch.
pub open spec fn password_accepted(password: Seq<char>, hash: Seq<char>) -> bool {
    bcrypt_check(password, hash) == Some(true)
}

/// Whether `password` is accepted against `hash`.
pub fn password_matches(password: &str, hash: &str) -> (r: bool)
    ensures
        r == password_accepted(password@, hash@),
{
    match verify_password(password, hash) {
        Ok(b) => b,
        Err(_) => false,
    }
}

} // verus!
