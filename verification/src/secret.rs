//! One-way hashing of user secrets and verification of a secret against a digest.

use vstd::prelude::*;
use crate::error::{
    hashing_failure, result_view, verification_failure, AppError, AppResult, ErrorModel,
};

verus! {

/// The work factor of every digest this service makes.
pub const HASH_COST: u32 = 12;

/// The error type of the `bcrypt` crate. Its contents are never read here.
#[verifier::external_type_specification]
#[verifier::external_body]
pub struct ExBcryptError(bcrypt::BcryptError);

/// What `bcrypt::verify` makes of a password and a digest: whether they match, or
/// `None` where the digest is malformed and the call returns an error.
pub uninterp spec fn bcrypt_verdict(password: Seq<char>, digest: Seq<char>) -> Option<bool>;

/// The character that stands for a decimal digit.
pub open spec fn decimal_digit(d: int) -> char {
    ('0' as int + d) as char
}

/// The frame of a digest made with the work factor `cost`: sixty characters that
/// begin with the scheme `$2b$`, the cost in two decimal digits and another `$`;
/// salt and hash follow.
pub open spec fn is_digest_of_cost(digest: Seq<char>, cost: u32) -> bool {
    &&& digest.len() == 60
    &&& digest[0] == '$'
    &&& digest[1] == '2'
    &&& digest[2] == 'b'
    &&& digest[3] == '$'
    &&& digest[4] == decimal_digit(cost as int / 10)
    &&& digest[5] == decimal_digit(cost as int % 10)
    &&& digest[6] == '$'
}

/// `digest` is one that hashing `password` may return: it has the frame of this
/// service's work factor, and verifying `password` against it says yes.
pub open spec fn is_hash_of(password: Seq<char>, digest: Seq<char>) -> bool {
    is_digest_of_cost(digest, HASH_COST) && bcrypt_verdict(password, digest) == Some(true)
}

/// What verifying `password` against `digest` returns.
pub open spec fn verification_result(password: Seq<char>, digest: Seq<char>) -> Result<
    bool,
    ErrorModel,
> {
    match bcrypt_verdict(password, digest) {
        Some(matches) => Ok(matches),
        None => Err(verification_failure()),
    }
}

/// Calls `bcrypt::hash`, which draws a fresh random salt and fails where the
/// random source fails or the cost is outside 4 to 31. A digest that comes back
/// is written as `$2b$`, the cost in two digits, `$`, 22 characters of salt and 31
/// of hash, and `bcrypt::verify` accepts the same password against it.
#[verifier::external_body]
fn bcrypt_hash(password: &str, cost: u32) -> (hashed: Result<String, bcrypt::BcryptError>)
    ensures
        hashed matches Ok(digest) ==> is_digest_of_cost(digest@, cost) && bcrypt_verdict(
            password@,
            digest@,
        ) == Some(true),
{
    bcrypt::hash(password, cost)
}

/// Calls `bcrypt::verify`, which recomputes the hash with the salt and cost that
/// the digest carries and compares in constant time. The answer depends on the two
/// texts alone; a malformed digest gives an error.
#[verifier::external_body]
fn bcrypt_verify(password: &str, digest: &str) -> (checked: Result<bool, bcrypt::BcryptError>)
    ensures
        checked matches Ok(matches) ==> bcrypt_verdict(password@, digest@) == Some(matches),
        checked is Err ==> bcrypt_verdict(password@, digest@) is None,
{
    bcrypt::verify(password, digest)
}

/// Turns the outcome of the hashing into the service's result: the digest as it
/// is, or the one internal error, which carries nothing of the secret.
pub fn hash_outcome(hashed: Result<String, bcrypt::BcryptError>) -> (out: AppResult<String>)
    ensures
        result_view(out) == match hashed {
            Ok(digest) => Ok::<Seq<char>, ErrorModel>(digest@),
            Err(_) => Err(hashing_failure()),
        },
{
    match hashed {
        Ok(digest) => Ok(digest),
        Err(_) => Err(AppError::hashing_failed()),
    }
}

/// Turns the outcome of a verification into the service's result: the answer as
/// it is, or the one internal error for a malformed digest.
pub fn verification_outcome(checked: Result<bool, bcrypt::BcryptError>) -> (out: AppResult<bool>)
    ensures
        result_view(out) == match checked {
            Ok(matches) => Ok::<bool, ErrorModel>(matches),
            Err(_) => Err(verification_failure()),
        },
{
    match checked {
        Ok(matches) => Ok(matches),
        Err(_) => Err(AppError::verification_failed()),
    }
}

/// Hashes a secret with a fresh random salt at the service's work factor. Two
/// calls on one secret give different digests. The work is slow on purpose: run it
/// where it holds up nothing else.
pub fn hash_password(password: &str) -> (out: AppResult<String>)
    ensures
        out matches Ok(digest) ==> is_hash_of(password@, digest@),
        out matches Err(e) ==> e@ == hashing_failure(),
{
    hash_outcome(bcrypt_hash(password, HASH_COST))
}

/// Verifies a secret against a digest. A well-formed digest that does not match
/// gives `Ok(false)`; only a malformed digest gives an error.
pub fn verify_password(password: &str, hash: &str) -> (out: AppResult<bool>)
    ensures
        result_view(out) == verification_result(password@, hash@),
{
    verification_outcome(bcrypt_verify(password, hash))
}

/// A digest that hashing a secret returned verifies that same secret.
pub proof fn lemma_hash_verifies(password: Seq<char>, digest: Seq<char>)
    requires
        is_hash_of(password, digest),
    ensures
        verification_result(password, digest) == Ok::<bool, ErrorModel>(true),
{
}

/// Two hashings of one secret may give two digests; each of them verifies the
/// secret, and both have the frame of the service's work factor.
pub proof fn lemma_every_digest_verifies(password: Seq<char>, first: Seq<char>, second: Seq<char>)
    requires
        is_hash_of(password, first),
        is_hash_of(password, second),
    ensures
        verification_result(password, first) == Ok::<bool, ErrorModel>(true),
        verification_result(password, second) == verification_result(password, first),
        first.len() == 60 && second.len() == 60,
        first.subrange(0, 7) == second.subrange(0, 7),
{
    assert(first.subrange(0, 7) =~= second.subrange(0, 7));
}

} // verus!
