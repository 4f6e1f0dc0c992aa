//! Salted one-way hashing of passwords, and the check of a password against
//! a stored hash. The hashing itself is bcrypt's.

use crate::error::AppError;
use crate::text::digit;
use vstd::prelude::*;

verus! {

/// The error of the bcrypt functions, carried through unread.
#[verifier::external_type_specification]
#[verifier::external_body]
pub struct ExBcryptError(helpers::hash::BcryptError);

/// What bcrypt's `verify` answers for a password and a hash string: whether
/// they match, or nothing where it reports an error (a hash string that it
/// cannot read, or a cost that it does not allow).
pub uninterp spec fn bcrypt_verdict(password: Seq<char>, hash: Seq<char>) -> Option<bool>;

/// Whether `hash` is a hash of `password`.
pub open spec fn password_matches(password: Seq<char>, hash: Seq<char>) -> bool {
    bcrypt_verdict(password, hash) == Some(true)
}

/// The least cost that bcrypt accepts.
pub const MIN_COST: u32 = 4;

/// The greatest cost that bcrypt accepts.
pub const MAX_COST: u32 = 31;

/// The version tag written at the head of a hash string.
#[derive(Debug, Clone, Copy, PartialEq, Eq, Structural)]
pub enum HashVersion {
    TwoA,
    TwoX,
    TwoY,
    TwoB,
}

impl HashVersion {
    /// The letter that stands for the version in a hash string.
    pub open spec fn letter(self) -> char {
        match self {
            HashVersion::TwoA => 'a',
            HashVersion::TwoX => 'x',
            HashVersion::TwoY => 'y',
            HashVersion::TwoB => 'b',
        }
    }
}

/// The cost at which `hash_default` hashes.
pub const DEFAULT_COST: u32 = 12;

/// The head of a hash string made with `version` at `cost`: the version
/// tag and the cost in two digits, each behind a `$` and with a `$` at the
/// end.
pub open spec fn hash_head(version: HashVersion, cost: u32) -> Seq<char> {
    seq!['$', '2', version.letter(), '$', digit(cost as int / 10), digit(cost as int % 10), '$']
}

/// Whether `hash` says that it was made with `version` at `cost`.
pub open spec fn carries(hash: Seq<char>, version: HashVersion, cost: u32) -> bool {
    hash.len() >= 7 && hash.take(7) == hash_head(version, cost)
}

/// `helpers::hash::bcrypt_custom`: a bcrypt hash of `password` under a fresh
/// random salt, written with the given version tag. Believed of it: a cost
/// outside bcrypt's range is an error; a hash that it returns is one that
/// bcrypt's `verify` accepts for `password`, and starts with the version
/// tag and the cost that were asked for.
#[verifier::external_body]
fn bcrypt_custom(password: &str, cost: u32, version: HashVersion) -> (hashed: Result<
    String,
    helpers::hash::BcryptError,
>)
    ensures
        !(MIN_COST <= cost <= MAX_COST) ==> hashed is Err,
        hashed matches Ok(h) ==> bcrypt_verdict(password@, h@) == Some(true),
        hashed matches Ok(h) ==> h@.len() >= 7 && h@.take(7) == hash_head(version, cost),
{
    let version = match version {
        HashVersion::TwoA => helpers::hash::Version::TwoA,
        HashVersion::TwoX => helpers::hash::Version::TwoX,
        HashVersion::TwoY => helpers::hash::Version::TwoY,
        HashVersion::TwoB => helpers::hash::Version::TwoB,
    };
    helpers::hash::bcrypt_custom(password, cost, version)
}

/// `helpers::hash::bcrypt`: a bcrypt hash of `password` at bcrypt's default
/// cost, 12, written with the version tag `2b`. Believed of it: a hash that
/// it returns is one that bcrypt's `verify` accepts for `password`, and
/// starts with that tag and that cost.
#[verifier::external_body]
fn bcrypt_default(password: &str) -> (hashed: Result<String, helpers::hash::BcryptError>)
    ensures
        hashed matches Ok(h) ==> bcrypt_verdict(password@, h@) == Some(true),
        hashed matches Ok(h) ==> h@.len() >= 7 && h@.take(7) == hash_head(
            HashVersion::TwoB,
            DEFAULT_COST,
        ),
{
    helpers::hash::bcrypt(password)
}

/// `helpers::hash::verify_bcrypt`: recomputes the hash of `password` under
/// the salt and cost read from `hash` and compares. Its answer depends on
/// the two texts alone.
#[verifier::external_body]
fn verify_bcrypt(password: &str, hash: &str) -> (verdict: Result<bool, helpers::hash::BcryptError>)
    ensures
        match verdict {
            Ok(same) => bcrypt_verdict(password@, hash@) == Some(same),
            Err(_) => bcrypt_verdict(password@, hash@) is None,
        },
{
    helpers::hash::verify_bcrypt(password, hash)
}

impl From<helpers::hash::BcryptError> for AppError {
    fn from(err: helpers::hash::BcryptError) -> (kind: AppError) {
        AppError::Error
    }
}

impl vstd::std_specs::convert::FromSpecImpl<helpers::hash::BcryptError> for AppError {
    open spec fn obeys_from_spec() -> bool {
        true
    }

    open spec fn from_spec(err: helpers::hash::BcryptError) -> AppError {
        AppError::Error
    }
}

/// What a hashing attempt comes to: the hash, or the generic error kind.
pub fn hash_outcome(hashed: Result<String, helpers::hash::BcryptError>) -> (outcome: Result<
    String,
    AppError,
>)
    ensures
        match hashed {
            Ok(h) => outcome == Ok::<String, AppError>(h),
            Err(_) => outcome == Err::<String, AppError>(AppError::Error),
        },
{
    match hashed {
        Ok(h) => Ok(h),
        Err(err) => Err(AppError::from(err)),
    }
}

/// What a check comes to: a match only where bcrypt said so. An unreadable
/// hash counts as a mismatch.
pub fn verify_outcome(verdict: Result<bool, helpers::hash::BcryptError>) -> (matched: bool)
    ensures
        matched == (verdict == Ok::<bool, helpers::hash::BcryptError>(true)),
{
    match verdict {
        Ok(same) => same,
        Err(_) => false,
    }
}

/// Hashes `plaintext` at the given cost, under a fresh random salt.
///
/// A hash that comes back matches `plaintext` and carries the cost that
/// was asked for. A cost outside `MIN_COST..=MAX_COST` is refused with
/// `AppError::Error`; so is a failure of the system's source of
/// randomness, which is why success is not promised for any input.
pub fn hash(plaintext: &str, cost: u32) -> (hashed: Result<String, AppError>)
    ensures
        !(MIN_COST <= cost <= MAX_COST) ==> hashed is Err,
        match hashed {
            Ok(h) => password_matches(plaintext@, h@) && carries(h@, HashVersion::TwoA, cost),
            Err(kind) => kind == AppError::Error,
        },
{
    hash_outcome(bcrypt_custom(plaintext, cost, HashVersion::TwoA))
}

/// Hashes `plaintext` at `DEFAULT_COST`, under a fresh random salt.
pub fn hash_default(plaintext: &str) -> (hashed: Result<String, AppError>)
    ensures
        match hashed {
            Ok(h) => password_matches(plaintext@, h@) && carries(
                h@,
                HashVersion::TwoB,
                DEFAULT_COST,
            ),
            Err(kind) => kind == AppError::Error,
        },
{
    hash_outcome(bcrypt_default(plaintext))
}

/// Whether `hash` is a hash of `plaintext`. Fails closed: a hash string
/// that cannot be read matches nothing.
pub fn verify(plaintext: &str, hash: &str) -> (matched: bool)
    ensures
        matched == password_matches(plaintext@, hash@),
{
    verify_outcome(verify_bcrypt(plaintext, hash))
}

} // verus!
