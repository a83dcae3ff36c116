//! Password hashes: `bcrypt` decides, this module says what follows.

use vstd::prelude::*;
use vstd::string::*;
use crate::error::{AppError, AppErrorView};

verus! {

/// `bcrypt::BcryptError`: why a hash could not be read or made. It is
/// carried to where it is put into words.
#[verifier::external_type_specification]
#[verifier::external_body]
pub struct ExBcryptError(bcrypt::BcryptError);

/// Whether `password` is the one that `hash` was made from; `None` where
/// `hash` cannot be read as a bcrypt hash.
pub uninterp spec fn bcrypt_verdict(password: Seq<char>, hash: Seq<char>) -> Option<bool>;

/// The cost factor written in `hash`; `None` where `hash` has not the
/// parts of a bcrypt hash.
pub uninterp spec fn bcrypt_cost(hash: Seq<char>) -> Option<u32>;

/// `bcrypt::verify`: hashes `password` with the salt and cost written in
/// `hash` and compares; an error where `hash` cannot be read. A function
/// of its two arguments alone.
#[verifier::external_body]
pub(crate) fn bcrypt_verify(password: &str, hash: &str) -> (r: Result<bool, bcrypt::BcryptError>)
    ensures
        match r {
            Ok(b) => bcrypt_verdict(password@, hash@) == Some(b),
            Err(_) => bcrypt_verdict(password@, hash@) is None,
        },
{
    bcrypt::verify(password, hash)
}

/// `bcrypt::HashParts::from_str` and `get_cost`: the cost factor written
/// in `hash`.
#[verifier::external_body]
pub(crate) fn bcrypt_cost_of(hash: &str) -> (r: Result<u32, bcrypt::BcryptError>)
    ensures
        match r {
            Ok(cost) => bcrypt_cost(hash@) == Some(cost),
            Err(_) => bcrypt_cost(hash@) is None,
        },
{
    hash.parse::<bcrypt::HashParts>().map(|parts| parts.get_cost())
}

/// `bcrypt::hash`: a hash of `password` under a random salt. Nothing is
/// claimed of it here: the caller looks at what it got.
#[verifier::external_body]
pub(crate) fn bcrypt_hash(password: &str, cost: u32) -> (r: Result<String, bcrypt::BcryptError>) {
    bcrypt::hash(password, cost)
}

/// `Display` of `bcrypt::BcryptError`: the error in words.
#[verifier::external_body]
pub(crate) fn bcrypt_error_text(error: &bcrypt::BcryptError) -> (text: String) {
    error.to_string()
}

/// The one answer to every wrong user name and every wrong password.
pub open spec fn invalid_credentials() -> AppErrorView {
    AppErrorView::Unauthorized("Invalid credentials"@)
}

/// What follows from the comparison of the user name and the verdict on
/// the password: only the right name with the right password passes, and
/// a wrong name is answered like a wrong password whatever the verdict.
pub open spec fn credentials_decision(name_matches: bool, verdict: Option<bool>) -> Result<
    (),
    AppErrorView,
> {
    if !name_matches {
        Err(invalid_credentials())
    } else {
        match verdict {
            Some(true) => Ok(()),
            Some(false) => Err(invalid_credentials()),
            None => Err(AppErrorView::BcryptError),
        }
    }
}

/// Decides on a login from the comparison of the user name and from what
/// the password check gave: its verdict, or its error in words.
pub fn decide_credentials(name_matches: bool, verdict: Result<bool, String>) -> (r: Result<
    (),
    AppError,
>)
    ensures
        crate::error::unit_outcome_view(r) == credentials_decision(
            name_matches,
            match verdict {
                Ok(b) => Some(b),
                Err(_) => None,
            },
        ),
{
    if !name_matches {
        return Err(AppError::unauthorized("Invalid credentials"));
    }
    match verdict {
        Ok(true) => Ok(()),
        Ok(false) => Err(AppError::unauthorized("Invalid credentials")),
        Err(words) => Err(AppError::BcryptError(words)),
    }
}

} // verus!
