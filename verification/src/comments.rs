//! Comments that the admin writes on submissions: who may write one, and
//! what is said when one cannot be kept.

use vstd::prelude::*;
use vstd::string::*;
use crate::fresh::current_timestamp;
use crate::session::{access_token_of, read_access_token};
use crate::state::{AppState, AppStateView};
use crate::text::{contains_text, has_infix, trim_text, trimmed, view_of};
use crate::token::{inspect_token, inspected_claims, AdminClaims, AdminClaimsView, TokenFault};

verus! {

/// A comment as the dashboard sends it.
#[derive(Debug)]
pub struct CreateAdminComment {
    /// The submission that is commented on.
    pub submissions_id: String,
    pub text: String,
}

/// Which submission's comments the dashboard asks for.
#[derive(Debug)]
pub struct GetAdminComments {
    pub submissions_id: String,
}

/// Whether `text` is a UUID in one of the forms that `uuid` reads.
pub uninterp spec fn reads_as_uuid(text: Seq<char>) -> bool;

/// `uuid::Uuid::parse_str`: whether `text` is a UUID, hyphenated or not,
/// braced or as a URN.
#[verifier::external_body]
fn is_uuid(text: &str) -> (b: bool)
    ensures
        b == reads_as_uuid(text@),
{
    uuid::Uuid::parse_str(text).is_ok()
}

/// The words in which a token is turned down.
pub open spec fn fault_words(fault: TokenFault) -> Seq<char> {
    match fault {
        TokenFault::Malformed => "Invalid token format"@,
        TokenFault::BadSignature => "Invalid signature"@,
        TokenFault::Expired => "Token expired"@,
        TokenFault::BadIssuer => "Invalid issuer"@,
        TokenFault::BadAudience => "Invalid audience"@,
        TokenFault::Other => "Invalid token"@,
    }
}

/// Who writes, going by what the token of the request gave and by
/// whether its subject is a UUID: the subject, or the words in which the
/// request is turned down.
pub open spec fn author_of(inspected: Result<AdminClaimsView, TokenFault>, subject_is_uuid: bool) -> Result<
    Seq<char>,
    Seq<char>,
> {
    match inspected {
        Ok(claims) => if subject_is_uuid {
            Ok(claims.sub)
        } else {
            Err("Invalid admin ID"@)
        },
        Err(fault) => Err(fault_words(fault)),
    }
}

/// Who writes a comment that comes with the session cookie `cookie` at
/// `now`: the admin that the access token in the cookie names. Without
/// the cookie, with a token that is not accepted or one that names no
/// admin, the request is turned down.
pub open spec fn comment_author_of(state: AppStateView, cookie: Option<Seq<char>>, now: int) -> Result<
    Seq<char>,
    Seq<char>,
> {
    match cookie {
        None => Err("Missing session cookie"@),
        Some(value) => {
            let inspected = inspected_claims(trimmed(access_token_of(value)), state.jwt_secret, now);
            author_of(
                inspected,
                match inspected {
                    Ok(claims) => reads_as_uuid(claims.sub),
                    Err(_) => false,
                },
            )
        },
    }
}

pub open spec fn words_view(r: Result<String, String>) -> Result<Seq<char>, Seq<char>> {
    match r {
        Ok(s) => Ok(s@),
        Err(s) => Err(s@),
    }
}

/// The words in which a token is turned down.
pub fn describe_token_fault(fault: TokenFault) -> (words: String)
    ensures
        words@ == fault_words(fault),
{
    match fault {
        TokenFault::Malformed => String::from_str("Invalid token format"),
        TokenFault::BadSignature => String::from_str("Invalid signature"),
        TokenFault::Expired => String::from_str("Token expired"),
        TokenFault::BadIssuer => String::from_str("Invalid issuer"),
        TokenFault::BadAudience => String::from_str("Invalid audience"),
        TokenFault::Other => String::from_str("Invalid token"),
    }
}

/// Who writes, going by what the token of the request gave and by
/// whether its subject is a UUID. Whoever is turned down is not
/// authorised.
pub fn author_from(inspected: Result<AdminClaims, TokenFault>, subject_is_uuid: bool) -> (r: Result<
    String,
    String,
>)
    ensures
        words_view(r) == author_of(crate::token::inspection_view(inspected), subject_is_uuid),
{
    match inspected {
        Ok(claims) => {
            if subject_is_uuid {
                Ok(claims.sub)
            } else {
                Err(String::from_str("Invalid admin ID"))
            }
        },
        Err(fault) => Err(describe_token_fault(fault)),
    }
}

/// Who writes a comment that comes with the session cookie `cookie` at
/// `now`, or the words in which the request is turned down.
pub fn comment_author(state: &AppState, cookie: Option<&str>, now: i64) -> (r: Result<String, String>)
    ensures
        words_view(r) == comment_author_of(state@, view_of(cookie), now as int),
{
    match cookie {
        None => Err(String::from_str("Missing session cookie")),
        Some(value) => {
            let token = trim_text(read_access_token(value).as_str());
            let inspected = inspect_token(state.jwt_secret(), token.as_str(), now);
            let subject_is_uuid = match &inspected {
                Ok(claims) => is_uuid(claims.sub.as_str()),
                Err(_) => false,
            };
            author_from(inspected, subject_is_uuid)
        },
    }
}

/// Whether `r` says who writes a comment at `now`, a time that the clock
/// can show.
pub open spec fn authored_at(
    state: AppStateView,
    cookie: Option<Seq<char>>,
    now: int,
    r: Result<String, String>,
) -> bool {
    crate::fresh::is_clock_time(now) && words_view(r) == comment_author_of(state, cookie, now)
}

/// Who writes a comment that comes with the session cookie `cookie` at
/// the time of the clock.
pub fn crate_submission_comment(state: &AppState, cookie: Option<&str>) -> (r: Result<String, String>)
    ensures
        exists|now: int| #[trigger] authored_at(state@, view_of(cookie), now, r),
{
    let now = current_timestamp();
    let r = comment_author(state, cookie, now);
    proof {
        assert(authored_at(state@, view_of(cookie), now as int, r));
    }
    r
}

/// What is said when a comment could not be kept, going by the words of
/// the database: that the submission is not known where a foreign key
/// did not hold, else no more than that something went wrong.
pub open spec fn failure_words(error: Seq<char>) -> Seq<char> {
    if has_infix(error, "foreign key constraint"@) {
        "Invalid submission ID"@
    } else {
        "Internal server error"@
    }
}

/// What is said when a comment could not be kept.
pub fn comment_failure(error: &str) -> (words: String)
    ensures
        words@ == failure_words(error@),
{
    if contains_text(error, "foreign key constraint") {
        String::from_str("Invalid submission ID")
    } else {
        String::from_str("Internal server error")
    }
}

} // verus!
