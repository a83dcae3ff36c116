//! Signed tokens: the claims they carry, how they are issued and how they
//! are verified.

use vstd::prelude::*;
use vstd::string::*;
use crate::error::{AppError, AppErrorView};
use crate::json::{
    json_get_integer, json_get_text, json_members, json_new, json_put_integer, json_put_text,
    no_members, scalars_only, JsonMember, Members,
};

verus! {

/// `jsonwebtoken::errors::Error`: why a token could not be signed. It is
/// carried to where it is put into words.
#[verifier::external_type_specification]
#[verifier::external_body]
pub struct ExJwtError(jsonwebtoken::errors::Error);

/// Seconds for which an access token, and the session it belongs to, lasts.
pub const ACCESS_TOKEN_EXPIRY: i64 = 3600;

/// Seconds for which a refresh token lasts.
pub const REFRESH_TOKEN_EXPIRY: i64 = 86400 * 7;

/// The payload of a token.
#[derive(Debug)]
pub struct AdminClaims {
    /// The admin's identifier.
    pub sub: String,
    /// Time of issue, in seconds since the epoch.
    pub iat: i64,
    /// Time of expiry, in seconds since the epoch.
    pub exp: i64,
    /// Identifier of the token itself.
    pub jti: String,
    pub role: String,
    /// The session that the token belongs to.
    pub session_id: String,
}

pub ghost struct AdminClaimsView {
    pub sub: Seq<char>,
    pub iat: int,
    pub exp: int,
    pub jti: Seq<char>,
    pub role: Seq<char>,
    pub session_id: Seq<char>,
}

impl View for AdminClaims {
    type V = AdminClaimsView;

    open spec fn view(&self) -> AdminClaimsView {
        AdminClaimsView {
            sub: self.sub@,
            iat: self.iat as int,
            exp: self.exp as int,
            jti: self.jti@,
            role: self.role@,
            session_id: self.session_id@,
        }
    }
}

impl AdminClaimsView {
    /// A token expires after it was issued.
    pub open spec fn valid(self) -> bool {
        self.exp > self.iat
    }

    /// The claims as members of a JSON object.
    pub open spec fn members(self) -> Members {
        no_members().insert("sub"@, JsonMember::Text(self.sub)).insert(
            "iat"@,
            JsonMember::Integer(self.iat),
        ).insert("exp"@, JsonMember::Integer(self.exp)).insert(
            "jti"@,
            JsonMember::Text(self.jti),
        ).insert("role"@, JsonMember::Text(self.role)).insert(
            "session_id"@,
            JsonMember::Text(self.session_id),
        )
    }
}

/// The text that the member `name` holds, if it holds one.
pub open spec fn text_member(members: Members, name: Seq<char>) -> Option<Seq<char>> {
    if members.contains_key(name) {
        match members[name] {
            JsonMember::Text(s) => Some(s),
            _ => None,
        }
    } else {
        None
    }
}

/// The integer that the member `name` holds, if it holds one.
pub open spec fn integer_member(members: Members, name: Seq<char>) -> Option<int> {
    if members.contains_key(name) {
        match members[name] {
            JsonMember::Integer(n) => Some(n),
            _ => None,
        }
    } else {
        None
    }
}

/// The claims that six values make, if all six are there.
pub open spec fn claims_of_parts(
    sub: Option<Seq<char>>,
    iat: Option<int>,
    exp: Option<int>,
    jti: Option<Seq<char>>,
    role: Option<Seq<char>>,
    session_id: Option<Seq<char>>,
) -> Option<AdminClaimsView> {
    if sub is Some && iat is Some && exp is Some && jti is Some && role is Some
        && session_id is Some {
        Some(
            AdminClaimsView {
                sub: sub->0,
                iat: iat->0,
                exp: exp->0,
                jti: jti->0,
                role: role->0,
                session_id: session_id->0,
            },
        )
    } else {
        None
    }
}

/// The claims that a payload holds: every claim must be there, texts as
/// strings and times as integers. Further members are passed over.
pub open spec fn claims_of_members(members: Members) -> Option<AdminClaimsView> {
    claims_of_parts(
        text_member(members, "sub"@),
        integer_member(members, "iat"@),
        integer_member(members, "exp"@),
        text_member(members, "jti"@),
        text_member(members, "role"@),
        text_member(members, "session_id"@),
    )
}

/// Why a token is not accepted.
#[derive(Debug, Clone, Copy, PartialEq, Eq, Structural)]
pub enum TokenFault {
    /// It has not the shape of a token.
    Malformed,
    /// Its signature is not that of its contents under the secret.
    BadSignature,
    /// Its time is up.
    Expired,
    /// It names an issuer that is not expected.
    BadIssuer,
    /// It names an audience that is not expected.
    BadAudience,
    /// Anything else: another algorithm, a claim that is missing or not
    /// of its kind, contents that cannot be read.
    Other,
}

/// The token that carries `claims`, signed with `secret` by HMAC-SHA256,
/// if signing succeeds.
pub uninterp spec fn jwt_compact(claims: Members, secret: Seq<char>) -> Option<Seq<char>>;

/// The payload of `token`, if `token` is well formed, carries an expiry
/// time and was signed with `secret` by HMAC-SHA256; else why not.
pub uninterp spec fn jwt_payload(token: Seq<char>, secret: Seq<char>) -> Result<Members, TokenFault>;

/// `jsonwebtoken::encode` with the default header and a key made by
/// `EncodingKey::from_secret`: the signed token, a function of claims and
/// secret alone.
#[verifier::external_body]
fn jwt_encode(claims: &serde_json::Map<String, serde_json::Value>, secret: &str) -> (r: Result<
    String,
    jsonwebtoken::errors::Error,
>)
    requires
        scalars_only(json_members(*claims)),
    ensures
        r is Ok == jwt_compact(json_members(*claims), secret@) is Some,
        r matches Ok(token) ==> Some(token@) == jwt_compact(json_members(*claims), secret@),
{
    let key = jsonwebtoken::EncodingKey::from_secret(secret.as_bytes());
    jsonwebtoken::encode(&jsonwebtoken::Header::default(), claims, &key)
}

/// `jsonwebtoken::decode` with a key made by `DecodingKey::from_secret` and
/// the validation for HS256, but for the comparison of the expiry time
/// with the clock: the payload of a token with a good signature, or the
/// kind of the error, of which four are told apart: a token without the
/// shape of one, a signature that does not fit, an issuer and an audience
/// that are not expected. A function of token and secret alone.
#[verifier::external_body]
fn jwt_decode(token: &str, secret: &str) -> (r: Result<
    serde_json::Map<String, serde_json::Value>,
    TokenFault,
>)
    ensures
        r matches Ok(claims) ==> jwt_payload(token@, secret@) is Ok && jwt_payload(
            token@,
            secret@,
        )->Ok_0 == json_members(claims),
        r matches Err(fault) ==> jwt_payload(token@, secret@) is Err && jwt_payload(
            token@,
            secret@,
        )->Err_0 == fault,
{
    let key = jsonwebtoken::DecodingKey::from_secret(secret.as_bytes());
    let mut validation = jsonwebtoken::Validation::new(jsonwebtoken::Algorithm::HS256);
    validation.validate_exp = false;
    match jsonwebtoken::decode::<serde_json::Map<String, serde_json::Value>>(token, &key, &validation) {
        Ok(data) => Ok(data.claims),
        Err(e) => Err(match e.kind() {
            jsonwebtoken::errors::ErrorKind::InvalidToken => TokenFault::Malformed,
            jsonwebtoken::errors::ErrorKind::InvalidSignature => TokenFault::BadSignature,
            jsonwebtoken::errors::ErrorKind::InvalidIssuer => TokenFault::BadIssuer,
            jsonwebtoken::errors::ErrorKind::InvalidAudience => TokenFault::BadAudience,
            _ => TokenFault::Other,
        }),
    }
}

/// `Display` of `jsonwebtoken::errors::Error`: the error in words.
#[verifier::external_body]
fn jwt_error_text(error: &jsonwebtoken::errors::Error) -> (text: String) {
    error.to_string()
}

/// What verifying `token` against `secret` at time `now` gives: the claims
/// of a token that was signed with `secret`, holds every claim and has not
/// expired.
pub open spec fn verified_claims(token: Seq<char>, secret: Seq<char>, now: int) -> Result<
    AdminClaimsView,
    AppErrorView,
> {
    match signed_claims(token, secret) {
        Some(claims) => expiry_checked(claims, now),
        None => Err(invalid_token()),
    }
}

/// The claims of a token that was signed with `secret`, whether expired or not.
pub open spec fn signed_claims(token: Seq<char>, secret: Seq<char>) -> Option<AdminClaimsView> {
    match jwt_payload(token, secret) {
        Ok(members) => claims_of_members(members),
        Err(_) => None,
    }
}

/// What looking into `token` at time `now` gives: its claims, or why it
/// is not accepted.
pub open spec fn inspected_claims(token: Seq<char>, secret: Seq<char>, now: int) -> Result<
    AdminClaimsView,
    TokenFault,
> {
    match jwt_payload(token, secret) {
        Ok(members) => match claims_of_members(members) {
            Some(claims) => if claims.exp < now {
                Err(TokenFault::Expired)
            } else {
                Ok(claims)
            },
            None => Err(TokenFault::Other),
        },
        Err(fault) => Err(fault),
    }
}

pub open spec fn inspection_view(r: Result<AdminClaims, TokenFault>) -> Result<
    AdminClaimsView,
    TokenFault,
> {
    match r {
        Ok(claims) => Ok(claims@),
        Err(fault) => Err(fault),
    }
}

/// Claims pass until their time of expiry, that second included.
pub open spec fn expiry_checked(claims: AdminClaimsView, now: int) -> Result<
    AdminClaimsView,
    AppErrorView,
> {
    if claims.exp < now {
        Err(invalid_token())
    } else {
        Ok(claims)
    }
}

/// The one answer to every token that is not accepted.
pub open spec fn invalid_token() -> AppErrorView {
    AppErrorView::Unauthorized("Invalid or expired token"@)
}

/// What issuing a token for `claims` gives.
pub open spec fn issued(claims: AdminClaimsView, secret: Seq<char>, r: Result<String, AppError>) -> bool {
    match jwt_compact(claims.members(), secret) {
        Some(token) => r matches Ok(t) && t@ == token,
        None => r matches Err(e) && e is JwtError,
    }
}

impl AdminClaims {
    /// Claims from their six values; `None` unless all six are there.
    pub fn from_parts(
        sub: Option<String>,
        iat: Option<i64>,
        exp: Option<i64>,
        jti: Option<String>,
        role: Option<String>,
        session_id: Option<String>,
    ) -> (r: Option<AdminClaims>)
        ensures
            (match r {
                Some(c) => Some(c@),
                None => None,
            }) == claims_of_parts(
                match sub {
                    Some(s) => Some(s@),
                    None => None,
                },
                match iat {
                    Some(n) => Some(n as int),
                    None => None,
                },
                match exp {
                    Some(n) => Some(n as int),
                    None => None,
                },
                match jti {
                    Some(s) => Some(s@),
                    None => None,
                },
                match role {
                    Some(s) => Some(s@),
                    None => None,
                },
                match session_id {
                    Some(s) => Some(s@),
                    None => None,
                },
            ),
    {
        match (sub, iat, exp, jti, role, session_id) {
            (Some(sub), Some(iat), Some(exp), Some(jti), Some(role), Some(session_id)) => Some(
                AdminClaims { sub, iat, exp, jti, role, session_id },
            ),
            _ => None,
        }
    }

    /// A copy of the claims.
    pub fn duplicate(&self) -> (c: AdminClaims)
        ensures
            c@ == self@,
    {
        AdminClaims {
            sub: self.sub.clone(),
            iat: self.iat,
            exp: self.exp,
            jti: self.jti.clone(),
            role: self.role.clone(),
            session_id: self.session_id.clone(),
        }
    }

    /// The claims as a JSON object.
    fn to_object(&self) -> (object: serde_json::Map<String, serde_json::Value>)
        ensures
            json_members(object) == self@.members(),
            scalars_only(json_members(object)),
    {
        let mut object = json_new();
        json_put_text(&mut object, "sub", self.sub.as_str());
        json_put_integer(&mut object, "iat", self.iat);
        json_put_integer(&mut object, "exp", self.exp);
        json_put_text(&mut object, "jti", self.jti.as_str());
        json_put_text(&mut object, "role", self.role.as_str());
        json_put_text(&mut object, "session_id", self.session_id.as_str());
        object
    }

    /// The claims that a JSON object holds.
    fn from_object(object: &serde_json::Map<String, serde_json::Value>) -> (r: Option<AdminClaims>)
        ensures
            (match r {
                Some(c) => Some(c@),
                None => None,
            }) == claims_of_members(json_members(*object)),
    {
        let sub = json_get_text(object, "sub");
        let iat = json_get_integer(object, "iat");
        let exp = json_get_integer(object, "exp");
        let jti = json_get_text(object, "jti");
        let role = json_get_text(object, "role");
        let session_id = json_get_text(object, "session_id");
        AdminClaims::from_parts(sub, iat, exp, jti, role, session_id)
    }

    /// Lets claims pass until their time of expiry.
    pub fn check_expiry(self, now: i64) -> (r: Result<AdminClaims, AppError>)
        ensures
            crate::error::outcome_view(r) == expiry_checked(self@, now as int),
    {
        if self.exp < now {
            Err(AppError::unauthorized("Invalid or expired token"))
        } else {
            Ok(self)
        }
    }
}

/// Issues the token for `claims`, signed with `secret`.
pub fn issue_token(secret: &str, claims: &AdminClaims) -> (r: Result<String, AppError>)
    ensures
        issued(claims@, secret@, r),
{
    let object = claims.to_object();
    match jwt_encode(&object, secret) {
        Ok(token) => Ok(token),
        Err(e) => Err(AppError::JwtError(jwt_error_text(&e))),
    }
}

/// Looks into `token` at time `now`: its claims, if it was signed with
/// `secret`, holds every claim and has not expired; else why it is not
/// accepted.
pub fn inspect_token(secret: &str, token: &str, now: i64) -> (r: Result<AdminClaims, TokenFault>)
    ensures
        inspection_view(r) == inspected_claims(token@, secret@, now as int),
{
    match jwt_decode(token, secret) {
        Ok(object) => match AdminClaims::from_object(&object) {
            Some(claims) => {
                if claims.exp < now {
                    Err(TokenFault::Expired)
                } else {
                    Ok(claims)
                }
            },
            None => Err(TokenFault::Other),
        },
        Err(fault) => Err(fault),
    }
}

/// Verifies `token` against `secret` at time `now`. Whatever is wrong
/// with a token, the answer is the same.
pub fn verify_token(secret: &str, token: &str, now: i64) -> (r: Result<AdminClaims, AppError>)
    ensures
        crate::error::outcome_view(r) == verified_claims(token@, secret@, now as int),
{
    match inspect_token(secret, token, now) {
        Ok(claims) => Ok(claims),
        Err(_) => Err(AppError::unauthorized("Invalid or expired token")),
    }
}

} // verus!
