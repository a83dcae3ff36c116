//! The record that the store keeps of a session, and the cookie that
//! carries a session's tokens.

use vstd::prelude::*;
use vstd::string::*;
use crate::json::{
    json_get_integer, json_get_text, json_new, json_parse, json_parsed, json_put_integer,
    json_put_text, json_render, json_text, no_members, JsonMember, Members,
};
use crate::fresh::{fresh_uuid, is_uuid_text};
use crate::text::{before_first, decimal, decimal_text, take_before};
use crate::token::{integer_member, text_member, ACCESS_TOKEN_EXPIRY};

verus! {

/// What the store keeps of a session.
#[derive(Debug)]
pub struct SessionRecord {
    pub admin_id: String,
    pub username: String,
    pub role: String,
    pub access_token: String,
    pub refresh_token: String,
    /// Time of the login, in seconds since the epoch.
    pub created_at: i64,
    /// Time of the last request under the session.
    pub last_activity: i64,
}

pub ghost struct SessionRecordView {
    pub admin_id: Seq<char>,
    pub username: Seq<char>,
    pub role: Seq<char>,
    pub access_token: Seq<char>,
    pub refresh_token: Seq<char>,
    pub created_at: int,
    pub last_activity: int,
}

impl View for SessionRecord {
    type V = SessionRecordView;

    open spec fn view(&self) -> SessionRecordView {
        SessionRecordView {
            admin_id: self.admin_id@,
            username: self.username@,
            role: self.role@,
            access_token: self.access_token@,
            refresh_token: self.refresh_token@,
            created_at: self.created_at as int,
            last_activity: self.last_activity as int,
        }
    }
}

impl SessionRecordView {
    /// The record as members of a JSON object.
    pub open spec fn members(self) -> Members {
        no_members().insert("admin_id"@, JsonMember::Text(self.admin_id)).insert(
            "username"@,
            JsonMember::Text(self.username),
        ).insert("role"@, JsonMember::Text(self.role)).insert(
            "access_token"@,
            JsonMember::Text(self.access_token),
        ).insert("refresh_token"@, JsonMember::Text(self.refresh_token)).insert(
            "created_at"@,
            JsonMember::Integer(self.created_at),
        ).insert("last_activity"@, JsonMember::Integer(self.last_activity))
    }

    /// The record as the store keeps it.
    pub open spec fn stored(self) -> Seq<char> {
        json_text(self.members())
    }

    /// The record after a request at `now`: nothing but the time of the
    /// last activity has changed.
    pub open spec fn touched(self, now: int) -> SessionRecordView {
        SessionRecordView { last_activity: now, ..self }
    }
}

/// The record that seven values make, if all seven are there.
pub open spec fn record_of_parts(
    admin_id: Option<Seq<char>>,
    username: Option<Seq<char>>,
    role: Option<Seq<char>>,
    access_token: Option<Seq<char>>,
    refresh_token: Option<Seq<char>>,
    created_at: Option<int>,
    last_activity: Option<int>,
) -> Option<SessionRecordView> {
    if admin_id is Some && username is Some && role is Some && access_token is Some
        && refresh_token is Some && created_at is Some && last_activity is Some {
        Some(
            SessionRecordView {
                admin_id: admin_id->0,
                username: username->0,
                role: role->0,
                access_token: access_token->0,
                refresh_token: refresh_token->0,
                created_at: created_at->0,
                last_activity: last_activity->0,
            },
        )
    } else {
        None
    }
}

/// The record that the members of a JSON object make.
pub open spec fn record_of_members(members: Members) -> Option<SessionRecordView> {
    record_of_parts(
        text_member(members, "admin_id"@),
        text_member(members, "username"@),
        text_member(members, "role"@),
        text_member(members, "access_token"@),
        text_member(members, "refresh_token"@),
        integer_member(members, "created_at"@),
        integer_member(members, "last_activity"@),
    )
}

/// The record that `text` is, if it is one.
pub open spec fn record_of_text(text: Seq<char>) -> Option<SessionRecordView> {
    match json_parsed(text) {
        Some(members) => record_of_members(members),
        None => None,
    }
}

pub open spec fn text_view(value: Option<String>) -> Option<Seq<char>> {
    match value {
        Some(s) => Some(s@),
        None => None,
    }
}

pub open spec fn integer_view(value: Option<i64>) -> Option<int> {
    match value {
        Some(n) => Some(n as int),
        None => None,
    }
}

pub open spec fn record_view(value: Option<SessionRecord>) -> Option<SessionRecordView> {
    match value {
        Some(r) => Some(r@),
        None => None,
    }
}

impl SessionRecord {
    /// A record from its seven values; `None` unless all seven are there.
    pub fn from_parts(
        admin_id: Option<String>,
        username: Option<String>,
        role: Option<String>,
        access_token: Option<String>,
        refresh_token: Option<String>,
        created_at: Option<i64>,
        last_activity: Option<i64>,
    ) -> (r: Option<SessionRecord>)
        ensures
            record_view(r) == record_of_parts(
                text_view(admin_id),
                text_view(username),
                text_view(role),
                text_view(access_token),
                text_view(refresh_token),
                integer_view(created_at),
                integer_view(last_activity),
            ),
    {
        match (admin_id, username, role, access_token, refresh_token, created_at, last_activity) {
            (
                Some(admin_id),
                Some(username),
                Some(role),
                Some(access_token),
                Some(refresh_token),
                Some(created_at),
                Some(last_activity),
            ) => Some(
                SessionRecord {
                    admin_id,
                    username,
                    role,
                    access_token,
                    refresh_token,
                    created_at,
                    last_activity,
                },
            ),
            _ => None,
        }
    }

    /// The record after a request at `now`.
    pub fn touch(self, now: i64) -> (r: SessionRecord)
        ensures
            r@ == self@.touched(now as int),
    {
        SessionRecord {
            admin_id: self.admin_id,
            username: self.username,
            role: self.role,
            access_token: self.access_token,
            refresh_token: self.refresh_token,
            created_at: self.created_at,
            last_activity: now,
        }
    }

    /// The record as the store keeps it.
    pub fn to_json(&self) -> (text: String)
        ensures
            text@ == self@.stored(),
    {
        let mut object = json_new();
        json_put_text(&mut object, "admin_id", self.admin_id.as_str());
        json_put_text(&mut object, "username", self.username.as_str());
        json_put_text(&mut object, "role", self.role.as_str());
        json_put_text(&mut object, "access_token", self.access_token.as_str());
        json_put_text(&mut object, "refresh_token", self.refresh_token.as_str());
        json_put_integer(&mut object, "created_at", self.created_at);
        json_put_integer(&mut object, "last_activity", self.last_activity);
        json_render(&object)
    }

    /// The record that `text` is, if it is one.
    pub fn from_json(text: &str) -> (r: Option<SessionRecord>)
        ensures
            record_view(r) == record_of_text(text@),
    {
        match json_parse(text) {
            Some(object) => {
                let admin_id = json_get_text(&object, "admin_id");
                let username = json_get_text(&object, "username");
                let role = json_get_text(&object, "role");
                let access_token = json_get_text(&object, "access_token");
                let refresh_token = json_get_text(&object, "refresh_token");
                let created_at = json_get_integer(&object, "created_at");
                let last_activity = json_get_integer(&object, "last_activity");
                SessionRecord::from_parts(
                    admin_id,
                    username,
                    role,
                    access_token,
                    refresh_token,
                    created_at,
                    last_activity,
                )
            },
            None => None,
        }
    }
}

/// The value of the session cookie: both tokens, a colon between them.
pub open spec fn cookie_value(access_token: Seq<char>, refresh_token: Seq<char>) -> Seq<char> {
    access_token + ":"@ + refresh_token
}

/// The `Set-Cookie` header that hands the session cookie out: kept from
/// scripts, sent over TLS only and to this site only, for as long as the
/// access token lasts.
pub open spec fn set_cookie(access_token: Seq<char>, refresh_token: Seq<char>) -> Seq<char> {
    "__Secure-admin-session="@ + cookie_value(access_token, refresh_token)
        + "; HttpOnly; Secure; SameSite=Strict; Path=/; Max-Age="@ + decimal(
        ACCESS_TOKEN_EXPIRY as nat,
    )
}

/// The access token in the value of a session cookie: what stands in
/// front of the first colon.
pub open spec fn access_token_of(cookie: Seq<char>) -> Seq<char> {
    before_first(cookie, ':')
}

/// The name of the session cookie.
pub fn cookie_name() -> (name: &'static str)
    ensures
        name@ == "__Secure-admin-session"@,
{
    "__Secure-admin-session"
}

/// The `Set-Cookie` header that hands the session cookie out.
pub fn make_set_cookie(access_token: &str, refresh_token: &str) -> (header: String)
    ensures
        header@ == set_cookie(access_token@, refresh_token@),
{
    let mut header = String::from_str("__Secure-admin-session=");
    header.append(access_token);
    header.append(":");
    header.append(refresh_token);
    header.append("; HttpOnly; Secure; SameSite=Strict; Path=/; Max-Age=");
    let age = decimal_text(ACCESS_TOKEN_EXPIRY as u64);
    header.append(age.as_str());
    header
}

/// The access token in the value of a session cookie.
pub fn read_access_token(cookie: &str) -> (token: String)
    ensures
        token@ == access_token_of(cookie@),
{
    take_before(cookie, ':')
}

/// The `Set-Cookie` header that gives a page its session: kept from
/// scripts, sent over TLS only and to this site only.
pub open spec fn page_cookie(session_id: Seq<char>) -> Seq<char> {
    "session_id="@ + session_id + "; Path=/; HttpOnly; Secure; SameSite=Strict"@
}

/// The `Set-Cookie` header that gives a page the session `session_id`.
pub fn make_page_cookie(session_id: &str) -> (header: String)
    ensures
        header@ == page_cookie(session_id@),
{
    let mut header = String::from_str("session_id=");
    header.append(session_id);
    header.append("; Path=/; HttpOnly; Secure; SameSite=Strict");
    header
}

/// A new session for a page that is served: its random identifier and
/// the `Set-Cookie` header that hands it out.
pub fn page_session() -> (r: (String, String))
    ensures
        is_uuid_text(r.0@),
        r.1@ == page_cookie(r.0@),
{
    let id = fresh_uuid();
    let header = make_page_cookie(id.as_str());
    (id, header)
}

} // verus!
