//! The rules of the admin login: the limit on failed attempts, the check
//! of the credentials, the tokens and the session that a login creates.

use vstd::prelude::*;
use vstd::string::*;
use crate::error::{outcome_view, unit_outcome_view, AppError, AppErrorView};
use crate::csrf::{redeem, redeem_model};
use crate::exchange::{
    finish, finish_model, play, play_model, AfterCsrf, AfterCsrfView, Exchange, ExchangeView,
    LoginAttempt, LoginAttemptView, Outcome, OutcomeView, Step, StepView,
};
use crate::fresh::{current_timestamp, fresh_uuid, is_clock_time, is_uuid_text, MAX_CLOCK};
use crate::keys::{
    attempts_key, make_attempts_key, make_session_key, make_token_key, session_key, token_key,
};
use crate::password::{
    bcrypt_error_text, bcrypt_verdict, bcrypt_verify, credentials_decision, decide_credentials,
};
use crate::session::{
    access_token_of, make_set_cookie, read_access_token, record_of_text, set_cookie, SessionRecord,
    SessionRecordView,
};
use crate::state::{AppState, AppStateView};
use crate::store::{commands_view, StoreCommand, StoreCommandView};
use crate::text::{blank, is_blank, is_empty_text, same_text, view_of};
use crate::token::{
    issue_token, issued, jwt_compact, verified_claims, verify_token, AdminClaims, AdminClaimsView,
    ACCESS_TOKEN_EXPIRY, REFRESH_TOKEN_EXPIRY,
};

verus! {

/// Failed logins under one user name after which no further login is tried.
pub const MAX_LOGIN_ATTEMPTS: i64 = 5;

/// Seconds for which failed logins are remembered after the last of them.
pub const LOGIN_ATTEMPT_WINDOW: i64 = 900;

/// What a login asks with.
#[derive(Debug)]
pub struct AdminLoginRequest {
    pub username: String,
    pub password: String,
}

/// The body of the answer to a login that succeeded.
#[derive(Debug)]
pub struct AdminLoginResponse {
    pub redirect_url: String,
    pub expires_in: i64,
}

pub ghost struct AdminLoginResponseView {
    pub redirect_url: Seq<char>,
    pub expires_in: int,
}

impl View for AdminLoginResponse {
    type V = AdminLoginResponseView;

    open spec fn view(&self) -> AdminLoginResponseView {
        AdminLoginResponseView {
            redirect_url: self.redirect_url@,
            expires_in: self.expires_in as int,
        }
    }
}

/// The admin as a login has recognised them.
#[derive(Debug)]
pub struct AdminUser {
    pub id: String,
    pub username: String,
    pub role: String,
}

pub ghost struct AdminUserView {
    pub id: Seq<char>,
    pub username: Seq<char>,
    pub role: Seq<char>,
}

impl View for AdminUser {
    type V = AdminUserView;

    open spec fn view(&self) -> AdminUserView {
        AdminUserView { id: self.id@, username: self.username@, role: self.role@ }
    }
}

/// The answer to a login that succeeded: two headers and the body.
#[derive(Debug)]
pub struct LoginSuccess {
    /// Value of the `Set-Cookie` header.
    pub set_cookie: String,
    /// Value of the `Cache-Control` header.
    pub cache_control: String,
    pub body: AdminLoginResponse,
}

pub ghost struct LoginSuccessView {
    pub set_cookie: Seq<char>,
    pub cache_control: Seq<char>,
    pub body: AdminLoginResponseView,
}

impl View for LoginSuccess {
    type V = LoginSuccessView;

    open spec fn view(&self) -> LoginSuccessView {
        LoginSuccessView {
            set_cookie: self.set_cookie@,
            cache_control: self.cache_control@,
            body: self.body@,
        }
    }
}

/// What a login needs that no input determines: the time, and an
/// identifier each for the session, the admin and the two tokens.
pub struct LoginSeed {
    now: i64,
    session_id: String,
    admin_id: String,
    access_jti: String,
    refresh_jti: String,
}

pub ghost struct LoginSeedView {
    pub now: int,
    pub session_id: Seq<char>,
    pub admin_id: Seq<char>,
    pub access_jti: Seq<char>,
    pub refresh_jti: Seq<char>,
}

impl View for LoginSeed {
    type V = LoginSeedView;

    closed spec fn view(&self) -> LoginSeedView {
        LoginSeedView {
            now: self.now as int,
            session_id: self.session_id@,
            admin_id: self.admin_id@,
            access_jti: self.access_jti@,
            refresh_jti: self.refresh_jti@,
        }
    }
}

/// The seed that five values make, if the time is one that the clock can show.
pub open spec fn seed_of(
    now: int,
    session_id: Seq<char>,
    admin_id: Seq<char>,
    access_jti: Seq<char>,
    refresh_jti: Seq<char>,
) -> Option<LoginSeedView> {
    if is_clock_time(now) {
        Some(LoginSeedView { now, session_id, admin_id, access_jti, refresh_jti })
    } else {
        None
    }
}

impl LoginSeed {
    #[verifier::type_invariant]
    spec fn well_formed(self) -> bool {
        is_clock_time(self.now as int)
    }

    /// A seed from the values given.
    pub fn new(
        now: i64,
        session_id: String,
        admin_id: String,
        access_jti: String,
        refresh_jti: String,
    ) -> (r: Option<LoginSeed>)
        ensures
            (match r {
                Some(seed) => Some(seed@),
                None => None,
            }) == seed_of(now as int, session_id@, admin_id@, access_jti@, refresh_jti@),
    {
        if 0 <= now && now <= MAX_CLOCK {
            Some(LoginSeed { now, session_id, admin_id, access_jti, refresh_jti })
        } else {
            None
        }
    }

    /// A seed with the time of the clock and four random identifiers.
    pub fn draw() -> (seed: LoginSeed)
        ensures
            is_clock_time(seed@.now),
            is_uuid_text(seed@.session_id),
            is_uuid_text(seed@.admin_id),
            is_uuid_text(seed@.access_jti),
            is_uuid_text(seed@.refresh_jti),
    {
        let now = current_timestamp();
        let session_id = fresh_uuid();
        let admin_id = fresh_uuid();
        let access_jti = fresh_uuid();
        let refresh_jti = fresh_uuid();
        LoginSeed { now, session_id, admin_id, access_jti, refresh_jti }
    }

    pub fn now(&self) -> (now: i64)
        ensures
            now == self@.now,
            is_clock_time(now as int),
    {
        proof {
            use_type_invariant(self);
        }
        self.now
    }

    pub fn session_id(&self) -> (s: &str)
        ensures
            s@ == self@.session_id,
    {
        self.session_id.as_str()
    }

    pub fn admin_id(&self) -> (s: &str)
        ensures
            s@ == self@.admin_id,
    {
        self.admin_id.as_str()
    }

    pub fn access_jti(&self) -> (s: &str)
        ensures
            s@ == self@.access_jti,
    {
        self.access_jti.as_str()
    }

    pub fn refresh_jti(&self) -> (s: &str)
        ensures
            s@ == self@.refresh_jti,
    {
        self.refresh_jti.as_str()
    }
}

/// The answer to a login under a name that has failed too often.
pub open spec fn too_many_attempts() -> AppErrorView {
    AppErrorView::TooManyRequests("Too many login attempts. Please try again later."@)
}

/// Whether a login may be tried under a name with `attempts` failed
/// logins remembered: not once they have reached the limit.
pub open spec fn rate_limit_decision(attempts: Option<int>) -> Result<(), AppErrorView> {
    match attempts {
        Some(count) => if count >= MAX_LOGIN_ATTEMPTS {
            Err(too_many_attempts())
        } else {
            Ok(())
        },
        None => Ok(()),
    }
}

/// The command that reads the failed logins remembered under `username`.
pub fn attempts_query(username: &str) -> (command: StoreCommand)
    ensures
        command@ == (StoreCommandView::GetCount { key: attempts_key(username@) }),
{
    StoreCommand::GetCount { key: make_attempts_key(username) }
}

/// Decides from the failed logins remembered under a name whether a
/// login may be tried. It counts nothing itself: the count is read by
/// one command and raised by others, so that logins that fail at the
/// same moment may all have read the count before any of them raised it.
pub fn check_rate_limit(attempts: Option<i64>) -> (r: Result<(), AppError>)
    ensures
        unit_outcome_view(r) == rate_limit_decision(
            match attempts {
                Some(n) => Some(n as int),
                None => None,
            },
        ),
{
    match attempts {
        Some(count) => {
            if count >= MAX_LOGIN_ATTEMPTS {
                Err(AppError::too_many_requests("Too many login attempts. Please try again later."))
            } else {
                Ok(())
            }
        },
        None => Ok(()),
    }
}

/// The commands that remember one more failed login under `username`:
/// count it, and let the count stay for the whole window from now.
pub open spec fn failure_commands(username: Seq<char>) -> Seq<StoreCommandView> {
    seq![
        StoreCommandView::Incr { key: attempts_key(username) },
        StoreCommandView::Expire {
            key: attempts_key(username),
            seconds: LOGIN_ATTEMPT_WINDOW as int,
        },
    ]
}

/// The commands that remember one more failed login under `username`.
pub fn increment_failed_attempts(username: &str) -> (commands: Vec<StoreCommand>)
    ensures
        commands_view(commands@) == failure_commands(username@),
{
    let mut commands: Vec<StoreCommand> = Vec::new();
    commands.push(StoreCommand::Incr { key: make_attempts_key(username) });
    commands.push(
        StoreCommand::Expire { key: make_attempts_key(username), seconds: LOGIN_ATTEMPT_WINDOW },
    );
    commands
}

/// The command that forgets the failed logins under `username`.
pub fn clear_failed_attempts(username: &str) -> (command: StoreCommand)
    ensures
        command@ == (StoreCommandView::Del { key: attempts_key(username@) }),
{
    StoreCommand::Del { key: make_attempts_key(username) }
}

/// Whether a login names nobody or gives no password.
pub open spec fn credentials_missing(username: Seq<char>, password: Seq<char>) -> bool {
    is_blank(username) || password.len() == 0
}

/// The answer to a login that names nobody or gives no password.
pub open spec fn credentials_required() -> AppErrorView {
    AppErrorView::BadRequest("Username and password are required"@)
}

/// Who a login is, if its name is the admin's and its password the one
/// that the admin's hash was made from. Under another name the password
/// is checked against the decoy hash, and the answer is that to a wrong
/// password.
pub open spec fn authentication(
    state: AppStateView,
    username: Seq<char>,
    password: Seq<char>,
    admin_id: Seq<char>,
) -> Result<AdminUserView, AppErrorView> {
    let name_matches = username == state.admin_username;
    let hash = if name_matches {
        state.admin_password_hash
    } else {
        state.decoy_hash
    };
    match credentials_decision(name_matches, bcrypt_verdict(password, hash)) {
        Ok(_) => Ok(AdminUserView { id: admin_id, username: state.admin_username, role: "admin"@ }),
        Err(e) => Err(e),
    }
}

/// Checks the credentials of a login; `admin_id` is the identifier that
/// the admin goes by if they pass.
pub fn authenticate_admin(state: &AppState, username: &str, password: &str, admin_id: &str) -> (r:
    Result<AdminUser, AppError>)
    ensures
        outcome_view(r) == authentication(state@, username@, password@, admin_id@),
{
    let name_matches = same_text(username, state.admin_username());
    let hash = if name_matches {
        state.admin_password_hash()
    } else {
        state.decoy_hash()
    };
    let verdict = match bcrypt_verify(password, hash) {
        Ok(b) => Ok(b),
        Err(e) => Err(bcrypt_error_text(&e)),
    };
    match decide_credentials(name_matches, verdict) {
        Ok(_) => Ok(
            AdminUser {
                id: admin_id.to_owned(),
                username: state.admin_username().to_owned(),
                role: String::from_str("admin"),
            },
        ),
        Err(e) => Err(e),
    }
}

/// The claims of a token for `admin` under a session, issued at `now` to
/// last for `lifetime` seconds.
pub open spec fn claims_for(
    admin: AdminUserView,
    session_id: Seq<char>,
    now: int,
    lifetime: int,
    jti: Seq<char>,
) -> AdminClaimsView {
    AdminClaimsView {
        sub: admin.id,
        iat: now,
        exp: now + lifetime,
        jti,
        role: admin.role,
        session_id,
    }
}

/// The access token and the refresh token of a login, if both can be signed.
pub open spec fn token_pair(
    secret: Seq<char>,
    admin: AdminUserView,
    session_id: Seq<char>,
    now: int,
    access_jti: Seq<char>,
    refresh_jti: Seq<char>,
) -> Result<(Seq<char>, Seq<char>), AppErrorView> {
    let access = claims_for(admin, session_id, now, ACCESS_TOKEN_EXPIRY as int, access_jti);
    let refresh = claims_for(admin, session_id, now, REFRESH_TOKEN_EXPIRY as int, refresh_jti);
    match jwt_compact(access.members(), secret) {
        Some(a) => match jwt_compact(refresh.members(), secret) {
            Some(r) => Ok((a, r)),
            None => Err(AppErrorView::JwtError),
        },
        None => Err(AppErrorView::JwtError),
    }
}

pub open spec fn pair_view(r: Result<(String, String), AppError>) -> Result<
    (Seq<char>, Seq<char>),
    AppErrorView,
> {
    match r {
        Ok((a, b)) => Ok((a@, b@)),
        Err(e) => Err(e@),
    }
}

fn make_claims(admin: &AdminUser, session_id: &str, now: i64, lifetime: i64, jti: &str) -> (claims:
    AdminClaims)
    requires
        is_clock_time(now as int),
        0 < lifetime <= REFRESH_TOKEN_EXPIRY,
    ensures
        claims@ == claims_for(admin@, session_id@, now as int, lifetime as int, jti@),
        claims@.valid(),
{
    AdminClaims {
        sub: admin.id.clone(),
        iat: now,
        exp: now + lifetime,
        jti: jti.to_owned(),
        role: admin.role.clone(),
        session_id: session_id.to_owned(),
    }
}

/// Issues the two tokens of a login: an access token for an hour and a
/// refresh token for a week, both for one session, each under its own
/// identifier.
pub fn create_admin_tokens(
    state: &AppState,
    admin: &AdminUser,
    session_id: &str,
    now: i64,
    access_jti: &str,
    refresh_jti: &str,
) -> (r: Result<(String, String), AppError>)
    requires
        is_clock_time(now as int),
    ensures
        pair_view(r) == token_pair(
            state@.jwt_secret,
            admin@,
            session_id@,
            now as int,
            access_jti@,
            refresh_jti@,
        ),
{
    let access_claims = make_claims(admin, session_id, now, ACCESS_TOKEN_EXPIRY, access_jti);
    let refresh_claims = make_claims(admin, session_id, now, REFRESH_TOKEN_EXPIRY, refresh_jti);
    let access_token = match issue_token(state.jwt_secret(), &access_claims) {
        Ok(token) => token,
        Err(e) => {
            return Err(e);
        },
    };
    match issue_token(state.jwt_secret(), &refresh_claims) {
        Ok(refresh_token) => Ok((access_token, refresh_token)),
        Err(e) => Err(e),
    }
}

/// The record of a session that begins at `now`.
pub open spec fn new_session(
    admin: AdminUserView,
    access_token: Seq<char>,
    refresh_token: Seq<char>,
    now: int,
) -> SessionRecordView {
    SessionRecordView {
        admin_id: admin.id,
        username: admin.username,
        role: admin.role,
        access_token,
        refresh_token,
        created_at: now,
        last_activity: now,
    }
}

/// The commands that keep a session: its record under its key, and its
/// identifier under the key of its access token, both for as long as the
/// access token lasts.
pub open spec fn session_commands(
    session_id: Seq<char>,
    admin: AdminUserView,
    access_token: Seq<char>,
    refresh_token: Seq<char>,
    now: int,
) -> Seq<StoreCommandView> {
    seq![
        StoreCommandView::SetEx {
            key: session_key(session_id),
            value: new_session(admin, access_token, refresh_token, now).stored(),
            ttl: ACCESS_TOKEN_EXPIRY as int,
        },
        StoreCommandView::SetEx {
            key: token_key(access_token),
            value: session_id,
            ttl: ACCESS_TOKEN_EXPIRY as int,
        },
    ]
}

/// The commands that keep a session that begins at `now`.
pub fn save_admin_session(
    session_id: &str,
    admin: &AdminUser,
    access_token: &str,
    refresh_token: &str,
    now: i64,
) -> (commands: Vec<StoreCommand>)
    ensures
        commands_view(commands@) == session_commands(
            session_id@,
            admin@,
            access_token@,
            refresh_token@,
            now as int,
        ),
{
    let record = SessionRecord {
        admin_id: admin.id.clone(),
        username: admin.username.clone(),
        role: admin.role.clone(),
        access_token: access_token.to_owned(),
        refresh_token: refresh_token.to_owned(),
        created_at: now,
        last_activity: now,
    };
    let mut commands: Vec<StoreCommand> = Vec::new();
    commands.push(
        StoreCommand::SetEx {
            key: make_session_key(session_id),
            value: record.to_json(),
            ttl: ACCESS_TOKEN_EXPIRY as u64,
        },
    );
    commands.push(
        StoreCommand::SetEx {
            key: make_token_key(access_token),
            value: session_id.to_owned(),
            ttl: ACCESS_TOKEN_EXPIRY as u64,
        },
    );
    proof {
        assert(commands_view(commands@) =~= session_commands(
            session_id@,
            admin@,
            access_token@,
            refresh_token@,
            now as int,
        ));
    }
    commands
}

/// The answer to a login that succeeded: the session cookie, never to be
/// cached, and where to go next.
pub open spec fn login_success(access_token: Seq<char>, refresh_token: Seq<char>) -> LoginSuccessView {
    LoginSuccessView {
        set_cookie: set_cookie(access_token, refresh_token),
        cache_control: "no-store, no-cache, must-revalidate, private"@,
        body: AdminLoginResponseView {
            redirect_url: "/admin/dashboard"@,
            expires_in: ACCESS_TOKEN_EXPIRY as int,
        },
    }
}

/// The answer to a login that succeeded.
pub fn make_login_success(access_token: &str, refresh_token: &str) -> (success: LoginSuccess)
    ensures
        success@ == login_success(access_token@, refresh_token@),
{
    LoginSuccess {
        set_cookie: make_set_cookie(access_token, refresh_token),
        cache_control: String::from_str("no-store, no-cache, must-revalidate, private"),
        body: AdminLoginResponse {
            redirect_url: String::from_str("/admin/dashboard"),
            expires_in: ACCESS_TOKEN_EXPIRY,
        },
    }
}

/// Whether a login names nobody or gives no password.
pub fn blank_or_empty(username: &str, password: &str) -> (b: bool)
    ensures
        b == credentials_missing(username@, password@),
{
    blank(username) || is_empty_text(password)
}

/// How a login goes on when `count` failed logins are remembered under
/// its name. At the limit it is refused before anything is checked. A
/// login without a name or a password, and one with the wrong name or the
/// wrong password, is counted as one more failure and then refused. A
/// login that passes gets its tokens and its session, and the failures
/// under its name are forgotten.
pub open spec fn after_attempts_model(
    attempt: LoginAttemptView,
    state: AppStateView,
    count: Option<int>,
) -> (ExchangeView, StepView) {
    let seed = attempt.seed;
    match rate_limit_decision(count) {
        Err(e) => finish_model(Err(e)),
        Ok(_) => if credentials_missing(attempt.username, attempt.password) {
            play_model(failure_commands(attempt.username), Err(credentials_required()))
        } else {
            match authentication(state, attempt.username, attempt.password, seed.admin_id) {
                Err(e) => if e is Unauthorized {
                    play_model(failure_commands(attempt.username), Err(e))
                } else {
                    finish_model(Err(e))
                },
                Ok(admin) => match token_pair(
                    state.jwt_secret,
                    admin,
                    seed.session_id,
                    seed.now,
                    seed.access_jti,
                    seed.refresh_jti,
                ) {
                    Err(e) => finish_model(Err(e)),
                    Ok((access_token, refresh_token)) => play_model(
                        session_commands(
                            seed.session_id,
                            admin,
                            access_token,
                            refresh_token,
                            seed.now,
                        ).push(StoreCommandView::Del { key: attempts_key(attempt.username) }),
                        Ok(OutcomeView::LoggedIn(login_success(access_token, refresh_token))),
                    ),
                },
            }
        },
    }
}

/// Verifies the access token of a request at time `now`.
pub fn validate_admin_token(state: &AppState, token: &str, now: i64) -> (r: Result<
    AdminClaims,
    AppError,
>)
    ensures
        outcome_view(r) == verified_claims(token@, state@.jwt_secret, now as int),
{
    verify_token(state.jwt_secret(), token, now)
}

/// The command that asks whether the session of `claims` is still kept.
pub fn validate_admin_session(claims: &AdminClaims) -> (command: StoreCommand)
    ensures
        command@ == (StoreCommandView::Exists { key: session_key(claims@.session_id) }),
{
    StoreCommand::Exists { key: make_session_key(claims.session_id.as_str()) }
}

/// What is written back for a session on a request at `now`: nothing
/// where no record was found; else the record found, with the time of
/// the last activity set to `now`, to stay for as long as an access token
/// lasts from now. A record that cannot be read is an error.
pub open spec fn activity_update(session_id: Seq<char>, found: Option<Seq<char>>, now: int) -> Result<
    Option<StoreCommandView>,
    AppErrorView,
> {
    match found {
        None => Ok(None),
        Some(text) => match record_of_text(text) {
            Some(record) => Ok(
                Some(
                    StoreCommandView::SetEx {
                        key: session_key(session_id),
                        value: record.touched(now).stored(),
                        ttl: ACCESS_TOKEN_EXPIRY as int,
                    },
                ),
            ),
            None => Err(AppErrorView::JsonError),
        },
    }
}

pub open spec fn update_view(r: Result<Option<StoreCommand>, AppError>) -> Result<
    Option<StoreCommandView>,
    AppErrorView,
> {
    match r {
        Ok(Some(c)) => Ok(Some(c@)),
        Ok(None) => Ok(None),
        Err(e) => Err(e@),
    }
}

/// The command, if any, that records a request at `now` under a session
/// whose record, as far as one was found, is `found`.
pub fn update_session_activity(session_id: &str, found: Option<String>, now: i64) -> (r: Result<
    Option<StoreCommand>,
    AppError,
>)
    ensures
        update_view(r) == activity_update(
            session_id@,
            match found {
                Some(s) => Some(s@),
                None => None,
            },
            now as int,
        ),
{
    match found {
        None => Ok(None),
        Some(text) => match SessionRecord::from_json(text.as_str()) {
            Some(record) => Ok(
                Some(
                    StoreCommand::SetEx {
                        key: make_session_key(session_id),
                        value: record.touch(now).to_json(),
                        ttl: ACCESS_TOKEN_EXPIRY as u64,
                    },
                ),
            ),
            None => Err(AppError::JsonError(String::from_str("the session record cannot be read"))),
        },
    }
}

/// How a login begins. It must come with a CSRF token and with the
/// session that the token was issued to; then the token is redeemed, and
/// only a login whose token was accepted goes on.
pub open spec fn login_model(
    csrf_token: Option<Seq<char>>,
    session_id: Option<Seq<char>>,
    username: Seq<char>,
    password: Seq<char>,
    seed: LoginSeedView,
) -> (ExchangeView, StepView) {
    match csrf_token {
        None => finish_model(Err(AppErrorView::Unauthorized("Missing CSRF token"@))),
        Some(token) => match session_id {
            None => finish_model(Err(AppErrorView::Unauthorized("Missing session_id"@))),
            Some(id) => redeem_model(
                id,
                token,
                AfterCsrfView::Login(LoginAttemptView { username, password, seed }),
            ),
        },
    }
}

/// Begins a login. `csrf_token` is the value of the header
/// `X-CSRF-Token`, `session_id` that of the cookie `session_id`, each
/// `None` where the request has none.
pub fn admin_login_handler(
    csrf_token: Option<&str>,
    session_id: Option<&str>,
    payload: AdminLoginRequest,
    seed: LoginSeed,
) -> (r: (Exchange, Step))
    ensures
        r.0@ == login_model(
            view_of(csrf_token),
            view_of(session_id),
            payload.username@,
            payload.password@,
            seed@,
        ).0,
        r.1@ == login_model(
            view_of(csrf_token),
            view_of(session_id),
            payload.username@,
            payload.password@,
            seed@,
        ).1,
{
    let token = match csrf_token {
        Some(token) => token,
        None => {
            return finish(Err(AppError::unauthorized("Missing CSRF token")));
        },
    };
    let id = match session_id {
        Some(id) => id,
        None => {
            return finish(Err(AppError::unauthorized("Missing session_id")));
        },
    };
    let attempt = LoginAttempt { username: payload.username, password: payload.password, seed };
    redeem(id, token, AfterCsrf::Login(attempt))
}

/// How the guard of the admin pages begins with a request at `now`. A
/// request without the session cookie, without an access token in it, or
/// with a token that does not verify is sent to the login page. For any
/// other the store is asked whether the session is still kept.
pub open spec fn guard_model(state: AppStateView, cookie: Option<Seq<char>>, now: int) -> (
    ExchangeView,
    StepView,
) {
    match cookie {
        None => finish_model(Ok(OutcomeView::Redirected)),
        Some(value) => if access_token_of(value).len() == 0 {
            finish_model(Ok(OutcomeView::Redirected))
        } else {
            match verified_claims(access_token_of(value), state.jwt_secret, now) {
                Ok(claims) => (
                    ExchangeView::SessionLookup { claims, now },
                    StepView::Send(StoreCommandView::Exists { key: session_key(claims.session_id) }),
                ),
                Err(_) => finish_model(Ok(OutcomeView::Redirected)),
            }
        },
    }
}

/// Begins to guard a request at `now`; `cookie` is the value of the
/// session cookie, `None` where the request has none.
pub fn admit_at(state: &AppState, cookie: Option<&str>, now: i64) -> (r: (Exchange, Step))
    ensures
        r.0@ == guard_model(
            state@,
            view_of(cookie),
            now as int,
        ).0,
        r.1@ == guard_model(
            state@,
            view_of(cookie),
            now as int,
        ).1,
{
    let value = match cookie {
        Some(value) => value,
        None => {
            return finish(Ok(Outcome::Redirected));
        },
    };
    let token = read_access_token(value);
    if is_empty_text(token.as_str()) {
        return finish(Ok(Outcome::Redirected));
    }
    match validate_admin_token(state, token.as_str(), now) {
        Ok(claims) => {
            let command = validate_admin_session(&claims);
            (Exchange::SessionLookup { claims, now }, Step::Send(command))
        },
        Err(_) => finish(Ok(Outcome::Redirected)),
    }
}

/// Whether `exchange` and `step` begin the guard of a request at `now`,
/// a time that the clock can show.
pub open spec fn guarded_at(
    state: AppStateView,
    cookie: Option<Seq<char>>,
    now: int,
    exchange: ExchangeView,
    step: StepView,
) -> bool {
    &&& is_clock_time(now)
    &&& exchange == guard_model(state, cookie, now).0
    &&& step == guard_model(state, cookie, now).1
}

/// Begins to guard a request at the time of the clock.
pub fn admin_auth_middleware(state: &AppState, cookie: Option<&str>) -> (r: (Exchange, Step))
    ensures
        exists|now: int| #[trigger]
            guarded_at(
                state@,
                view_of(cookie),
                now,
                r.0@,
                r.1@,
            ),
{
    let now = current_timestamp();
    let r = admit_at(state, cookie, now);
    proof {
        assert(guarded_at(
            state@,
            view_of(cookie),
            now as int,
            r.0@,
            r.1@,
        ));
    }
    r
}

/// The commands that end a session: its record goes, and the record
/// that leads from its access token to it.
pub open spec fn logout_commands(session_id: Seq<char>, access_token: Seq<char>) -> Seq<
    StoreCommandView,
> {
    seq![
        StoreCommandView::Del { key: session_key(session_id) },
        StoreCommandView::Del { key: token_key(access_token) },
    ]
}

/// How a logout at `now` goes. With a cookie whose access token verifies,
/// the session of the token is ended: both its records are deleted, and
/// a store that fails to delete one ends the logout in that failure.
/// Without such a token the store is left alone and the request is
/// logged out all the same: a token that does not verify is no error at
/// logout.
pub open spec fn logout_model(state: AppStateView, cookie: Option<Seq<char>>, now: int) -> (
    ExchangeView,
    StepView,
) {
    match cookie {
        None => finish_model(Ok(OutcomeView::LoggedOut)),
        Some(value) => match verified_claims(access_token_of(value), state.jwt_secret, now) {
            Ok(claims) => play_model(
                logout_commands(claims.session_id, access_token_of(value)),
                Ok(OutcomeView::LoggedOut),
            ),
            Err(_) => finish_model(Ok(OutcomeView::LoggedOut)),
        },
    }
}

/// Begins a logout at `now`; `cookie` is the value of the session
/// cookie, `None` where the request has none.
pub fn logout_at(state: &AppState, cookie: Option<&str>, now: i64) -> (r: (Exchange, Step))
    ensures
        r.0@ == logout_model(
            state@,
            view_of(cookie),
            now as int,
        ).0,
        r.1@ == logout_model(
            state@,
            view_of(cookie),
            now as int,
        ).1,
{
    let value = match cookie {
        Some(value) => value,
        None => {
            return finish(Ok(Outcome::LoggedOut));
        },
    };
    let token = read_access_token(value);
    match validate_admin_token(state, token.as_str(), now) {
        Ok(claims) => {
            let mut commands: Vec<StoreCommand> = Vec::new();
            commands.push(StoreCommand::Del { key: make_session_key(claims.session_id.as_str()) });
            commands.push(StoreCommand::Del { key: make_token_key(token.as_str()) });
            proof {
                assert(commands_view(commands@) =~= logout_commands(
                    claims@.session_id,
                    access_token_of(value@),
                ));
            }
            play(commands, Ok(Outcome::LoggedOut))
        },
        Err(_) => finish(Ok(Outcome::LoggedOut)),
    }
}

/// Whether `exchange` and `step` begin a logout at `now`, a time that
/// the clock can show.
pub open spec fn logged_out_at(
    state: AppStateView,
    cookie: Option<Seq<char>>,
    now: int,
    exchange: ExchangeView,
    step: StepView,
) -> bool {
    &&& is_clock_time(now)
    &&& exchange == logout_model(state, cookie, now).0
    &&& step == logout_model(state, cookie, now).1
}

/// Begins a logout at the time of the clock.
pub fn admin_logout_handler(state: &AppState, cookie: Option<&str>) -> (r: (Exchange, Step))
    ensures
        exists|now: int| #[trigger]
            logged_out_at(
                state@,
                view_of(cookie),
                now,
                r.0@,
                r.1@,
            ),
{
    let now = current_timestamp();
    let r = logout_at(state, cookie, now);
    proof {
        assert(logged_out_at(
            state@,
            view_of(cookie),
            now as int,
            r.0@,
            r.1@,
        ));
    }
    r
}

} // verus!
