use admin_auth::auth::{admin_login_handler, AdminLoginRequest, LoginSeed};
use admin_auth::csrf::CsrfService;
use admin_auth::error::AppError;
use admin_auth::exchange::{Exchange, Outcome, Step};
use admin_auth::state::AppState;
use admin_auth::store::{MemoryStore, StoreCommand, StoreReply};

const NOW: i64 = 1_700_000_000;

fn state() -> AppState {
    let hash = bcrypt::hash("correct horse", 4).unwrap();
    AppState::new("signing-secret".to_string(), "admin".to_string(), hash).unwrap()
}

fn seed(now: i64, session: &str) -> LoginSeed {
    LoginSeed::new(
        now,
        session.to_string(),
        "0a0a0a0a-0000-4000-8000-000000000001".to_string(),
        "0a0a0a0a-0000-4000-8000-000000000002".to_string(),
        "0a0a0a0a-0000-4000-8000-000000000003".to_string(),
    )
    .unwrap()
}

fn issue(store: &mut MemoryStore, state: &AppState, session: &str, token: &str, now: i64) {
    let (exchange, step) = CsrfService::new(900).issue(session, token.to_string());
    let outcome = store.drive(state, exchange, step, now).unwrap();
    assert!(matches!(outcome, Outcome::CsrfIssued(_)));
}

fn login(
    store: &mut MemoryStore,
    state: &AppState,
    token: Option<&str>,
    session: Option<&str>,
    username: &str,
    password: &str,
    now: i64,
) -> Result<Outcome, AppError> {
    let payload =
        AdminLoginRequest { username: username.to_string(), password: password.to_string() };
    let (exchange, step) =
        admin_login_handler(token, session, payload, seed(now, "new-session-id"));
    store.drive(state, exchange, step, now)
}

fn status(result: &Result<Outcome, AppError>) -> u16 {
    match result {
        Ok(_) => 200,
        Err(e) => e.status_code(),
    }
}

fn count(store: &mut MemoryStore, key: &str, now: i64) -> Option<i64> {
    match store.execute(&StoreCommand::GetCount { key: key.to_string() }, now) {
        StoreReply::Count(c) => c,
        other => panic!("unexpected reply {:?}", other),
    }
}

#[test]
fn login_succeeds_once_per_csrf_token() {
    let state = state();
    let mut store = MemoryStore::new();
    issue(&mut store, &state, "sess-1", "tok-1", NOW);
    let first = login(&mut store, &state, Some("tok-1"), Some("sess-1"), "admin", "correct horse", NOW);
    match first {
        Ok(Outcome::LoggedIn(success)) => {
            assert_eq!(success.body.redirect_url, "/admin/dashboard");
            assert_eq!(success.body.expires_in, 3600);
            assert_eq!(success.cache_control, "no-store, no-cache, must-revalidate, private");
            assert!(success.set_cookie.starts_with("__Secure-admin-session="));
            assert!(success
                .set_cookie
                .ends_with("; HttpOnly; Secure; SameSite=Strict; Path=/; Max-Age=3600"));
        }
        other => panic!("login did not succeed: {:?}", other),
    }
    assert!(store.holds("admin_session:new-session-id", NOW));
    assert!(!store.holds("csrf:sess-1:tok-1", NOW));
    let second = login(&mut store, &state, Some("tok-1"), Some("sess-1"), "admin", "correct horse", NOW + 1);
    match second {
        Err(AppError::Unauthorized(words)) => assert_eq!(words, "Invalid or expired CSRF token"),
        other => panic!("second login was not refused: {:?}", other),
    }
}

#[test]
fn login_without_csrf_token_is_unauthorized() {
    let state = state();
    let mut store = MemoryStore::new();
    let result = login(&mut store, &state, None, Some("sess-1"), "admin", "correct horse", NOW);
    match result {
        Err(AppError::Unauthorized(words)) => assert_eq!(words, "Missing CSRF token"),
        other => panic!("unexpected {:?}", other),
    }
}

#[test]
fn login_without_session_cookie_is_unauthorized() {
    let state = state();
    let mut store = MemoryStore::new();
    let result = login(&mut store, &state, Some("tok-1"), None, "admin", "correct horse", NOW);
    match result {
        Err(AppError::Unauthorized(words)) => assert_eq!(words, "Missing session_id"),
        other => panic!("unexpected {:?}", other),
    }
}

#[test]
fn login_with_expired_csrf_token_is_unauthorized() {
    let state = state();
    let mut store = MemoryStore::new();
    issue(&mut store, &state, "sess-1", "tok-1", NOW);
    let result =
        login(&mut store, &state, Some("tok-1"), Some("sess-1"), "admin", "correct horse", NOW + 900);
    assert_eq!(status(&result), 401);
    assert!(matches!(result, Err(AppError::Unauthorized(_))));
}

#[test]
fn wrong_username_is_answered_like_wrong_password() {
    let state = state();
    let mut store = MemoryStore::new();
    issue(&mut store, &state, "sess-1", "tok-1", NOW);
    issue(&mut store, &state, "sess-1", "tok-2", NOW);
    let wrong_name =
        login(&mut store, &state, Some("tok-1"), Some("sess-1"), "root", "correct horse", NOW);
    let wrong_password =
        login(&mut store, &state, Some("tok-2"), Some("sess-1"), "admin", "battery staple", NOW);
    match (wrong_name, wrong_password) {
        (Err(AppError::Unauthorized(a)), Err(AppError::Unauthorized(b))) => {
            assert_eq!(a, "Invalid credentials");
            assert_eq!(a, b);
        }
        other => panic!("unexpected {:?}", other),
    }
    assert_eq!(count(&mut store, "login_attempts:root", NOW), Some(1));
    assert_eq!(count(&mut store, "login_attempts:admin", NOW), Some(1));
}

#[test]
fn empty_credentials_are_a_bad_request_and_counted() {
    let state = state();
    let mut store = MemoryStore::new();
    issue(&mut store, &state, "sess-1", "tok-1", NOW);
    issue(&mut store, &state, "sess-1", "tok-2", NOW);
    let blank_name = login(&mut store, &state, Some("tok-1"), Some("sess-1"), " \t", "x", NOW);
    match &blank_name {
        Err(AppError::BadRequest(words)) => assert_eq!(words, "Username and password are required"),
        other => panic!("unexpected {:?}", other),
    }
    assert_eq!(status(&blank_name), 400);
    assert_eq!(count(&mut store, "login_attempts: \t", NOW), Some(1));
    let no_password = login(&mut store, &state, Some("tok-2"), Some("sess-1"), "admin", "", NOW);
    assert_eq!(status(&no_password), 400);
    assert_eq!(count(&mut store, "login_attempts:admin", NOW), Some(1));
}

#[test]
fn sixth_attempt_is_rate_limited_whatever_the_password() {
    let state = state();
    let mut store = MemoryStore::new();
    for i in 0..5 {
        let token = format!("tok-{}", i);
        issue(&mut store, &state, "sess-1", &token, NOW + i);
        let result =
            login(&mut store, &state, Some(&token), Some("sess-1"), "admin", "wrong", NOW + i);
        assert_eq!(status(&result), 401);
    }
    assert_eq!(count(&mut store, "login_attempts:admin", NOW + 5), Some(5));
    issue(&mut store, &state, "sess-1", "tok-6", NOW + 5);
    let sixth =
        login(&mut store, &state, Some("tok-6"), Some("sess-1"), "admin", "correct horse", NOW + 5);
    assert_eq!(status(&sixth), 429);
    match sixth {
        Err(AppError::TooManyRequests(words)) => {
            assert_eq!(words, "Too many login attempts. Please try again later.")
        }
        other => panic!("unexpected {:?}", other),
    }
    issue(&mut store, &state, "sess-1", "tok-7", NOW + 6);
    let seventh = login(&mut store, &state, Some("tok-7"), Some("sess-1"), "admin", "wrong", NOW + 6);
    assert_eq!(status(&seventh), 429);
    assert_eq!(count(&mut store, "login_attempts:admin", NOW + 6), Some(5));
}

#[test]
fn limit_lifts_when_the_window_has_passed() {
    let state = state();
    let mut store = MemoryStore::new();
    for i in 0..5 {
        let token = format!("tok-{}", i);
        issue(&mut store, &state, "sess-1", &token, NOW);
        let result = login(&mut store, &state, Some(&token), Some("sess-1"), "admin", "wrong", NOW);
        assert_eq!(status(&result), 401);
    }
    issue(&mut store, &state, "sess-1", "tok-a", NOW + 899);
    let blocked =
        login(&mut store, &state, Some("tok-a"), Some("sess-1"), "admin", "correct horse", NOW + 899);
    assert_eq!(status(&blocked), 429);
    issue(&mut store, &state, "sess-1", "tok-b", NOW + 900);
    let allowed =
        login(&mut store, &state, Some("tok-b"), Some("sess-1"), "admin", "correct horse", NOW + 900);
    assert_eq!(status(&allowed), 200);
}

#[test]
fn each_failure_postpones_the_end_of_the_window() {
    let state = state();
    let mut store = MemoryStore::new();
    issue(&mut store, &state, "sess-1", "tok-1", NOW);
    let _ = login(&mut store, &state, Some("tok-1"), Some("sess-1"), "admin", "wrong", NOW);
    issue(&mut store, &state, "sess-1", "tok-2", NOW + 800);
    let _ = login(&mut store, &state, Some("tok-2"), Some("sess-1"), "admin", "wrong", NOW + 800);
    assert_eq!(count(&mut store, "login_attempts:admin", NOW + 1699), Some(2));
    assert_eq!(count(&mut store, "login_attempts:admin", NOW + 1700), None);
}

#[test]
fn successful_login_clears_the_failures() {
    let state = state();
    let mut store = MemoryStore::new();
    for i in 0..4 {
        let token = format!("tok-{}", i);
        issue(&mut store, &state, "sess-1", &token, NOW);
        let result = login(&mut store, &state, Some(&token), Some("sess-1"), "admin", "wrong", NOW);
        assert_eq!(status(&result), 401);
    }
    issue(&mut store, &state, "sess-1", "tok-ok", NOW);
    let ok = login(&mut store, &state, Some("tok-ok"), Some("sess-1"), "admin", "correct horse", NOW);
    assert_eq!(status(&ok), 200);
    assert_eq!(count(&mut store, "login_attempts:admin", NOW), None);
}

#[test]
fn store_failure_ends_a_login_with_the_stores_words() {
    let state = state();
    let payload = AdminLoginRequest { username: "admin".to_string(), password: "x".to_string() };
    let (exchange, step) =
        admin_login_handler(Some("tok"), Some("sess"), payload, seed(NOW, "new-session-id"));
    match &step {
        Step::Send(StoreCommand::Exists { key }) => assert_eq!(key, "csrf:sess:tok"),
        other => panic!("unexpected {:?}", other),
    }
    let (exchange, step) = exchange.resume(&state, StoreReply::Failed("connection reset".to_string()));
    assert!(matches!(exchange, Exchange::Finished));
    match step {
        Step::Finish(Err(AppError::RedisError(words))) => {
            assert_eq!(words, "connection reset");
        }
        other => panic!("unexpected {:?}", other),
    }
}

#[test]
fn login_sends_its_commands_in_order() {
    let state = state();
    let payload =
        AdminLoginRequest { username: "admin".to_string(), password: "correct horse".to_string() };
    let (exchange, step) =
        admin_login_handler(Some("tok"), Some("sess"), payload, seed(NOW, "sid"));
    assert!(matches!(step, Step::Send(StoreCommand::Exists { .. })));
    let (exchange, step) = exchange.resume(&state, StoreReply::Found(true));
    match &step {
        Step::Send(StoreCommand::Del { key }) => assert_eq!(key, "csrf:sess:tok"),
        other => panic!("unexpected {:?}", other),
    }
    let (exchange, step) = exchange.resume(&state, StoreReply::Done);
    match &step {
        Step::Send(StoreCommand::GetCount { key }) => assert_eq!(key, "login_attempts:admin"),
        other => panic!("unexpected {:?}", other),
    }
    let (exchange, step) = exchange.resume(&state, StoreReply::Count(Some(4)));
    match &step {
        Step::Send(StoreCommand::SetEx { key, ttl, .. }) => {
            assert_eq!(key, "admin_session:sid");
            assert_eq!(*ttl, 3600);
        }
        other => panic!("unexpected {:?}", other),
    }
    let (exchange, step) = exchange.resume(&state, StoreReply::Done);
    match &step {
        Step::Send(StoreCommand::SetEx { key, value, ttl }) => {
            assert!(key.starts_with("token_session:"));
            assert_eq!(value, "sid");
            assert_eq!(*ttl, 3600);
        }
        other => panic!("unexpected {:?}", other),
    }
    let (exchange, step) = exchange.resume(&state, StoreReply::Done);
    match &step {
        Step::Send(StoreCommand::Del { key }) => assert_eq!(key, "login_attempts:admin"),
        other => panic!("unexpected {:?}", other),
    }
    let (exchange, step) = exchange.resume(&state, StoreReply::Done);
    assert!(matches!(step, Step::Finish(Ok(Outcome::LoggedIn(_)))));
    let (_, step) = exchange.resume(&state, StoreReply::Done);
    match step {
        Step::Finish(Err(AppError::RedisError(words))) => assert_eq!(words, "no command is pending"),
        other => panic!("unexpected {:?}", other),
    }
}

#[test]
fn failed_login_counts_and_sets_the_window() {
    let state = state();
    let payload = AdminLoginRequest { username: "admin".to_string(), password: "wrong".to_string() };
    let (exchange, _) = admin_login_handler(Some("tok"), Some("sess"), payload, seed(NOW, "sid"));
    let (exchange, _) = exchange.resume(&state, StoreReply::Found(true));
    let (exchange, _) = exchange.resume(&state, StoreReply::Done);
    let (exchange, step) = exchange.resume(&state, StoreReply::Count(None));
    match &step {
        Step::Send(StoreCommand::Incr { key }) => assert_eq!(key, "login_attempts:admin"),
        other => panic!("unexpected {:?}", other),
    }
    let (exchange, step) = exchange.resume(&state, StoreReply::Done);
    match &step {
        Step::Send(StoreCommand::Expire { key, seconds }) => {
            assert_eq!(key, "login_attempts:admin");
            assert_eq!(*seconds, 900);
        }
        other => panic!("unexpected {:?}", other),
    }
    let (_, step) = exchange.resume(&state, StoreReply::Done);
    assert!(matches!(step, Step::Finish(Err(AppError::Unauthorized(_)))));
}

#[test]
fn unexpected_reply_ends_the_exchange() {
    let state = state();
    let payload = AdminLoginRequest { username: "admin".to_string(), password: "x".to_string() };
    let (exchange, _) = admin_login_handler(Some("tok"), Some("sess"), payload, seed(NOW, "sid"));
    let (_, step) = exchange.resume(&state, StoreReply::Done);
    match step {
        Step::Finish(Err(AppError::RedisError(words))) => {
            assert_eq!(words, "unexpected reply from the store")
        }
        other => panic!("unexpected {:?}", other),
    }
}

#[test]
fn seed_is_refused_for_a_time_no_clock_shows() {
    assert!(LoginSeed::new(-1, String::new(), String::new(), String::new(), String::new()).is_none());
    assert!(LoginSeed::new(i64::MAX, String::new(), String::new(), String::new(), String::new())
        .is_none());
    assert!(LoginSeed::new(0, String::new(), String::new(), String::new(), String::new()).is_some());
}

#[test]
fn drawn_seed_has_uuids_and_a_recent_time() {
    let seed = LoginSeed::draw();
    assert!(seed.now() > 1_600_000_000);
    for id in [seed.session_id(), seed.admin_id(), seed.access_jti(), seed.refresh_jti()] {
        assert_eq!(id.len(), 36);
        for (i, c) in id.chars().enumerate() {
            if i == 8 || i == 13 || i == 18 || i == 23 {
                assert_eq!(c, '-');
            } else {
                assert!(c.is_ascii_digit() || ('a'..='f').contains(&c));
            }
        }
    }
    assert_ne!(seed.session_id(), seed.admin_id());
}
