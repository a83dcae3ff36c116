use admin_auth::auth::{
    admin_auth_middleware, admin_login_handler, admin_logout_handler, admit_at, logout_at,
    update_session_activity, validate_admin_session, validate_admin_token, AdminLoginRequest,
    LoginSeed,
};
use admin_auth::csrf::CsrfService;
use admin_auth::error::AppError;
use admin_auth::exchange::{Exchange, Outcome, Step};
use admin_auth::session::{cookie_name, make_set_cookie, read_access_token, SessionRecord};
use admin_auth::state::AppState;
use admin_auth::store::{MemoryStore, StoreCommand, StoreReply};
use admin_auth::token::{issue_token, verify_token, AdminClaims};

const NOW: i64 = 1_700_000_000;
const SESSION: &str = "5e55105e-0000-4000-8000-00000000abcd";

fn state() -> AppState {
    let hash = bcrypt::hash("correct horse", 4).unwrap();
    AppState::new("signing-secret".to_string(), "admin".to_string(), hash).unwrap()
}

fn log_in(store: &mut MemoryStore, state: &AppState, now: i64) -> String {
    let (exchange, step) = CsrfService::new(900).issue("page", "tok".to_string());
    store.drive(state, exchange, step, now).unwrap();
    let seed = LoginSeed::new(
        now,
        SESSION.to_string(),
        "0a0a0a0a-0000-4000-8000-000000000001".to_string(),
        "0a0a0a0a-0000-4000-8000-000000000002".to_string(),
        "0a0a0a0a-0000-4000-8000-000000000003".to_string(),
    )
    .unwrap();
    let payload =
        AdminLoginRequest { username: "admin".to_string(), password: "correct horse".to_string() };
    let (exchange, step) = admin_login_handler(Some("tok"), Some("page"), payload, seed);
    match store.drive(state, exchange, step, now) {
        Ok(Outcome::LoggedIn(success)) => {
            let rest = success.set_cookie.strip_prefix("__Secure-admin-session=").unwrap();
            rest.split(';').next().unwrap().to_string()
        }
        other => panic!("login failed: {:?}", other),
    }
}

fn guard(store: &mut MemoryStore, state: &AppState, cookie: Option<&str>, now: i64) -> Result<Outcome, AppError> {
    let (exchange, step) = admit_at(state, cookie, now);
    store.drive(state, exchange, step, now)
}

fn read_record(store: &mut MemoryStore, now: i64) -> SessionRecord {
    let key = format!("admin_session:{}", SESSION);
    match store.execute(&StoreCommand::GetText { key }, now) {
        StoreReply::Text(Some(text)) => SessionRecord::from_json(&text).unwrap(),
        other => panic!("no record: {:?}", other),
    }
}

#[test]
fn session_is_found_after_login_and_gone_after_logout() {
    let state = state();
    let mut store = MemoryStore::new();
    let cookie = log_in(&mut store, &state, NOW);
    match guard(&mut store, &state, Some(&cookie), NOW) {
        Ok(Outcome::Admitted(claims)) => {
            assert_eq!(claims.session_id, SESSION);
            assert_eq!(claims.sub, "0a0a0a0a-0000-4000-8000-000000000001");
            assert_eq!(claims.jti, "0a0a0a0a-0000-4000-8000-000000000002");
            assert_eq!(claims.role, "admin");
            assert_eq!(claims.iat, NOW);
            assert_eq!(claims.exp, NOW + 3600);
        }
        other => panic!("not admitted: {:?}", other),
    }
    let (exchange, step) = logout_at(&state, Some(&cookie), NOW + 1);
    assert!(matches!(store.drive(&state, exchange, step, NOW + 1), Ok(Outcome::LoggedOut)));
    assert!(!store.holds(&format!("admin_session:{}", SESSION), NOW + 1));
    let access = read_access_token(&cookie);
    assert!(!store.holds(&format!("token_session:{}", access), NOW + 1));
    assert!(matches!(guard(&mut store, &state, Some(&cookie), NOW + 2), Ok(Outcome::Redirected)));
}

#[test]
fn cookie_carries_both_tokens_for_one_session() {
    let state = state();
    let mut store = MemoryStore::new();
    let cookie = log_in(&mut store, &state, NOW);
    let mut parts = cookie.splitn(2, ':');
    let access = parts.next().unwrap();
    let refresh = parts.next().unwrap();
    let access_claims = verify_token("signing-secret", access, NOW).unwrap();
    let refresh_claims = verify_token("signing-secret", refresh, NOW).unwrap();
    assert_eq!(access_claims.session_id, refresh_claims.session_id);
    assert_eq!(access_claims.exp, NOW + 3600);
    assert_eq!(refresh_claims.exp, NOW + 7 * 86400);
    assert_ne!(access_claims.jti, refresh_claims.jti);
    assert_ne!(access, refresh);
    assert!(store.holds(&format!("token_session:{}", access), NOW));
    let key = format!("token_session:{}", access);
    match store.execute(&StoreCommand::GetText { key }, NOW) {
        StoreReply::Text(Some(id)) => assert_eq!(id, SESSION),
        other => panic!("unexpected {:?}", other),
    }
}

#[test]
fn guard_redirects_without_cookie_or_token() {
    let state = state();
    let mut store = MemoryStore::new();
    assert!(matches!(guard(&mut store, &state, None, NOW), Ok(Outcome::Redirected)));
    assert!(matches!(guard(&mut store, &state, Some(""), NOW), Ok(Outcome::Redirected)));
    assert!(matches!(guard(&mut store, &state, Some(":refresh"), NOW), Ok(Outcome::Redirected)));
    assert!(matches!(guard(&mut store, &state, Some("not-a-token:x"), NOW), Ok(Outcome::Redirected)));
}

#[test]
fn guard_redirects_when_the_session_is_not_kept() {
    let state = state();
    let mut store = MemoryStore::new();
    let cookie = log_in(&mut store, &state, NOW);
    let mut elsewhere = MemoryStore::new();
    assert!(matches!(guard(&mut elsewhere, &state, Some(&cookie), NOW), Ok(Outcome::Redirected)));
}

#[test]
fn guard_reports_a_store_failure_at_the_lookup() {
    let state = state();
    let mut store = MemoryStore::new();
    let cookie = log_in(&mut store, &state, NOW);
    let (exchange, step) = admit_at(&state, Some(&cookie), NOW);
    match &step {
        Step::Send(StoreCommand::Exists { key }) => {
            assert_eq!(key, &format!("admin_session:{}", SESSION))
        }
        other => panic!("unexpected {:?}", other),
    }
    let (exchange, step) = exchange.resume(&state, StoreReply::Failed("down".to_string()));
    assert!(matches!(exchange, Exchange::Finished));
    match step {
        Step::Finish(Err(e)) => {
            assert_eq!(e.status_code(), 500);
            assert_eq!(e.message(), "Redis error: down");
        }
        other => panic!("unexpected {:?}", other),
    }
}

#[test]
fn guard_redirects_only_when_the_store_says_the_session_is_gone() {
    let state = state();
    let mut store = MemoryStore::new();
    let cookie = log_in(&mut store, &state, NOW);
    let (exchange, _) = admit_at(&state, Some(&cookie), NOW);
    let (exchange, step) = exchange.resume(&state, StoreReply::Found(false));
    assert!(matches!(exchange, Exchange::Finished));
    assert!(matches!(step, Step::Finish(Ok(Outcome::Redirected))));
    let (exchange, _) = admit_at(&state, Some(&cookie), NOW);
    let (_, step) = exchange.resume(&state, StoreReply::Done);
    match step {
        Step::Finish(Err(AppError::RedisError(words))) => {
            assert_eq!(words, "unexpected reply from the store")
        }
        other => panic!("unexpected {:?}", other),
    }
}

#[test]
fn guard_reports_a_store_failure_after_the_lookup() {
    let state = state();
    let mut store = MemoryStore::new();
    let cookie = log_in(&mut store, &state, NOW);
    let (exchange, _) = admit_at(&state, Some(&cookie), NOW);
    let (exchange, step) = exchange.resume(&state, StoreReply::Found(true));
    assert!(matches!(step, Step::Send(StoreCommand::GetText { .. })));
    let (_, step) = exchange.resume(&state, StoreReply::Failed("down".to_string()));
    match step {
        Step::Finish(Err(AppError::RedisError(words))) => assert_eq!(words, "down"),
        other => panic!("unexpected {:?}", other),
    }
}

#[test]
fn guard_admits_when_the_record_vanished_between_lookup_and_read() {
    let state = state();
    let mut store = MemoryStore::new();
    let cookie = log_in(&mut store, &state, NOW);
    let (exchange, _) = admit_at(&state, Some(&cookie), NOW);
    let (exchange, _) = exchange.resume(&state, StoreReply::Found(true));
    let (_, step) = exchange.resume(&state, StoreReply::Text(None));
    assert!(matches!(step, Step::Finish(Ok(Outcome::Admitted(_)))));
}

#[test]
fn guard_reports_a_record_that_cannot_be_read() {
    let state = state();
    let mut store = MemoryStore::new();
    let cookie = log_in(&mut store, &state, NOW);
    let (exchange, _) = admit_at(&state, Some(&cookie), NOW);
    let (exchange, _) = exchange.resume(&state, StoreReply::Found(true));
    let (_, step) = exchange.resume(&state, StoreReply::Text(Some("[1, 2]".to_string())));
    match step {
        Step::Finish(Err(e)) => {
            assert!(matches!(e, AppError::JsonError(_)));
            assert_eq!(e.status_code(), 500);
        }
        other => panic!("unexpected {:?}", other),
    }
}

#[test]
fn activity_changes_only_the_time_of_last_activity() {
    let state = state();
    let mut store = MemoryStore::new();
    let cookie = log_in(&mut store, &state, NOW);
    let before = read_record(&mut store, NOW);
    assert_eq!(before.created_at, NOW);
    assert_eq!(before.last_activity, NOW);
    assert!(matches!(guard(&mut store, &state, Some(&cookie), NOW + 100), Ok(Outcome::Admitted(_))));
    let after = read_record(&mut store, NOW + 100);
    assert_eq!(after.last_activity, NOW + 100);
    assert_eq!(after.created_at, before.created_at);
    assert_eq!(after.admin_id, before.admin_id);
    assert_eq!(after.username, before.username);
    assert_eq!(after.role, before.role);
    assert_eq!(after.access_token, before.access_token);
    assert_eq!(after.refresh_token, before.refresh_token);
}

#[test]
fn activity_extends_the_session_and_adds_no_record() {
    let state = state();
    let mut store = MemoryStore::new();
    let cookie = log_in(&mut store, &state, NOW);
    let key = format!("admin_session:{}", SESSION);
    assert!(store.holds(&key, NOW + 3599));
    assert!(!store.holds(&key, NOW + 3600));
    assert!(matches!(guard(&mut store, &state, Some(&cookie), NOW + 3000), Ok(Outcome::Admitted(_))));
    assert!(store.holds(&key, NOW + 3000 + 3599));
    assert!(!store.holds(&key, NOW + 3000 + 3600));
    assert!(matches!(guard(&mut store, &state, Some(&cookie), NOW + 3599), Ok(Outcome::Admitted(_))));
    assert!(store.holds(&key, NOW + 3599 + 3599));
    assert!(!store.holds("admin_session:", NOW + 3599));
}

#[test]
fn guard_redirects_once_the_token_has_expired() {
    let state = state();
    let mut store = MemoryStore::new();
    let cookie = log_in(&mut store, &state, NOW);
    assert!(matches!(guard(&mut store, &state, Some(&cookie), NOW + 3000), Ok(Outcome::Admitted(_))));
    assert!(matches!(guard(&mut store, &state, Some(&cookie), NOW + 3601), Ok(Outcome::Redirected)));
}

#[test]
fn logout_passes_over_a_token_that_does_not_verify() {
    let state = state();
    let mut store = MemoryStore::new();
    for cookie in [None, Some(""), Some("garbage"), Some("a:b")] {
        let (exchange, step) = logout_at(&state, cookie, NOW);
        assert!(matches!(exchange, Exchange::Finished));
        assert!(matches!(step, Step::Finish(Ok(Outcome::LoggedOut))));
    }
    let (exchange, step) = admin_logout_handler(&state, None);
    assert!(matches!(store.drive(&state, exchange, step, NOW), Ok(Outcome::LoggedOut)));
}

#[test]
fn logout_reports_a_store_that_fails_on_the_first_delete() {
    let state = state();
    let mut store = MemoryStore::new();
    let cookie = log_in(&mut store, &state, NOW);
    let (exchange, step) = logout_at(&state, Some(&cookie), NOW);
    match &step {
        Step::Send(StoreCommand::Del { key }) => {
            assert_eq!(key, &format!("admin_session:{}", SESSION))
        }
        other => panic!("unexpected {:?}", other),
    }
    let (exchange, step) = exchange.resume(&state, StoreReply::Failed("down".to_string()));
    assert!(matches!(exchange, Exchange::Finished));
    match step {
        Step::Finish(Err(e)) => {
            assert!(matches!(e, AppError::RedisError(_)));
            assert_eq!(e.status_code(), 500);
            assert_eq!(e.message(), "Redis error: down");
        }
        other => panic!("unexpected {:?}", other),
    }
}

#[test]
fn logout_reports_a_store_that_fails_on_the_second_delete() {
    let state = state();
    let mut store = MemoryStore::new();
    let cookie = log_in(&mut store, &state, NOW);
    let (exchange, _) = logout_at(&state, Some(&cookie), NOW);
    let (exchange, step) = exchange.resume(&state, StoreReply::Done);
    match &step {
        Step::Send(StoreCommand::Del { key }) => assert!(key.starts_with("token_session:")),
        other => panic!("unexpected {:?}", other),
    }
    let (exchange, step) = exchange.resume(&state, StoreReply::Failed("gone away".to_string()));
    assert!(matches!(exchange, Exchange::Finished));
    match step {
        Step::Finish(Err(AppError::RedisError(words))) => assert_eq!(words, "gone away"),
        other => panic!("unexpected {:?}", other),
    }
}

#[test]
fn logout_ends_when_both_deletes_are_done() {
    let state = state();
    let mut store = MemoryStore::new();
    let cookie = log_in(&mut store, &state, NOW);
    let (exchange, _) = logout_at(&state, Some(&cookie), NOW);
    let (exchange, _) = exchange.resume(&state, StoreReply::Done);
    let (exchange, step) = exchange.resume(&state, StoreReply::Done);
    assert!(matches!(exchange, Exchange::Finished));
    assert!(matches!(step, Step::Finish(Ok(Outcome::LoggedOut))));
}

#[test]
fn middleware_and_logout_use_the_clock() {
    let state = state();
    let mut store = MemoryStore::new();
    let now = chrono::Utc::now().timestamp();
    let cookie = log_in(&mut store, &state, now);
    let (exchange, step) = admin_auth_middleware(&state, Some(&cookie));
    assert!(matches!(store.drive(&state, exchange, step, now), Ok(Outcome::Admitted(_))));
    let (exchange, step) = admin_logout_handler(&state, Some(&cookie));
    assert!(matches!(store.drive(&state, exchange, step, now), Ok(Outcome::LoggedOut)));
    let (exchange, step) = admin_auth_middleware(&state, Some(&cookie));
    assert!(matches!(store.drive(&state, exchange, step, now), Ok(Outcome::Redirected)));
}

#[test]
fn token_is_refused_under_another_secret_or_algorithm() {
    let state = state();
    let claims = AdminClaims {
        sub: "id".to_string(),
        iat: NOW,
        exp: NOW + 3600,
        jti: "jti".to_string(),
        role: "admin".to_string(),
        session_id: "sid".to_string(),
    };
    let token = issue_token("signing-secret", &claims).unwrap();
    assert_eq!(token.matches('.').count(), 2);
    assert!(validate_admin_token(&state, &token, NOW).is_ok());
    assert!(matches!(verify_token("another-secret", &token, NOW), Err(AppError::Unauthorized(_))));
    let mut object = serde_json::Map::new();
    object.insert("sub".to_string(), serde_json::Value::from("id"));
    object.insert("iat".to_string(), serde_json::Value::from(NOW));
    object.insert("exp".to_string(), serde_json::Value::from(NOW + 3600));
    object.insert("jti".to_string(), serde_json::Value::from("jti"));
    object.insert("role".to_string(), serde_json::Value::from("admin"));
    object.insert("session_id".to_string(), serde_json::Value::from("sid"));
    let key = jsonwebtoken::EncodingKey::from_secret("signing-secret".as_bytes());
    let stronger = jsonwebtoken::encode(
        &jsonwebtoken::Header::new(jsonwebtoken::Algorithm::HS384),
        &object,
        &key,
    )
    .unwrap();
    match validate_admin_token(&state, &stronger, NOW) {
        Err(AppError::Unauthorized(words)) => assert_eq!(words, "Invalid or expired token"),
        other => panic!("unexpected {:?}", other),
    }
    let same = jsonwebtoken::encode(&jsonwebtoken::Header::default(), &object, &key).unwrap();
    assert_eq!(same, token);
}

#[test]
fn token_passes_until_its_expiry_and_not_after() {
    let claims = AdminClaims {
        sub: "id".to_string(),
        iat: NOW,
        exp: NOW + 10,
        jti: "jti".to_string(),
        role: "admin".to_string(),
        session_id: "sid".to_string(),
    };
    let token = issue_token("k", &claims).unwrap();
    assert!(verify_token("k", &token, NOW + 10).is_ok());
    assert!(verify_token("k", &token, NOW + 11).is_err());
    assert!(verify_token("k", &token, 0).is_ok());
    let kept = claims.duplicate().check_expiry(NOW + 10).unwrap();
    assert_eq!(kept.exp, NOW + 10);
    match claims.check_expiry(NOW + 11) {
        Err(e) => assert_eq!(e.status_code(), 401),
        Ok(_) => panic!("expired claims passed"),
    }
}

#[test]
fn token_without_a_claim_is_refused() {
    let key = jsonwebtoken::EncodingKey::from_secret("k".as_bytes());
    let mut object = serde_json::Map::new();
    object.insert("sub".to_string(), serde_json::Value::from("id"));
    object.insert("iat".to_string(), serde_json::Value::from(NOW));
    object.insert("exp".to_string(), serde_json::Value::from(NOW + 3600));
    object.insert("jti".to_string(), serde_json::Value::from("jti"));
    object.insert("role".to_string(), serde_json::Value::from("admin"));
    let token = jsonwebtoken::encode(&jsonwebtoken::Header::default(), &object, &key).unwrap();
    assert!(verify_token("k", &token, NOW).is_err());
    object.insert("session_id".to_string(), serde_json::Value::from(7));
    let token = jsonwebtoken::encode(&jsonwebtoken::Header::default(), &object, &key).unwrap();
    assert!(verify_token("k", &token, NOW).is_err());
    object.insert("session_id".to_string(), serde_json::Value::from("sid"));
    object.insert("extra".to_string(), serde_json::Value::from(true));
    let token = jsonwebtoken::encode(&jsonwebtoken::Header::default(), &object, &key).unwrap();
    assert_eq!(verify_token("k", &token, NOW).unwrap().session_id, "sid");
}

#[test]
fn claims_need_all_six_parts() {
    let full = AdminClaims::from_parts(
        Some("s".to_string()),
        Some(1),
        Some(2),
        Some("j".to_string()),
        Some("r".to_string()),
        Some("i".to_string()),
    )
    .unwrap();
    assert_eq!((full.iat, full.exp), (1, 2));
    assert!(AdminClaims::from_parts(
        Some("s".to_string()),
        Some(1),
        None,
        Some("j".to_string()),
        Some("r".to_string()),
        Some("i".to_string()),
    )
    .is_none());
}

#[test]
fn session_record_is_written_as_compact_json() {
    let record = SessionRecord {
        admin_id: "id".to_string(),
        username: "admin \"root\"".to_string(),
        role: "admin".to_string(),
        access_token: "a".to_string(),
        refresh_token: "r".to_string(),
        created_at: 1,
        last_activity: -2,
    };
    let text = record.to_json();
    assert_eq!(
        text,
        "{\"access_token\":\"a\",\"admin_id\":\"id\",\"created_at\":1,\"last_activity\":-2,\
\"refresh_token\":\"r\",\"role\":\"admin\",\"username\":\"admin \\\"root\\\"\"}"
    );
    let back = SessionRecord::from_json(&text).unwrap();
    assert_eq!(back.username, "admin \"root\"");
    assert_eq!(back.last_activity, -2);
    let touched = back.touch(99);
    assert_eq!(touched.last_activity, 99);
    assert_eq!(touched.created_at, 1);
    assert_eq!(touched.admin_id, "id");
}

#[test]
fn session_record_needs_every_member_in_its_kind() {
    assert!(SessionRecord::from_json("").is_none());
    assert!(SessionRecord::from_json("null").is_none());
    assert!(SessionRecord::from_json("{}").is_none());
    let missing = "{\"access_token\":\"a\",\"admin_id\":\"id\",\"created_at\":1,\
\"refresh_token\":\"r\",\"role\":\"admin\",\"username\":\"u\"}";
    assert!(SessionRecord::from_json(missing).is_none());
    let wrong_kind = "{\"access_token\":\"a\",\"admin_id\":\"id\",\"created_at\":\"1\",\
\"last_activity\":1,\"refresh_token\":\"r\",\"role\":\"admin\",\"username\":\"u\"}";
    assert!(SessionRecord::from_json(wrong_kind).is_none());
    let fraction = "{\"access_token\":\"a\",\"admin_id\":\"id\",\"created_at\":1.5,\
\"last_activity\":1,\"refresh_token\":\"r\",\"role\":\"admin\",\"username\":\"u\"}";
    assert!(SessionRecord::from_json(fraction).is_none());
    assert!(SessionRecord::from_parts(None, None, None, None, None, None, None).is_none());
}

#[test]
fn activity_update_writes_the_record_back_for_an_hour() {
    let record = SessionRecord {
        admin_id: "id".to_string(),
        username: "admin".to_string(),
        role: "admin".to_string(),
        access_token: "a".to_string(),
        refresh_token: "r".to_string(),
        created_at: 1,
        last_activity: 1,
    };
    match update_session_activity("sid", Some(record.to_json()), 50) {
        Ok(Some(StoreCommand::SetEx { key, value, ttl })) => {
            assert_eq!(key, "admin_session:sid");
            assert_eq!(ttl, 3600);
            assert_eq!(SessionRecord::from_json(&value).unwrap().last_activity, 50);
        }
        other => panic!("unexpected {:?}", other),
    }
    assert!(matches!(update_session_activity("sid", None, 50), Ok(None)));
    assert!(matches!(
        update_session_activity("sid", Some("{".to_string()), 50),
        Err(AppError::JsonError(_))
    ));
}

#[test]
fn session_lookup_asks_for_the_session_of_the_claims() {
    let claims = AdminClaims {
        sub: "id".to_string(),
        iat: 0,
        exp: 1,
        jti: "j".to_string(),
        role: "admin".to_string(),
        session_id: "abc".to_string(),
    };
    match validate_admin_session(&claims) {
        StoreCommand::Exists { key } => assert_eq!(key, "admin_session:abc"),
        other => panic!("unexpected {:?}", other),
    }
}

#[test]
fn set_cookie_header_is_exact() {
    assert_eq!(
        make_set_cookie("ACCESS", "REFRESH"),
        "__Secure-admin-session=ACCESS:REFRESH; HttpOnly; Secure; SameSite=Strict; Path=/; Max-Age=3600"
    );
    assert_eq!(cookie_name(), "__Secure-admin-session");
    assert_eq!(read_access_token("ACCESS:REFRESH"), "ACCESS");
    assert_eq!(read_access_token("a:b:c"), "a");
    assert_eq!(read_access_token("no-colon"), "no-colon");
    assert_eq!(read_access_token(":x"), "");
    assert_eq!(read_access_token(""), "");
}

#[test]
fn logout_ends_one_session_and_no_other() {
    let state = state();
    let mut store = MemoryStore::new();
    let mut cookies = Vec::new();
    for (i, session) in ["aaaaaaaa-0000-4000-8000-000000000001", "aaaaaaaa-0000-4000-8000-000000000002"]
        .iter()
        .enumerate()
    {
        let token = format!("tok-{}", i);
        let (exchange, step) = CsrfService::new(900).issue("page", token.clone());
        store.drive(&state, exchange, step, NOW).unwrap();
        let seed = LoginSeed::new(
            NOW,
            session.to_string(),
            "0a0a0a0a-0000-4000-8000-000000000001".to_string(),
            format!("access-{}", i),
            format!("refresh-{}", i),
        )
        .unwrap();
        let payload = AdminLoginRequest {
            username: "admin".to_string(),
            password: "correct horse".to_string(),
        };
        let (exchange, step) = admin_login_handler(Some(&token), Some("page"), payload, seed);
        match store.drive(&state, exchange, step, NOW) {
            Ok(Outcome::LoggedIn(success)) => {
                let rest = success.set_cookie.strip_prefix("__Secure-admin-session=").unwrap();
                cookies.push(rest.split(';').next().unwrap().to_string());
            }
            other => panic!("login failed: {:?}", other),
        }
    }
    let (exchange, step) = logout_at(&state, Some(&cookies[0]), NOW);
    assert!(matches!(store.drive(&state, exchange, step, NOW), Ok(Outcome::LoggedOut)));
    assert!(matches!(guard(&mut store, &state, Some(&cookies[0]), NOW), Ok(Outcome::Redirected)));
    match guard(&mut store, &state, Some(&cookies[1]), NOW) {
        Ok(Outcome::Admitted(claims)) => {
            assert_eq!(claims.session_id, "aaaaaaaa-0000-4000-8000-000000000002")
        }
        other => panic!("unexpected {:?}", other),
    }
}

#[test]
fn second_pass_at_the_same_time_leaves_the_store_as_the_first_left_it() {
    let state = state();
    let mut store = MemoryStore::new();
    let cookie = log_in(&mut store, &state, NOW);
    assert!(matches!(guard(&mut store, &state, Some(&cookie), NOW + 7), Ok(Outcome::Admitted(_))));
    let first = read_record(&mut store, NOW + 7).to_json();
    assert!(matches!(guard(&mut store, &state, Some(&cookie), NOW + 7), Ok(Outcome::Admitted(_))));
    let second = read_record(&mut store, NOW + 7).to_json();
    assert_eq!(first, second);
    let key = format!("admin_session:{}", SESSION);
    assert!(store.holds(&key, NOW + 7 + 3599));
    assert!(!store.holds(&key, NOW + 7 + 3600));
}
