use admin_auth::csrf::{get_csrf_token, CsrfService};
use admin_auth::error::AppError;
use admin_auth::exchange::{Exchange, Outcome, Step};
use admin_auth::state::AppState;
use admin_auth::store::{MemoryStore, StoreCommand, StoreReply};

const NOW: i64 = 1_700_000_000;

fn state() -> AppState {
    let hash = bcrypt::hash("pw", 4).unwrap();
    AppState::new("secret".to_string(), "admin".to_string(), hash).unwrap()
}

fn redeem(store: &mut MemoryStore, state: &AppState, session: &str, token: &str, now: i64) -> Result<Outcome, AppError> {
    let (exchange, step) = CsrfService::new(3600).validate_csrf_token(session, token);
    store.drive(state, exchange, step, now)
}

#[test]
fn csrf_token_is_single_use_and_bound_to_its_session() {
    let state = state();
    let mut store = MemoryStore::new();
    let (exchange, step) = CsrfService::new(900).issue("sess-1", "abc123".to_string());
    let issued = store.drive(&state, exchange, step, NOW).unwrap();
    match issued {
        Outcome::CsrfIssued(response) => {
            assert_eq!(response.token, "abc123");
            assert_eq!(response.expires_in, 900);
        }
        other => panic!("unexpected {:?}", other),
    }
    assert!(matches!(redeem(&mut store, &state, "sess-1", "abc123", NOW), Ok(Outcome::CsrfAccepted)));
    match redeem(&mut store, &state, "sess-1", "abc123", NOW) {
        Err(AppError::Unauthorized(words)) => assert_eq!(words, "Invalid or expired CSRF token"),
        other => panic!("unexpected {:?}", other),
    }
    match redeem(&mut store, &state, "sess-2", "abc123", NOW) {
        Err(AppError::Unauthorized(words)) => assert_eq!(words, "Invalid or expired CSRF token"),
        other => panic!("unexpected {:?}", other),
    }
}

#[test]
fn csrf_token_of_another_session_is_refused_and_kept() {
    let state = state();
    let mut store = MemoryStore::new();
    let (exchange, step) = CsrfService::new(900).issue("sess-1", "abc123".to_string());
    store.drive(&state, exchange, step, NOW).unwrap();
    assert!(redeem(&mut store, &state, "sess-2", "abc123", NOW).is_err());
    assert!(matches!(redeem(&mut store, &state, "sess-1", "abc123", NOW), Ok(Outcome::CsrfAccepted)));
}

#[test]
fn csrf_token_expires_after_its_lifetime() {
    let state = state();
    let mut store = MemoryStore::new();
    let (exchange, step) = CsrfService::new(900).issue("s", "t".to_string());
    store.drive(&state, exchange, step, NOW).unwrap();
    assert!(store.holds("csrf:s:t", NOW + 899));
    assert!(!store.holds("csrf:s:t", NOW + 900));
    assert!(redeem(&mut store, &state, "s", "t", NOW + 900).is_err());
}

#[test]
fn created_token_is_32_letters_and_digits() {
    let service = CsrfService::new(900);
    assert_eq!(service.ttl_seconds(), 900);
    let (exchange, step) = service.create_token("sess-1");
    let token = match &exchange {
        Exchange::Closing { pending, result: Ok(Outcome::CsrfIssued(response)) } => {
            assert!(pending.is_empty());
            assert_eq!(response.expires_in, 900);
            response.token.clone()
        }
        _ => panic!("unexpected exchange"),
    };
    assert_eq!(token.len(), 32);
    assert!(token.chars().all(|c| c.is_ascii_alphanumeric()));
    match step {
        Step::Send(StoreCommand::SetEx { key, value, ttl }) => {
            assert_eq!(key, format!("csrf:sess-1:{}", token));
            assert_eq!(value, "1");
            assert_eq!(ttl, 900);
        }
        other => panic!("unexpected {:?}", other),
    }
    let (_, other_step) = service.create_token("sess-1");
    match other_step {
        Step::Send(StoreCommand::SetEx { key, .. }) => assert_ne!(key, format!("csrf:sess-1:{}", token)),
        other => panic!("unexpected {:?}", other),
    }
}

#[test]
fn asking_for_a_token_needs_a_session() {
    let (exchange, step) = get_csrf_token(None);
    assert!(matches!(exchange, Exchange::Finished));
    match step {
        Step::Finish(Err(AppError::Unauthorized(words))) => {
            assert_eq!(words, "Missing or invalid session_id")
        }
        other => panic!("unexpected {:?}", other),
    }
}

#[test]
fn asking_for_a_token_issues_one_for_fifteen_minutes() {
    let state = state();
    let mut store = MemoryStore::new();
    let (exchange, step) = get_csrf_token(Some("sess-9"));
    let outcome = store.drive(&state, exchange, step, NOW).unwrap();
    let token = match outcome {
        Outcome::CsrfIssued(response) => {
            assert_eq!(response.expires_in, 900);
            response.token
        }
        other => panic!("unexpected {:?}", other),
    };
    assert!(matches!(redeem(&mut store, &state, "sess-9", &token, NOW + 899), Ok(Outcome::CsrfAccepted)));
}

#[test]
fn failed_store_ends_the_issue_of_a_token() {
    let state = state();
    let (exchange, _) = CsrfService::new(900).issue("s", "t".to_string());
    let (_, step) = exchange.resume(&state, StoreReply::Failed("down".to_string()));
    match step {
        Step::Finish(Err(e)) => {
            assert_eq!(e.status_code(), 500);
            assert_eq!(e.message(), "Redis error: down");
        }
        other => panic!("unexpected {:?}", other),
    }
}

#[test]
fn token_without_lifetime_is_refused_by_the_store() {
    let state = state();
    let mut store = MemoryStore::new();
    let (exchange, step) = CsrfService::new(0).issue("s", "t".to_string());
    match store.drive(&state, exchange, step, NOW) {
        Err(AppError::RedisError(words)) => {
            assert_eq!(words, "ERR invalid expire time in 'setex' command")
        }
        other => panic!("unexpected {:?}", other),
    }
    assert!(!store.holds("csrf:s:t", NOW));
}
