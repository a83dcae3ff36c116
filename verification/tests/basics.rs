use admin_auth::auth::{
    attempts_query, authenticate_admin, check_rate_limit, clear_failed_attempts,
    create_admin_tokens, increment_failed_attempts, save_admin_session, AdminUser,
};
use admin_auth::error::AppError;
use admin_auth::fresh::random_token;
use admin_auth::keys::{make_attempts_key, make_csrf_key, make_session_key, make_token_key};
use admin_auth::models::{DatabaseStats, PaginationQuery, PaginationResult};
use admin_auth::password::decide_credentials;
use admin_auth::session::SessionRecord;
use admin_auth::state::{same_cost, setup_app_state, AppState, Config};
use admin_auth::store::StoreCommand;
use admin_auth::submission::{
    byte_len, check_contact, describe_fault, holds_char, AdminContactSubmission,
    AdminSuccessResponse, ContactSubmission, Fault, SuccessResponse,
};
use admin_auth::text::{blank, char_is_whitespace, decimal_text, is_empty_text, same_text, take_before};
use admin_auth::token::verify_token;

#[test]
fn error_status_codes() {
    assert_eq!(AppError::bad_request("b").status_code(), 400);
    assert_eq!(AppError::unauthorized("u").status_code(), 401);
    assert_eq!(AppError::too_many_requests("t").status_code(), 429);
    assert_eq!(AppError::RedisError("r".to_string()).status_code(), 500);
    assert_eq!(AppError::JwtError("j".to_string()).status_code(), 500);
    assert_eq!(AppError::BcryptError("b".to_string()).status_code(), 500);
    assert_eq!(AppError::JsonError("j".to_string()).status_code(), 500);
    assert_eq!(AppError::EnvError("e".to_string()).status_code(), 500);
}

#[test]
fn error_messages() {
    assert_eq!(AppError::bad_request("b").message(), "b");
    assert_eq!(AppError::unauthorized("u").message(), "u");
    assert_eq!(AppError::too_many_requests("t").message(), "t");
    assert_eq!(AppError::RedisError("r".to_string()).message(), "Redis error: r");
    assert_eq!(AppError::JwtError("j".to_string()).message(), "Authentication error: j");
    assert_eq!(AppError::BcryptError("b".to_string()).message(), "Password hashing error: b");
    assert_eq!(AppError::JsonError("j".to_string()).message(), "JSON parsing error: j");
    assert_eq!(AppError::EnvError("e".to_string()).message(), "Configuration error: e");
    let copy = AppError::unauthorized("u").duplicate();
    assert_eq!(copy.into_response(), (401, "u".to_string()));
}

#[test]
fn keys_are_made_as_the_store_expects() {
    assert_eq!(make_csrf_key("sess-1", "abc123"), "csrf:sess-1:abc123");
    assert_eq!(make_attempts_key("admin"), "login_attempts:admin");
    assert_eq!(make_session_key("sid"), "admin_session:sid");
    assert_eq!(make_token_key("a.b.c"), "token_session:a.b.c");
    assert_eq!(make_csrf_key("a:b", "c"), make_csrf_key("a", "b:c"));
}

#[test]
fn rate_limit_is_reached_at_five() {
    assert!(check_rate_limit(None).is_ok());
    assert!(check_rate_limit(Some(0)).is_ok());
    assert!(check_rate_limit(Some(4)).is_ok());
    assert!(matches!(check_rate_limit(Some(5)), Err(AppError::TooManyRequests(_))));
    assert!(check_rate_limit(Some(i64::MAX)).is_err());
    assert!(check_rate_limit(Some(-1)).is_ok());
}

#[test]
fn rate_limit_commands() {
    assert!(matches!(attempts_query("u"), StoreCommand::GetCount { key } if key == "login_attempts:u"));
    assert!(matches!(clear_failed_attempts("u"), StoreCommand::Del { key } if key == "login_attempts:u"));
    let commands = increment_failed_attempts("u");
    assert_eq!(commands.len(), 2);
    assert!(matches!(&commands[0], StoreCommand::Incr { key } if key == "login_attempts:u"));
    assert!(matches!(&commands[1], StoreCommand::Expire { key, seconds: 900 } if key == "login_attempts:u"));
}

#[test]
fn credentials_decision_table() {
    assert!(decide_credentials(true, Ok(true)).is_ok());
    assert!(matches!(decide_credentials(true, Ok(false)), Err(AppError::Unauthorized(_))));
    assert!(matches!(decide_credentials(false, Ok(true)), Err(AppError::Unauthorized(_))));
    assert!(matches!(decide_credentials(false, Ok(false)), Err(AppError::Unauthorized(_))));
    assert!(matches!(decide_credentials(false, Err("e".to_string())), Err(AppError::Unauthorized(_))));
    match decide_credentials(true, Err("bad hash".to_string())) {
        Err(AppError::BcryptError(words)) => assert_eq!(words, "bad hash"),
        other => panic!("unexpected {:?}", other),
    }
}

#[test]
fn state_needs_a_bcrypt_hash() {
    let made = AppState::new("s".to_string(), "admin".to_string(), "not a hash".to_string());
    match made {
        Err(e) => {
            assert!(matches!(e, AppError::BcryptError(_)));
            assert_eq!(e.status_code(), 500);
        }
        Ok(_) => panic!("state was made from a broken hash"),
    }
}

#[test]
fn state_has_a_decoy_of_the_same_cost() {
    let hash = bcrypt::hash("pw", 5).unwrap();
    let state = AppState::new("s".to_string(), "admin".to_string(), hash.clone()).unwrap();
    assert_eq!(state.jwt_secret(), "s");
    assert_eq!(state.admin_username(), "admin");
    assert_eq!(state.admin_password_hash(), hash);
    assert_ne!(state.decoy_hash(), hash);
    let decoy: bcrypt::HashParts = state.decoy_hash().parse().unwrap();
    assert_eq!(decoy.get_cost(), 5);
}

#[test]
fn decoy_of_another_cost_is_refused() {
    let hash = bcrypt::hash("pw", 5).unwrap();
    let cheap = bcrypt::hash("x", 4).unwrap();
    let same = bcrypt::hash("x", 5).unwrap();
    assert!(AppState::with_decoy("s".to_string(), "a".to_string(), hash.clone(), cheap).is_err());
    assert!(AppState::with_decoy("s".to_string(), "a".to_string(), hash.clone(), "x".to_string()).is_err());
    assert!(AppState::with_decoy("s".to_string(), "a".to_string(), "x".to_string(), same.clone()).is_err());
    assert!(AppState::with_decoy("s".to_string(), "a".to_string(), hash, same).is_ok());
}

#[test]
fn authentication_checks_name_and_password() {
    let hash = bcrypt::hash("pw", 4).unwrap();
    let state = AppState::new("s".to_string(), "admin".to_string(), hash).unwrap();
    let admin = authenticate_admin(&state, "admin", "pw", "the-id").unwrap();
    assert_eq!(admin.id, "the-id");
    assert_eq!(admin.username, "admin");
    assert_eq!(admin.role, "admin");
    assert!(matches!(authenticate_admin(&state, "admin", "PW", "i"), Err(AppError::Unauthorized(_))));
    assert!(matches!(authenticate_admin(&state, "Admin", "pw", "i"), Err(AppError::Unauthorized(_))));
    assert!(matches!(authenticate_admin(&state, "other", "", "i"), Err(AppError::Unauthorized(_))));
}

#[test]
fn tokens_differ_and_belong_to_one_session() {
    let hash = bcrypt::hash("pw", 4).unwrap();
    let state = AppState::new("s".to_string(), "admin".to_string(), hash).unwrap();
    let admin = AdminUser { id: "id".to_string(), username: "admin".to_string(), role: "admin".to_string() };
    let (access, refresh) = create_admin_tokens(&state, &admin, "sid", 1000, "ja", "jr").unwrap();
    let a = verify_token("s", &access, 1000).unwrap();
    let r = verify_token("s", &refresh, 1000).unwrap();
    assert_eq!((a.iat, a.exp, a.jti.as_str()), (1000, 4600, "ja"));
    assert_eq!((r.iat, r.exp, r.jti.as_str()), (1000, 1000 + 604800, "jr"));
    assert_eq!(a.session_id, "sid");
    assert_eq!(r.session_id, "sid");
    assert_eq!(a.sub, "id");
    let (again, _) = create_admin_tokens(&state, &admin, "sid", 1000, "ja", "jr").unwrap();
    assert_eq!(again, access);
    let (other, _) = create_admin_tokens(&state, &admin, "sid", 1000, "jb", "jr").unwrap();
    assert_ne!(other, access);
}

#[test]
fn session_is_saved_with_its_index() {
    let admin = AdminUser { id: "id".to_string(), username: "admin".to_string(), role: "admin".to_string() };
    let commands = save_admin_session("sid", &admin, "acc", "ref", 77);
    assert_eq!(commands.len(), 2);
    match &commands[0] {
        StoreCommand::SetEx { key, value, ttl } => {
            assert_eq!(key, "admin_session:sid");
            assert_eq!(*ttl, 3600);
            let record = SessionRecord::from_json(value).unwrap();
            assert_eq!(record.admin_id, "id");
            assert_eq!(record.access_token, "acc");
            assert_eq!(record.refresh_token, "ref");
            assert_eq!((record.created_at, record.last_activity), (77, 77));
        }
        other => panic!("unexpected {:?}", other),
    }
    match &commands[1] {
        StoreCommand::SetEx { key, value, ttl } => {
            assert_eq!(key, "token_session:acc");
            assert_eq!(value, "sid");
            assert_eq!(*ttl, 3600);
        }
        other => panic!("unexpected {:?}", other),
    }
}

#[test]
fn config_defaults_and_requirements() {
    let s = |t: &str| Some(t.to_string());
    let config = Config::from_env(s("db"), None, None, s("jwt"), s("hash"), s("admin")).unwrap();
    assert_eq!(config.database_url, "db");
    assert_eq!(config.redis_url, "redis://127.0.0.1/");
    assert_eq!(config.server_address, "127.0.0.1:3000");
    assert_eq!(config.jwt_secret, "jwt");
    assert_eq!(config.admin_password, "hash");
    assert_eq!(config.admin_login, "admin");
    let config = Config::from_env(s("db"), s("r"), s("a"), s("jwt"), s("hash"), s("admin")).unwrap();
    assert_eq!((config.redis_url.as_str(), config.server_address.as_str()), ("r", "a"));
    match Config::from_env(None, None, None, None, None, None) {
        Err(AppError::EnvError(words)) => assert_eq!(words, "DATABASE_URL must be set"),
        other => panic!("unexpected {:?}", other),
    }
    for (jwt, password, login) in [(None, s("h"), s("a")), (s("j"), None, s("a")), (s("j"), s("h"), None)] {
        match Config::from_env(s("db"), None, None, jwt, password, login) {
            Err(e) => {
                assert_eq!(e.message(), "Configuration error: environment variable not found");
                assert_eq!(e.status_code(), 500);
            }
            Ok(_) => panic!("configuration accepted"),
        }
    }
}

#[test]
fn state_from_config() {
    let hash = bcrypt::hash("pw", 4).unwrap();
    let config = Config {
        database_url: "db".to_string(),
        redis_url: "r".to_string(),
        server_address: "a".to_string(),
        jwt_secret: "jwt".to_string(),
        admin_login: "root".to_string(),
        admin_password: hash.clone(),
    };
    let state = setup_app_state(&config).unwrap();
    assert_eq!(state.jwt_secret(), "jwt");
    assert_eq!(state.admin_username(), "root");
    assert_eq!(state.admin_password_hash(), hash);
}

#[test]
fn pagination_counts_pages() {
    let page = PaginationResult::new(vec![1, 2, 3], 23, 2, 10);
    assert_eq!(page.data, vec![1, 2, 3]);
    assert_eq!((page.total_count, page.page, page.per_page, page.total_pages), (23, 2, 10, 3));
    assert!(page.has_next);
    assert!(page.has_prev);
    let last = PaginationResult::new(Vec::<u8>::new(), 30, 3, 10);
    assert_eq!(last.total_pages, 3);
    assert!(!last.has_next);
    let empty = PaginationResult::new(Vec::<u8>::new(), 0, 1, 10);
    assert_eq!(empty.total_pages, 0);
    assert!(!empty.has_next);
    assert!(!empty.has_prev);
    let negative = PaginationResult::new(Vec::<u8>::new(), -25, 1, 10);
    assert_eq!(negative.total_pages, (-25 + 10 - 1) / 10);
    let backwards = PaginationResult::new(Vec::<u8>::new(), 25, 1, -10);
    assert_eq!(backwards.total_pages, (25 - 10 - 1) / -10);
}

#[test]
fn plain_records_hold_what_they_are_given() {
    let stats = DatabaseStats { total_submissions: 4, today_count: 1, this_week_count: 2, this_month_count: 3 };
    assert_eq!(stats, stats.clone());
    let query = PaginationQuery { page: 1, per_page: 10, sort_by: None, order: Some("asc".to_string()) };
    assert_eq!(query.page + query.per_page, 11);
    assert_eq!(SuccessResponse::new("id".to_string()).submission_id, "id");
    assert_eq!(AdminSuccessResponse::new("id".to_string()).message, "Сообщение успешно отправлено");
}

#[test]
fn submissions_are_held_to_the_rules() {
    let ok = ContactSubmission {
        name: "Al".to_string(),
        email: "a@b".to_string(),
        phone: None,
        message: "0123456789".to_string(),
    };
    assert!(ok.validate().is_ok());
    assert_eq!(check_contact("A", "a@b", "0123456789"), Some(Fault::Name));
    assert_eq!(check_contact(&"n".repeat(256), "a@b", "0123456789"), Some(Fault::Name));
    assert_eq!(check_contact(&"n".repeat(255), "a@b", "0123456789"), None);
    assert_eq!(check_contact("Al", "ab", "0123456789"), Some(Fault::Email));
    assert_eq!(check_contact("Al", &format!("@{}", "e".repeat(254)), "0123456789"), Some(Fault::Email));
    assert_eq!(check_contact("Al", &format!("@{}", "e".repeat(253)), "0123456789"), None);
    assert_eq!(check_contact("Al", "a@b", "012345678"), Some(Fault::Message));
    assert_eq!(check_contact("Al", "a@b", &"m".repeat(1001)), Some(Fault::Message));
    assert_eq!(check_contact("Al", "a@b", &"m".repeat(1000)), None);
    assert_eq!(check_contact("", "", ""), Some(Fault::Name));
    assert_eq!(check_contact("Я", "a@b", "0123456789"), None);
    let bad = AdminContactSubmission {
        name: "Al".to_string(),
        email: "nobody".to_string(),
        phone: Some("1".to_string()),
        message: "0123456789".to_string(),
    };
    match bad.validate() {
        Err(e) => {
            assert_eq!(e.code, "VALIDATION_ERROR");
            assert_eq!(e.message, "Некорректный email адрес");
        }
        Ok(_) => panic!("accepted"),
    }
    let short = ContactSubmission {
        name: "A".to_string(),
        email: "a@b".to_string(),
        phone: None,
        message: "x".to_string(),
    };
    match short.validate() {
        Err(e) => {
            assert_eq!(e.code, "VALIDATION_ERROR");
            assert_eq!(e.message, describe_fault(Fault::Name));
        }
        Ok(_) => panic!("accepted"),
    }
    assert_eq!(describe_fault(Fault::Message), "Сообщение должно содержать 10-1000 символов");
    assert_eq!(byte_len("Я"), 2);
    assert!(holds_char("a@b", '@'));
    assert!(!holds_char("ab", '@'));
}

#[test]
fn text_helpers() {
    assert!(blank(""));
    assert!(blank(" \t\r\n\u{a0}\u{3000}"));
    assert!(!blank(" a "));
    assert!(!blank("\u{200b}"));
    for c in ['\u{9}', '\u{d}', ' ', '\u{85}', '\u{1680}', '\u{2000}', '\u{200a}', '\u{2028}', '\u{2029}', '\u{202f}', '\u{205f}'] {
        assert!(char_is_whitespace(c));
        assert!(c.is_whitespace());
    }
    for c in ['a', '\u{8}', '\u{e}', '\u{200b}', '\u{1f}'] {
        assert_eq!(char_is_whitespace(c), c.is_whitespace());
    }
    assert!(same_text("abc", "abc"));
    assert!(!same_text("abc", "abd"));
    assert!(!same_text("abc", "ab"));
    assert!(is_empty_text(""));
    assert!(!is_empty_text(" "));
    assert_eq!(take_before("héllo:wörld", ':'), "héllo");
    assert_eq!(take_before("abc", ':'), "abc");
    assert_eq!(decimal_text(0), "0");
    assert_eq!(decimal_text(9), "9");
    assert_eq!(decimal_text(10), "10");
    assert_eq!(decimal_text(3600), "3600");
    assert_eq!(decimal_text(u64::MAX), "18446744073709551615");
}

#[test]
fn random_tokens_have_the_length_asked_for() {
    assert_eq!(random_token(0), "");
    let a = random_token(32);
    let b = random_token(32);
    assert_eq!(a.len(), 32);
    assert!(a.chars().all(|c| c.is_ascii_alphanumeric()));
    assert_ne!(a, b);
}

#[test]
fn costs_agree_only_when_both_are_read_and_equal() {
    assert!(same_cost(Some(12), Some(12)));
    assert!(!same_cost(Some(12), Some(4)));
    assert!(!same_cost(None, None));
    assert!(!same_cost(Some(12), None));
    assert!(!same_cost(None, Some(12)));
}
