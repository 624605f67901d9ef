use auth_core::config::Config;
use auth_core::entries::Entry;
use auth_core::jwt::JwtService;
use auth_core::login::{
    login, login_at, login_candidate, login_from, login_success, LoginDecision, LoginRequest,
    LoginResponse,
};
use auth_core::password::{hash_password, verify_password, PasswordCheck, PasswordError};
use auth_core::password::hashed_or_failed;
use auth_core::models::{ClaimValue, Timestamp, User, UserStatus};
use auth_core::persist::PersistOutcome;
use auth_core::registry::{ClaimDefinition, ClaimsRegistry};
use auth_core::storage::AdminStorage;

fn at(seconds: i64) -> Timestamp {
    Timestamp { seconds, nanos: 0, offset_seconds: 0 }
}

fn user(id: &str, email: &str, status: UserStatus, mfa: Option<&str>) -> User {
    User {
        id: id.to_string(),
        email: email.to_string(),
        password_hash: "hash".to_string(),
        first_name: "Ada".to_string(),
        last_name: "Lovelace".to_string(),
        status,
        verified: true,
        authenticated: None,
        admin: vec![],
        org: "acme".to_string(),
        claims: vec![
            Entry { key: "tier".to_string(), value: ClaimValue::Text("gold".to_string()) },
            Entry { key: "ghost".to_string(), value: ClaimValue::Text("boo".to_string()) },
        ],
        mfa_secret: mfa.map(|s| s.to_string()),
        created_at: at(100),
        updated_at: at(100),
    }
}

fn store() -> AdminStorage {
    let mut registry = ClaimsRegistry::new();
    registry.insert(
        "tier".to_string(),
        ClaimDefinition {
            claim_type: "string".to_string(),
            items: None,
            description: "tier".to_string(),
            default_allowed: true,
            required: None,
            sensitive: None,
            admin_only: None,
        },
    );
    let mut store = AdminStorage::new("/data", "/run/auth.pid", registry, at(1_000));
    for u in [
        user("u1", "active@example.com", UserStatus::Active, None),
        user("u2", "inactive@example.com", UserStatus::Inactive, None),
        user("u3", "suspended@example.com", UserStatus::Suspended, None),
        user("u4", "mfa@example.com", UserStatus::Active, Some("JBSWY3DP")),
    ] {
        store.create_user(u, PersistOutcome::Persisted, at(2_000)).unwrap();
    }
    store
}

fn request(email: &str) -> LoginRequest {
    LoginRequest { email: email.to_string(), password: "pw".to_string() }
}

fn decide(email: &str, check: PasswordCheck, config: &Config) -> LoginDecision {
    login_at(
        &store(),
        &JwtService::new("secret"),
        config,
        &request(email),
        check,
        1_700_000_000,
        "access-id".to_string(),
        "refresh-id".to_string(),
    )
}

fn assert_refused(decision: LoginDecision) {
    match decision {
        LoginDecision::Respond(LoginResponse {
            success,
            access_token,
            refresh_token,
            expires_in,
            requires_mfa,
            mfa_session,
            redirect_to,
        }) => {
            assert!(!success);
            assert!(access_token.is_none());
            assert!(refresh_token.is_none());
            assert!(expires_in.is_none());
            assert!(!requires_mfa);
            assert!(mfa_session.is_none());
            assert!(redirect_to.is_none());
        }
        other => panic!("expected a refusal, got {:?}", other),
    }
}

#[test]
fn only_an_active_user_is_a_candidate() {
    let s = store();
    assert_eq!(login_candidate(&s, &request("active@example.com")).map(|u| u.id.clone()), Some("u1".to_string()));
    assert!(login_candidate(&s, &request("inactive@example.com")).is_none());
    assert!(login_candidate(&s, &request("suspended@example.com")).is_none());
    assert!(login_candidate(&s, &request("nobody@example.com")).is_none());
    assert!(login_candidate(&s, &request("ACTIVE@example.com")).is_none());
}

#[test]
fn unknown_and_inactive_users_are_refused_whatever_the_check_says() {
    let config = Config::default();
    assert_refused(decide("nobody@example.com", PasswordCheck::Valid, &config));
    assert_refused(decide("inactive@example.com", PasswordCheck::Valid, &config));
    assert_refused(decide("suspended@example.com", PasswordCheck::Failed, &config));
}

#[test]
fn a_wrong_password_is_refused() {
    assert_refused(decide("active@example.com", PasswordCheck::Invalid, &Config::default()));
}

#[test]
fn a_check_that_failed_is_an_internal_error() {
    assert!(matches!(
        decide("active@example.com", PasswordCheck::Failed, &Config::default()),
        LoginDecision::InternalError
    ));
}

#[test]
fn a_right_password_gives_two_tokens() {
    let config = Config::default();
    match decide("active@example.com", PasswordCheck::Valid, &config) {
        LoginDecision::Issue { access, refresh } => {
            assert_eq!(access.sub, "u1");
            assert_eq!(access.email, "active@example.com");
            assert_eq!(access.name, "Ada Lovelace");
            assert_eq!(access.iss, "https://auth.example.com");
            assert_eq!(access.aud, vec!["auth-service".to_string()]);
            assert_eq!(access.iat, 1_700_000_000);
            assert_eq!(access.exp, 1_700_000_000 + 3_600);
            assert_eq!(access.jti, "access-id");
            assert_eq!(access.user_claims.len(), 1);
            assert_eq!(access.user_claims[0].key, "tier");

            assert_eq!(refresh.sub, "u1");
            assert_eq!(refresh.iat, 1_700_000_000);
            assert_eq!(refresh.exp, 1_700_000_000 + 2_592_000);
            assert_eq!(refresh.jti, "refresh-id");
            assert_eq!(refresh.aud, vec!["auth-service".to_string()]);
            assert_eq!(refresh.user_claims.len(), 1);
        }
        other => panic!("expected tokens, got {:?}", other),
    }
}

#[test]
fn a_second_factor_is_wanted_only_where_required_and_set_up() {
    let mut config = Config::default();
    assert!(matches!(
        decide("mfa@example.com", PasswordCheck::Valid, &config),
        LoginDecision::Issue { .. }
    ));
    config.security.require_mfa = true;
    match decide("mfa@example.com", PasswordCheck::Valid, &config) {
        LoginDecision::Respond(response) => {
            assert!(response.success);
            assert!(response.requires_mfa);
            assert_eq!(response.mfa_session, Some("mfa-session-placeholder".to_string()));
            assert!(response.access_token.is_none());
            assert!(response.refresh_token.is_none());
            assert!(response.expires_in.is_none());
            assert!(response.redirect_to.is_none());
        }
        other => panic!("expected a second factor, got {:?}", other),
    }
    assert!(matches!(
        decide("active@example.com", PasswordCheck::Valid, &config),
        LoginDecision::Issue { .. }
    ));
    assert_refused(decide("mfa@example.com", PasswordCheck::Invalid, &config));
}

#[test]
fn a_lifetime_that_does_not_fit_is_an_internal_error() {
    let mut config = Config::default();
    config.security.refresh_token_ttl = u64::MAX;
    assert!(matches!(
        decide("active@example.com", PasswordCheck::Valid, &config),
        LoginDecision::InternalError
    ));
    let mut config = Config::default();
    config.security.access_token_ttl = u64::MAX;
    assert!(matches!(
        decide("active@example.com", PasswordCheck::Valid, &config),
        LoginDecision::InternalError
    ));
}

fn store_with_password(email: &str, password_hash: String) -> AdminStorage {
    let mut s = store();
    let mut u = user("u9", email, UserStatus::Active, None);
    u.password_hash = password_hash;
    s.create_user(u, PersistOutcome::Persisted, at(2_000)).unwrap();
    s
}

fn login_request(email: &str, password: &str) -> LoginRequest {
    LoginRequest { email: email.to_string(), password: password.to_string() }
}

#[test]
fn login_checks_the_password_and_issues_with_the_time_of_day() {
    let config = Config::default();
    let s = store_with_password("pw@example.com", hash_password("correct horse").unwrap());
    let service = JwtService::new("secret");
    match login(&s, &service, &config, &login_request("pw@example.com", "correct horse")) {
        LoginDecision::Issue { access, refresh } => {
            assert_eq!(access.sub, "u9");
            assert!(access.iat > 1_600_000_000);
            assert_eq!(access.exp, access.iat + 3_600);
            assert_eq!(refresh.iat, access.iat);
            assert_eq!(refresh.exp, refresh.iat + 2_592_000);
            assert_ne!(access.jti, refresh.jti);
            assert_eq!(access.jti.len(), 36);
        }
        other => panic!("expected tokens, got {:?}", other),
    }
    assert_refused(login(&s, &service, &config, &login_request("pw@example.com", "wrong horse")));
    assert_refused(login(&s, &service, &config, &login_request("pw@example.com", "")));
    assert_refused(login(&s, &service, &config, &login_request("nobody@example.com", "correct horse")));
}

#[test]
fn login_asks_for_the_second_factor_only_after_the_right_password() {
    let mut config = Config::default();
    config.security.require_mfa = true;
    let mut s = store();
    let mut u = user("u8", "second@example.com", UserStatus::Active, Some("JBSWY3DP"));
    u.password_hash = hash_password("correct horse").unwrap();
    s.create_user(u, PersistOutcome::Persisted, at(2_000)).unwrap();
    let service = JwtService::new("secret");
    match login(&s, &service, &config, &login_request("second@example.com", "correct horse")) {
        LoginDecision::Respond(response) => {
            assert!(response.success);
            assert!(response.requires_mfa);
            assert_eq!(response.mfa_session, Some("mfa-session-placeholder".to_string()));
            assert!(response.access_token.is_none());
            assert!(response.refresh_token.is_none());
            assert!(response.expires_in.is_none());
            assert!(response.redirect_to.is_none());
        }
        other => panic!("expected a second factor, got {:?}", other),
    }
    assert_refused(login(&s, &service, &config, &login_request("second@example.com", "wrong horse")));
}

#[test]
fn login_against_a_stored_text_that_is_no_hash_is_an_internal_error() {
    let config = Config::default();
    let service = JwtService::new("secret");
    assert!(matches!(
        login(&store(), &service, &config, &login_request("active@example.com", "pw")),
        LoginDecision::InternalError
    ));
    assert_refused(login(&store(), &service, &config, &login_request("inactive@example.com", "pw")));
}

#[test]
fn passwords_are_hashed_under_fresh_salts_and_verify() {
    let first = hash_password("s3cret").unwrap();
    let second = hash_password("s3cret").unwrap();
    assert_ne!(first, second);
    assert!(first.starts_with("$argon2"));
    assert_ne!(first, "s3cret");
    assert_eq!(verify_password("s3cret", &first), PasswordCheck::Valid);
    assert_eq!(verify_password("s3cret", &second), PasswordCheck::Valid);
    assert_eq!(verify_password("S3cret", &first), PasswordCheck::Invalid);
    assert_eq!(verify_password("", &first), PasswordCheck::Invalid);
    assert_eq!(verify_password("s3cret", "not a hash"), PasswordCheck::Failed);
    assert_eq!(verify_password("s3cret", ""), PasswordCheck::Failed);
    assert_eq!(verify_password("s3cret", "s3cret"), PasswordCheck::Failed);
}

#[test]
fn a_wrong_password_against_a_well_formed_hash_is_invalid() {
    let hash = "$argon2id$v=19$m=16,t=2,p=1$c29tZXNhbHQ$Fnp8TSVQKAw7WQkR1JPDbg";
    assert_eq!(verify_password("definitely wrong", hash), PasswordCheck::Invalid);
}

#[test]
fn a_hash_that_was_not_computed_is_an_error() {
    assert_eq!(hashed_or_failed(Some("$argon2id$x".to_string())), Ok("$argon2id$x".to_string()));
    assert_eq!(hashed_or_failed(None), Err(PasswordError::HashingFailed));
}

#[test]
fn the_answer_to_a_successful_login() {
    let config = Config::default();
    let response = login_success("aaa.bbb.ccc".to_string(), "ddd.eee.fff".to_string(), &config);
    assert!(response.success);
    assert_eq!(response.access_token, Some("aaa.bbb.ccc".to_string()));
    assert_eq!(response.refresh_token, Some("ddd.eee.fff".to_string()));
    assert_eq!(response.expires_in, Some(3_600));
    assert!(!response.requires_mfa);
    assert!(response.mfa_session.is_none());
    assert_eq!(response.redirect_to, Some("https://localhost:8445/".to_string()));
}

fn decide_from(email: &str, check: PasswordCheck, seconds: i64, config: &Config) -> LoginDecision {
    login_from(
        &store(),
        &JwtService::new("secret"),
        config,
        &request(email),
        check,
        Timestamp { seconds, nanos: 0, offset_seconds: 0 },
        "access-id".to_string(),
        "refresh-id".to_string(),
    )
}

#[test]
fn a_clock_before_the_epoch_fails_only_a_login_that_issues_tokens() {
    let mut config = Config::default();
    assert!(matches!(
        decide_from("active@example.com", PasswordCheck::Valid, -1, &config),
        LoginDecision::InternalError
    ));
    assert_refused(decide_from("active@example.com", PasswordCheck::Invalid, -1, &config));
    assert_refused(decide_from("nobody@example.com", PasswordCheck::Valid, -1, &config));
    assert!(matches!(
        decide_from("active@example.com", PasswordCheck::Failed, -1, &config),
        LoginDecision::InternalError
    ));
    config.security.require_mfa = true;
    match decide_from("mfa@example.com", PasswordCheck::Valid, -1, &config) {
        LoginDecision::Respond(response) => assert!(response.requires_mfa),
        other => panic!("expected a second factor, got {:?}", other),
    }
}

#[test]
fn a_login_from_a_clock_reading_issues_at_its_second() {
    let config = Config::default();
    match decide_from("active@example.com", PasswordCheck::Valid, 1_700_000_000, &config) {
        LoginDecision::Issue { access, refresh } => {
            assert_eq!(access.iat, 1_700_000_000);
            assert_eq!(access.exp, 1_700_003_600);
            assert_eq!(access.jti, "access-id");
            assert_eq!(refresh.iat, 1_700_000_000);
            assert_eq!(refresh.exp, 1_700_000_000 + 2_592_000);
            assert_eq!(refresh.jti, "refresh-id");
        }
        other => panic!("expected tokens, got {:?}", other),
    }
    match decide_from("active@example.com", PasswordCheck::Valid, 0, &config) {
        LoginDecision::Issue { access, .. } => assert_eq!(access.iat, 0),
        other => panic!("expected tokens, got {:?}", other),
    }
}
