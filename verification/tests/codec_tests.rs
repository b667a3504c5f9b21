use auth_service::domain::data_store::{LoginAttemptId, TwoFACode, UserStoreError};
use auth_service::domain::email::Email;
use auth_service::domain::error::AuthAPIError;
use auth_service::domain::password::Password;
use auth_service::services::banned_token_key::get_key;
use auth_service::services::data_store::{
    compute_password_hash, user_from_record, verify_password_hash,
};
use auth_service::utils::auth::{generate_auth_cookie, generate_auth_token, validate_token, TokenError};
use auth_service::utils::constants::{jwt_cookie_name, TOKEN_TTL_SECONDS};
use auth_service::utils::digits::{parse_u64, render_u64};

const SECRET: &str = "test-signing-secret";
const NOW: u64 = 1_700_000_000;

#[test]
fn email_parse_accepts_and_rejects() {
    assert!(Email::parse("a@b.com".to_string()).is_ok());
    assert!(Email::parse("".to_string()).is_err());
    assert!(Email::parse("noatsymbol.com".to_string()).is_err());
    let email = Email::parse("a@b.com".to_string()).unwrap();
    assert_eq!(email.as_str(), "a@b.com");
}

#[test]
fn password_parse_enforces_minimum_length() {
    assert!(Password::parse("Password123".to_string()).is_ok());
    assert!(Password::parse("exactly8".to_string()).is_ok());
    assert!(Password::parse("short12".to_string()).is_err());
    assert!(Password::parse("".to_string()).is_err());
}

#[test]
fn two_fa_code_has_six_digits() {
    for _ in 0..20 {
        let code = TwoFACode::default();
        assert_eq!(code.as_str().len(), 6);
        assert!(code.as_str().chars().all(|c| c.is_ascii_digit()));
        assert_ne!(code.as_str().chars().next().unwrap(), '0');
    }
    assert!(TwoFACode::parse("123456".to_string()).is_ok());
    assert!(TwoFACode::parse("12345".to_string()).is_err());
    assert!(TwoFACode::parse("1234567".to_string()).is_err());
    assert!(TwoFACode::parse("123jkl".to_string()).is_err());
    assert!(TwoFACode::parse("12345a".to_string()).is_err());
    assert!(TwoFACode::parse("".to_string()).is_err());
}

#[test]
fn login_attempt_id_round_trips() {
    for _ in 0..20 {
        let id = LoginAttemptId::default();
        let rendered = id.as_str().to_string();
        let reparsed = LoginAttemptId::parse(rendered).unwrap();
        assert_eq!(reparsed, id);
    }
    assert!(LoginAttemptId::parse("not-a-uuid".to_string()).is_err());
    assert!(LoginAttemptId::parse("".to_string()).is_err());
    let id = LoginAttemptId::parse("550E8400-E29B-41D4-A716-446655440000".to_string()).unwrap();
    assert_eq!(id.as_str(), "550e8400-e29b-41d4-a716-446655440000");
}

#[test]
fn token_round_trips_and_expires() {
    let email = Email::parse("user@example.com".to_string()).unwrap();
    let token = generate_auth_token(&email, SECRET, NOW);

    let claims = validate_token(&token, SECRET, NOW).unwrap();
    assert_eq!(claims.sub, "user@example.com");
    assert_eq!(claims.exp, NOW + TOKEN_TTL_SECONDS);

    let claims = validate_token(&token, SECRET, NOW + TOKEN_TTL_SECONDS - 1).unwrap();
    assert_eq!(claims.sub, "user@example.com");

    assert_eq!(
        validate_token(&token, SECRET, NOW + TOKEN_TTL_SECONDS),
        Err(TokenError::Expired)
    );
}

#[test]
fn token_rejects_tampering() {
    let email = Email::parse("user@example.com".to_string()).unwrap();
    let token = generate_auth_token(&email, SECRET, NOW);

    let mut tampered = token.clone();
    tampered.pop();
    tampered.push('x');
    assert_eq!(validate_token(&tampered, SECRET, NOW), Err(TokenError::BadSignature));

    assert_eq!(
        validate_token(&token, "another-signing-key", NOW),
        Err(TokenError::BadSignature)
    );

    assert_eq!(validate_token("nodotsatall", SECRET, NOW), Err(TokenError::Malformed));
    assert_eq!(validate_token("", SECRET, NOW), Err(TokenError::Malformed));
    assert_eq!(validate_token("a.b.c", SECRET, NOW), Err(TokenError::Malformed));
}

#[test]
fn cookie_carries_the_token_and_attributes() {
    let email = Email::parse("user@example.com".to_string()).unwrap();
    let token = generate_auth_token(&email, SECRET, NOW);
    let cookie = generate_auth_cookie(&email, SECRET, NOW);
    assert_eq!(
        cookie,
        format!("{}={}; HttpOnly; SameSite=Lax; Secure; Path=/", jwt_cookie_name(), token)
    );
}

#[test]
fn decimal_rendering_round_trips() {
    assert_eq!(render_u64(0), "0");
    assert_eq!(render_u64(7), "7");
    assert_eq!(render_u64(105), "105");
    assert_eq!(render_u64(u64::MAX), "18446744073709551615");

    assert_eq!(parse_u64("0"), Some(0));
    assert_eq!(parse_u64("00123"), Some(123));
    assert_eq!(parse_u64("18446744073709551615"), Some(u64::MAX));
    assert_eq!(parse_u64("18446744073709551616"), None);
    assert_eq!(parse_u64(""), None);
    assert_eq!(parse_u64("12a4"), None);

    for n in [1u64, 42, 999999, 123456789012345] {
        assert_eq!(parse_u64(&render_u64(n)), Some(n));
    }
}

#[test]
fn banned_token_key_is_namespaced() {
    assert_eq!(get_key("abc"), "banned_token:abc");
    assert_eq!(get_key(""), "banned_token:");
}

#[test]
fn password_hash_round_trips() {
    let hash = compute_password_hash("Password123").unwrap();
    assert_ne!(hash, "Password123");
    assert!(hash.starts_with("$argon2id$"));

    assert_eq!(verify_password_hash(&hash, "Password123"), Ok(()));
    assert_eq!(
        verify_password_hash(&hash, "WrongPassword1"),
        Err(UserStoreError::InvalidCredentials)
    );
    assert_eq!(
        verify_password_hash("not-a-phc-string", "Password123"),
        Err(UserStoreError::UnexpectedError)
    );
}

#[test]
fn user_from_record_rechecks_the_gates() {
    let user = user_from_record(
        "row@example.com".to_string(),
        "$argon2id$somehashvalue".to_string(),
        true,
    )
    .unwrap();
    assert_eq!(user.email.as_str(), "row@example.com");
    assert!(user.requires_2fa);

    assert_eq!(
        user_from_record("norowat.com".to_string(), "$argon2id$somehashvalue".to_string(), false),
        Err(UserStoreError::UnexpectedError)
    );
}

#[test]
fn error_variants_map_to_their_status_classes() {
    assert_eq!(AuthAPIError::UserAlreadyExists.status_code(), 409);
    assert_eq!(AuthAPIError::InvalidCredentials.status_code(), 400);
    assert_eq!(AuthAPIError::UnexpectedError.status_code(), 500);
    assert_eq!(AuthAPIError::IncorrectCredentials.status_code(), 401);
    assert_eq!(AuthAPIError::MissingToken.status_code(), 400);
    assert_eq!(AuthAPIError::InvalidToken.status_code(), 401);
    assert_eq!(AuthAPIError::UserAlreadyExists.error_message(), "User already exists");
    assert_eq!(AuthAPIError::InvalidToken.error_message(), "Invalid token");
}
