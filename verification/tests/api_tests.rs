use auth_service::domain::data_store::{BannedTokenStore, TwoFACodeStore};
use auth_service::domain::email::Email;
use auth_service::domain::error::AuthAPIError;
use auth_service::routes::login::{login, LoginRequest, LoginResponse};
use auth_service::routes::logout::logout;
use auth_service::routes::signup::{signup, SignupRequest};
use auth_service::routes::verify_2fa::{verify2fa, VerifyRequest};
use auth_service::routes::verify_token::{verify_token, TokenRequest};
use auth_service::services::hashmap_two_fa_code_store::HashmapTwoFACodeStore;
use auth_service::services::hashmap_user_store::HashmapUserStore;
use auth_service::services::hashset_banned_token_store::HashsetBannedTokenStore;
use auth_service::services::mock_email_client::MockEmailClient;

const SECRET: &str = "test-signing-secret";
const NOW: u64 = 1_700_000_000;

fn signup_request(email: &str, password: &str, requires_2fa: bool) -> SignupRequest {
    SignupRequest {
        email: email.to_string(),
        password: password.to_string(),
        requires_2fa,
    }
}

fn login_request(email: &str, password: &str) -> LoginRequest {
    LoginRequest { email: email.to_string(), password: password.to_string() }
}

#[test]
fn signup_returns_201_if_valid_input() {
    let mut users = HashmapUserStore::new();
    let response = signup(&mut users, signup_request("example@email.com", "randompassword13k", true))
        .expect("Could not deserialize response body to UserBody");
    assert_eq!(response.message, "User created successfully!");
}

#[test]
fn signup_should_return_400_if_invalid_input() {
    let cases = [
        ("noatsymbol.com", "password132"),
        ("example@email.com", "short"),
        ("example@email.com", "seven77"),
        ("", "password132"),
    ];
    for (email, password) in cases {
        let mut users = HashmapUserStore::new();
        let err = signup(&mut users, signup_request(email, password, false)).unwrap_err();
        assert_eq!(err, AuthAPIError::InvalidCredentials);
        assert_eq!(err.status_code(), 400);
    }
}

#[test]
fn should_return_409_if_email_already_exists() {
    let mut users = HashmapUserStore::new();
    signup(&mut users, signup_request("example@email.com", "validpassword1235", false)).unwrap();
    let err = signup(&mut users, signup_request("example@email.com", "validpassword1235", false))
        .unwrap_err();
    assert_eq!(err, AuthAPIError::UserAlreadyExists);
    assert_eq!(err.status_code(), 409);
}

#[test]
fn login_should_return_400_if_invalid_input() {
    let users = HashmapUserStore::new();
    let mut codes = HashmapTwoFACodeStore::new();
    let client = MockEmailClient;

    let err = login(&users, &mut codes, &client, login_request("noatsymbol.com", "goodpassword1223"), SECRET, NOW)
        .unwrap_err();
    assert_eq!(err, AuthAPIError::InvalidCredentials);
    assert_eq!(err.status_code(), 400);

    let err = login(&users, &mut codes, &client, login_request("goodemail@email.com", "badpass"), SECRET, NOW)
        .unwrap_err();
    assert_eq!(err, AuthAPIError::InvalidCredentials);
    assert_eq!(err.status_code(), 400);
}

#[test]
fn login_should_return_401_if_incorrect_credentials() {
    let mut users = HashmapUserStore::new();
    let mut codes = HashmapTwoFACodeStore::new();
    let client = MockEmailClient;
    signup(&mut users, signup_request("example@email.com", "Password123", false)).unwrap();

    let err = login(
        &users,
        &mut codes,
        &client,
        login_request("nonexistenuser@email.com", "password123"),
        SECRET,
        NOW,
    )
    .unwrap_err();
    assert_eq!(err, AuthAPIError::IncorrectCredentials);
    assert_eq!(err.status_code(), 401);

    let err = login(
        &users,
        &mut codes,
        &client,
        login_request("example@email.com", "WrongPassword1"),
        SECRET,
        NOW,
    )
    .unwrap_err();
    assert_eq!(err, AuthAPIError::IncorrectCredentials);
}

#[test]
fn should_return_200_if_valid_creds_and_2fa_disabled() {
    let mut users = HashmapUserStore::new();
    let mut codes = HashmapTwoFACodeStore::new();
    let client = MockEmailClient;
    signup(&mut users, signup_request("example@email.com", "Password123", false)).unwrap();

    let (response, token) = login(
        &users,
        &mut codes,
        &client,
        login_request("example@email.com", "Password123"),
        SECRET,
        NOW,
    )
    .unwrap();
    assert_eq!(response, LoginResponse::RegularAuth);
    assert!(!token.is_empty(), "No auth cookie found");
}

#[test]
fn should_return_206_if_valid_credentials_and_2fa_enabled() {
    let mut users = HashmapUserStore::new();
    let mut codes = HashmapTwoFACodeStore::new();
    let client = MockEmailClient;
    signup(&mut users, signup_request("example@email.com", "Password123", true)).unwrap();

    let (response, _token) = login(
        &users,
        &mut codes,
        &client,
        login_request("example@email.com", "Password123"),
        SECRET,
        NOW,
    )
    .unwrap();

    let body = match response {
        LoginResponse::TwoFactorAuth(body) => body,
        LoginResponse::RegularAuth => {
            panic!("Could not deserialize response body to TwoFactorAuthResponse")
        },
    };
    assert_eq!(body.message, "2FA required");

    let email = Email::parse("example@email.com".to_string()).expect("email should be parsed ok");
    let (stored_id, _stored_code) = codes.get_code(&email).expect("should find the code ");
    assert_eq!(body.login_attempt_id, stored_id.as_str());
}

#[test]
fn verify_2fa_should_return_400_if_invalid_input() {
    let mut codes = HashmapTwoFACodeStore::new();
    let cases = [
        ("wrongemailnoat.com", "550e8400-e29b-41d4-a716-446655440000", "123456"),
        ("example@email.com", "InvalidUUID", "123456"),
        ("example@email.com", "550e8400-e29b-41d4-a716-446655440000", "1234"),
        ("example@email.com", "550e8400-e29b-41d4-a716-446655440000", "123jkl"),
        ("example@email.com", "550e8400-e29b-41d4-a716-446655440000", "123jkl7"),
    ];
    for (email, id, code) in cases {
        let err = verify2fa(
            &mut codes,
            VerifyRequest {
                email: email.to_string(),
                loginattemptid: id.to_string(),
                two_fa_code: code.to_string(),
            },
            SECRET,
            NOW,
        )
        .unwrap_err();
        assert_eq!(err, AuthAPIError::InvalidCredentials);
        assert_eq!(err.status_code(), 400);
    }
}

#[test]
fn verify_2fa_should_return_401_if_incorrect_credentials() {
    let mut users = HashmapUserStore::new();
    let mut codes = HashmapTwoFACodeStore::new();
    let client = MockEmailClient;
    signup(&mut users, signup_request("example@email.com", "Password123", true)).unwrap();
    login(&users, &mut codes, &client, login_request("example@email.com", "Password123"), SECRET, NOW)
        .expect("login id and 2FA code should be set");

    let email = Email::parse("example@email.com".to_string()).expect("an email should be parsed ");
    let (stored_id, stored_code) = codes.get_code(&email).unwrap();
    let wrong_code = if stored_code.as_str() == "123898" { "123899" } else { "123898" };

    let err = verify2fa(
        &mut codes,
        VerifyRequest {
            email: "example@email.com".to_string(),
            loginattemptid: stored_id.as_str().to_string(),
            two_fa_code: wrong_code.to_string(),
        },
        SECRET,
        NOW,
    )
    .unwrap_err();
    assert_eq!(err, AuthAPIError::IncorrectCredentials);
    assert_eq!(err.status_code(), 401);
}

#[test]
fn should_return_401_if_old_code() {
    let mut users = HashmapUserStore::new();
    let mut codes = HashmapTwoFACodeStore::new();
    let client = MockEmailClient;
    signup(&mut users, signup_request("example@email.com", "Password123", true)).unwrap();
    login(&users, &mut codes, &client, login_request("example@email.com", "Password123"), SECRET, NOW)
        .expect("login id and 2FA code should be set");

    let email = Email::parse("example@email.com".to_string()).expect("an email should be parsed ");
    let (old_id, old_code) = codes.get_code(&email).unwrap();

    // The first challenge is consumed, and a fresh login issues a new one.
    verify2fa(
        &mut codes,
        VerifyRequest {
            email: "example@email.com".to_string(),
            loginattemptid: old_id.as_str().to_string(),
            two_fa_code: old_code.as_str().to_string(),
        },
        SECRET,
        NOW,
    )
    .unwrap();
    login(&users, &mut codes, &client, login_request("example@email.com", "Password123"), SECRET, NOW)
        .expect("login id and 2FA code should be set");

    let err = verify2fa(
        &mut codes,
        VerifyRequest {
            email: "example@email.com".to_string(),
            loginattemptid: old_id.as_str().to_string(),
            two_fa_code: old_code.as_str().to_string(),
        },
        SECRET,
        NOW,
    )
    .unwrap_err();
    assert_eq!(err, AuthAPIError::IncorrectCredentials);
    assert_eq!(err.status_code(), 401);
}

#[test]
fn should_return_200_if_correct_code() {
    let mut users = HashmapUserStore::new();
    let mut codes = HashmapTwoFACodeStore::new();
    let client = MockEmailClient;
    signup(&mut users, signup_request("example@email.com", "Password123", true)).unwrap();
    login(&users, &mut codes, &client, login_request("example@email.com", "Password123"), SECRET, NOW)
        .expect("login id and 2FA code should be set");

    let email = Email::parse("example@email.com".to_string()).expect("an email should be parsed ");
    let (stored_id, stored_code) = codes.get_code(&email).unwrap();

    let token = verify2fa(
        &mut codes,
        VerifyRequest {
            email: "example@email.com".to_string(),
            loginattemptid: stored_id.as_str().to_string(),
            two_fa_code: stored_code.as_str().to_string(),
        },
        SECRET,
        NOW,
    )
    .expect("a cookie name jwt should be set");
    assert!(!token.is_empty());
}

#[test]
fn should_return_401_if_same_code_twice() {
    let mut users = HashmapUserStore::new();
    let mut codes = HashmapTwoFACodeStore::new();
    let client = MockEmailClient;
    signup(&mut users, signup_request("example@email.com", "Password123", true)).unwrap();
    login(&users, &mut codes, &client, login_request("example@email.com", "Password123"), SECRET, NOW)
        .expect("login id and 2FA code should be set");

    let email = Email::parse("example@email.com".to_string()).expect("an email should be parsed ");
    let (stored_id, stored_code) = codes.get_code(&email).unwrap();
    let request = || VerifyRequest {
        email: "example@email.com".to_string(),
        loginattemptid: stored_id.as_str().to_string(),
        two_fa_code: stored_code.as_str().to_string(),
    };

    verify2fa(&mut codes, request(), SECRET, NOW).unwrap();
    let err = verify2fa(&mut codes, request(), SECRET, NOW).unwrap_err();
    assert_eq!(err, AuthAPIError::IncorrectCredentials);
    assert_eq!(err.status_code(), 401);
}

#[test]
fn should_return_400_if_jwt_cookie_missing() {
    let mut banned = HashsetBannedTokenStore::new();
    let err = logout(&mut banned, None, SECRET, NOW).unwrap_err();
    assert_eq!(err, AuthAPIError::MissingToken);
    assert_eq!(err.status_code(), 400);
}

#[test]
fn logout_should_return_401_if_invalid_token() {
    let mut banned = HashsetBannedTokenStore::new();
    let err = logout(&mut banned, Some("invalid".to_string()), SECRET, NOW).unwrap_err();
    assert_eq!(err, AuthAPIError::InvalidToken);
    assert_eq!(err.status_code(), 401);
}

#[test]
fn should_return_200_if_valid_jwt_cookie() {
    let mut users = HashmapUserStore::new();
    let mut codes = HashmapTwoFACodeStore::new();
    let mut banned = HashsetBannedTokenStore::new();
    let client = MockEmailClient;
    signup(&mut users, signup_request("example@email.com", "Password123", false)).unwrap();
    let (_, token) = login(
        &users,
        &mut codes,
        &client,
        login_request("example@email.com", "Password123"),
        SECRET,
        NOW,
    )
    .unwrap();

    assert_eq!(logout(&mut banned, Some(token), SECRET, NOW), Ok(()));
}

#[test]
fn pass_if_jwt_is_added_to_banned_token_store() {
    let mut users = HashmapUserStore::new();
    let mut codes = HashmapTwoFACodeStore::new();
    let mut banned = HashsetBannedTokenStore::new();
    let client = MockEmailClient;
    signup(&mut users, signup_request("example@email.com", "Password123", false)).unwrap();
    let (_, token) = login(
        &users,
        &mut codes,
        &client,
        login_request("example@email.com", "Password123"),
        SECRET,
        NOW,
    )
    .expect("should find the cookie set up already");

    logout(&mut banned, Some(token.clone()), SECRET, NOW).unwrap();
    assert!(banned.is_token_banned(&token).unwrap(), "should be true");
}

#[test]
fn should_return_400_if_logout_called_twice_in_a_row() {
    let mut users = HashmapUserStore::new();
    let mut codes = HashmapTwoFACodeStore::new();
    let mut banned = HashsetBannedTokenStore::new();
    let client = MockEmailClient;
    signup(&mut users, signup_request("example@email.com", "Password123", false)).unwrap();
    let (_, token) = login(
        &users,
        &mut codes,
        &client,
        login_request("example@email.com", "Password123"),
        SECRET,
        NOW,
    )
    .unwrap();

    logout(&mut banned, Some(token), SECRET, NOW).unwrap();
    // The first logout cleared the cookie, so the second finds none.
    let err = logout(&mut banned, None, SECRET, NOW).unwrap_err();
    assert_eq!(err, AuthAPIError::MissingToken);
    assert_eq!(err.status_code(), 400);
}

#[test]
fn should_return_200_if_valid_token() {
    let mut users = HashmapUserStore::new();
    let mut codes = HashmapTwoFACodeStore::new();
    let banned = HashsetBannedTokenStore::new();
    let client = MockEmailClient;
    signup(&mut users, signup_request("example@email.com", "password123", false)).unwrap();
    let (_, token) = login(
        &users,
        &mut codes,
        &client,
        login_request("example@email.com", "password123"),
        SECRET,
        NOW,
    )
    .unwrap();

    assert_eq!(verify_token(&banned, TokenRequest { token }, SECRET, NOW), Ok(()));
}

#[test]
fn verify_token_should_return_401_if_invalid_token() {
    let banned = HashsetBannedTokenStore::new();
    let err = verify_token(
        &banned,
        TokenRequest { token: "random wrong token".to_string() },
        SECRET,
        NOW,
    )
    .unwrap_err();
    assert_eq!(err, AuthAPIError::InvalidToken);
    assert_eq!(err.status_code(), 401);
}

#[test]
fn should_return_401_if_banned_token() {
    let mut users = HashmapUserStore::new();
    let mut codes = HashmapTwoFACodeStore::new();
    let mut banned = HashsetBannedTokenStore::new();
    let client = MockEmailClient;
    signup(&mut users, signup_request("example@email.com", "Password123", false)).unwrap();
    let (_, token) = login(
        &users,
        &mut codes,
        &client,
        login_request("example@email.com", "Password123"),
        SECRET,
        NOW,
    )
    .expect("cookie should exist");

    logout(&mut banned, Some(token.clone()), SECRET, NOW).unwrap();
    let err = verify_token(&banned, TokenRequest { token }, SECRET, NOW).unwrap_err();
    assert_eq!(err, AuthAPIError::InvalidToken);
    assert_eq!(err.status_code(), 401);
}
