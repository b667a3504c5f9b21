use auth_service::domain::data_store::{
    BannedTokenStore, LoginAttemptId, TwoFACode, TwoFACodeStore, UserStore, UserStoreError,
};
use auth_service::domain::email::Email;
use auth_service::domain::password::Password;
use auth_service::domain::user::User;
use auth_service::services::hashmap_two_fa_code_store::HashmapTwoFACodeStore;
use auth_service::services::hashmap_user_store::HashmapUserStore;
use auth_service::services::hashset_banned_token_store::HashsetBannedTokenStore;
use auth_service::utils::auth::generate_auth_token;

const SECRET: &str = "test-signing-secret";
const NOW: u64 = 1_700_000_000;

#[test]
fn test_add_user() {
    let email = Email::parse("email@example.com".to_string()).unwrap();
    let password = Password::parse("password123".to_string()).unwrap();
    let mut store = HashmapUserStore::new();
    let user = User::new(email.clone(), password, true);

    assert_eq!(store.add_user(user), Ok(()));
}

#[test]
fn test_get_user() {
    let email = Email::parse("email@example.com".to_string()).unwrap();
    let password = Password::parse("password123".to_string()).unwrap();
    let user = User::new(email.clone(), password.clone(), true);

    let mut store = HashmapUserStore::new();
    store.add_user(user).unwrap();

    assert_eq!(
        store.get_user("email@example.com"),
        Ok(User { email, password, requires_2fa: true })
    );
}

#[test]
fn test_validate_user() {
    let email = Email::parse("email@example.com".to_string()).unwrap();
    let password = Password::parse("password123".to_string()).unwrap();
    let user = User::new(email.clone(), password.clone(), true);

    let mut store = HashmapUserStore::new();
    store.add_user(user).unwrap();

    assert_eq!(store.validate_user(email.as_str(), password.as_str()), Ok(()));
}

#[test]
fn test_add_user_twice_reports_existing_user() {
    let email = Email::parse("email@example.com".to_string()).unwrap();
    let first = User::new(
        email.clone(),
        Password::parse("password123".to_string()).unwrap(),
        false,
    );
    let second = User::new(
        email,
        Password::parse("otherpassword".to_string()).unwrap(),
        true,
    );

    let mut store = HashmapUserStore::new();
    assert_eq!(store.add_user(first), Ok(()));
    assert_eq!(store.add_user(second), Err(UserStoreError::UserAlreadyExists));
}

#[test]
fn test_validate_user_wrong_password() {
    let email = Email::parse("email@example.com".to_string()).unwrap();
    let password = Password::parse("password123".to_string()).unwrap();
    let user = User::new(email.clone(), password, false);

    let mut store = HashmapUserStore::new();
    store.add_user(user).unwrap();

    assert_eq!(
        store.validate_user(email.as_str(), "wrongpassword"),
        Err(UserStoreError::InvalidCredentials)
    );
    assert_eq!(
        store.validate_user("missing@example.com", "password123"),
        Err(UserStoreError::UserNotFound)
    );
}

#[test]
fn tests_for_two_fa_store() {
    let email = Email::parse("test@email.com".to_string()).unwrap();
    let id = LoginAttemptId::default();
    let code = TwoFACode::default();
    let mut store = HashmapTwoFACodeStore::new();

    assert!(store.add_code(email.clone(), id.clone(), code.clone()).is_ok());
    assert_eq!(store.get_code(&email), Ok((id, code)));
    assert!(store.remove_code(&email).is_ok());
}

#[test]
fn test_store_token() {
    let mut store = HashsetBannedTokenStore::new();

    let email = Email::parse("example@email.com".to_string()).expect("Should parse the email");
    let token = generate_auth_token(&email, SECRET, NOW);

    let result = store.store_token(token);
    assert_eq!(result, Ok(()));
}

#[test]
fn test_is_token_banned() {
    let mut store = HashsetBannedTokenStore::new();

    let email = Email::parse("example@email.com".to_string()).expect("Should parse the email");
    let email1 = Email::parse("example2@email.com".to_string())
        .expect("Should parse the email succesfully");

    let token = generate_auth_token(&email, SECRET, NOW);
    let token2 = generate_auth_token(&email1, SECRET, NOW);

    store
        .store_token(token.clone())
        .expect("Should store the token successfully");

    let result = store.is_token_banned(&token).unwrap();
    let result2 = store.is_token_banned(&token2).unwrap();
    assert!(result);
    assert!(!result2, "This should be false ");
}
