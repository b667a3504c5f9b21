use vstd::prelude::*;
use vstd::string::*;
use crate::domain::data_store::{
    spec_validate_user, uuid_canonical, uuid_parses, LoginAttemptId, TwoFACode, TwoFACodeStore,
    UserStore, UserStoreError,
};
use crate::domain::email::{valid_email, Email};
use crate::domain::email_client::EmailClient;
use crate::domain::error::AuthAPIError;
use crate::domain::password::{valid_password, Password};
use crate::domain::user::UserView;
use crate::utils::auth::{generate_auth_token, spec_token_of};
use crate::utils::constants::TOKEN_TTL_SECONDS;
use crate::utils::digits::all_digits;

verus! {

/// Body of POST /login.
#[derive(Debug)]
pub struct LoginRequest {
    pub email: String,
    pub password: String,
}

/// Body of the 206 response: the attempt id goes out, the code never does.
#[derive(Debug, PartialEq)]
pub struct TwoFactorAuthResponse {
    pub message: String,
    pub login_attempt_id: String,
}

/// The two success responses of login.
#[derive(Debug, PartialEq)]
pub enum LoginResponse {
    RegularAuth,
    TwoFactorAuth(TwoFactorAuthResponse),
}

/// The credential phase of login: ill-formed fields are rejected before any
/// store access; failed validation or a missing record is one uniform
/// authentication failure; otherwise the user's second-factor setting decides
/// the branch.
pub open spec fn spec_login_check(
    m: Map<Seq<char>, UserView>,
    email: Seq<char>,
    password: Seq<char>,
) -> Result<bool, AuthAPIError> {
    if !valid_email(email) || !valid_password(password) {
        Err(AuthAPIError::InvalidCredentials)
    } else if spec_validate_user(m, email, password) != Ok::<(), UserStoreError>(()) {
        Err(AuthAPIError::IncorrectCredentials)
    } else {
        Ok(m[email].requires_2fa)
    }
}

/// What starting a second-factor challenge leaves behind, for an address with
/// no pending challenge: one fresh well-formed (attempt id, code) pair is
/// stored for the address and nothing else changes. If the code went out, the
/// response carries exactly the stored attempt id — never the code — and the
/// minted session token; if dispatch failed, the challenge stays stored and
/// the failure is internal.
pub open spec fn spec_2fa_issued(
    codes0: Map<Seq<char>, (Seq<char>, Seq<char>)>,
    codes1: Map<Seq<char>, (Seq<char>, Seq<char>)>,
    email: Seq<char>,
    r: Result<(LoginResponse, String), AuthAPIError>,
    secret: Seq<char>,
    exp: u64,
) -> bool {
    &&& codes1.contains_key(email)
    &&& codes1 == codes0.insert(email, codes1[email])
    &&& uuid_parses(codes1[email].0)
    &&& uuid_canonical(codes1[email].0) == codes1[email].0
    &&& codes1[email].0.len() == 36
    &&& codes1[email].1.len() == 6
    &&& all_digits(codes1[email].1)
    &&& match r {
        Ok(pair) => match pair.0 {
            LoginResponse::TwoFactorAuth(t) => t.login_attempt_id@ == codes1[email].0
                && t.message@ == "2FA required"@ && pair.1@ == spec_token_of(secret, email, exp),
            LoginResponse::RegularAuth => false,
        },
        Err(a) => a == AuthAPIError::UnexpectedError,
    }
}

fn handle_no_2fa(email: &Email, secret: &str, now: u64) -> (r: (LoginResponse, String))
    requires
        now + TOKEN_TTL_SECONDS <= u64::MAX,
    ensures
        r.0 == LoginResponse::RegularAuth,
        r.1@ == spec_token_of(secret@, email@, (now + TOKEN_TTL_SECONDS) as u64),
{
    (LoginResponse::RegularAuth, generate_auth_token(email, secret, now))
}

fn handle_2fa<T: TwoFACodeStore, E: EmailClient>(
    email: &Email,
    two_fa_code_store: &mut T,
    email_client: &E,
    secret: &str,
    now: u64,
) -> (r: Result<(LoginResponse, String), AuthAPIError>)
    requires
        old(two_fa_code_store).inv(),
        now + TOKEN_TTL_SECONDS <= u64::MAX,
    ensures
        final(two_fa_code_store).inv(),
        old(two_fa_code_store).codes().contains_key(email@) ==> r == Err::<
            (LoginResponse, String),
            AuthAPIError,
        >(AuthAPIError::UnexpectedError) && final(two_fa_code_store).codes() == old(two_fa_code_store).codes(),
        !old(two_fa_code_store).codes().contains_key(email@) ==> spec_2fa_issued(
            old(two_fa_code_store).codes(),
            final(two_fa_code_store).codes(),
            email@,
            r,
            secret@,
            (now + TOKEN_TTL_SECONDS) as u64,
        ),
{
    let auth_token = generate_auth_token(email, secret, now);
    let login_attempt_id = LoginAttemptId::default();
    let code = TwoFACode::default();
    match two_fa_code_store.add_code(email.clone(), login_attempt_id.clone(), code.clone()) {
        Ok(()) => {},
        Err(_) => {
            return Err(AuthAPIError::UnexpectedError);
        },
    }
    match email_client.send_email(email, login_attempt_id.as_str(), code.as_str()) {
        Ok(()) => {},
        Err(_) => {
            return Err(AuthAPIError::UnexpectedError);
        },
    }
    let response = TwoFactorAuthResponse {
        message: String::from_str("2FA required"),
        login_attempt_id: login_attempt_id.as_str().to_owned(),
    };
    Ok((LoginResponse::TwoFactorAuth(response), auth_token))
}

/// Authenticates a user and either opens a session or starts a second-factor
/// challenge.
pub fn login<U: UserStore, T: TwoFACodeStore, E: EmailClient>(
    user_store: &U,
    two_fa_code_store: &mut T,
    email_client: &E,
    request: LoginRequest,
    secret: &str,
    now: u64,
) -> (r: Result<(LoginResponse, String), AuthAPIError>)
    requires
        user_store.inv(),
        old(two_fa_code_store).inv(),
        now + TOKEN_TTL_SECONDS <= u64::MAX,
    ensures
        final(two_fa_code_store).inv(),
        spec_login_check(user_store.users(), request.email@, request.password@) matches Err(a)
            ==> r == Err::<(LoginResponse, String), AuthAPIError>(a) && final(two_fa_code_store).codes() == old(two_fa_code_store).codes(),
        spec_login_check(user_store.users(), request.email@, request.password@) == Ok::<
            bool,
            AuthAPIError,
        >(false) ==> final(two_fa_code_store).codes() == old(two_fa_code_store).codes() && match r {
            Ok(pair) => pair.0 == LoginResponse::RegularAuth && pair.1@ == spec_token_of(
                secret@,
                request.email@,
                (now + TOKEN_TTL_SECONDS) as u64,
            ),
            Err(_) => false,
        },
        spec_login_check(user_store.users(), request.email@, request.password@) == Ok::<
            bool,
            AuthAPIError,
        >(true) && old(two_fa_code_store).codes().contains_key(request.email@) ==> r == Err::<
            (LoginResponse, String),
            AuthAPIError,
        >(AuthAPIError::UnexpectedError) && final(two_fa_code_store).codes() == old(two_fa_code_store).codes(),
        spec_login_check(user_store.users(), request.email@, request.password@) == Ok::<
            bool,
            AuthAPIError,
        >(true) && !old(two_fa_code_store).codes().contains_key(request.email@)
            ==> spec_2fa_issued(
            old(two_fa_code_store).codes(),
            final(two_fa_code_store).codes(),
            request.email@,
            r,
            secret@,
            (now + TOKEN_TTL_SECONDS) as u64,
        ),
{
    let email = match Email::parse(request.email) {
        Ok(e) => e,
        Err(_) => {
            return Err(AuthAPIError::InvalidCredentials);
        },
    };
    let password = match Password::parse(request.password) {
        Ok(p) => p,
        Err(_) => {
            return Err(AuthAPIError::InvalidCredentials);
        },
    };
    if user_store.validate_user(email.as_str(), password.as_str()).is_err() {
        return Err(AuthAPIError::IncorrectCredentials);
    }
    let user = match user_store.get_user(email.as_str()) {
        Ok(u) => u,
        Err(_) => {
            return Err(AuthAPIError::IncorrectCredentials);
        },
    };
    if user.requires_2fa {
        handle_2fa(&user.email, two_fa_code_store, email_client, secret, now)
    } else {
        Ok(handle_no_2fa(&user.email, secret, now))
    }
}

} // verus!
