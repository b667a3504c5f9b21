use vstd::prelude::*;
use crate::domain::data_store::{LoginAttemptId, TwoFACode, TwoFACodeStore};
use crate::domain::email::{valid_email, Email};
use crate::domain::error::AuthAPIError;
use crate::utils::auth::{generate_auth_token, spec_token_of};
use crate::utils::constants::TOKEN_TTL_SECONDS;
use crate::utils::digits::all_digits;

verus! {

/// Body of POST /verify-2fa.
#[derive(Debug)]
pub struct VerifyRequest {
    pub email: String,
    pub loginattemptid: String,
    pub two_fa_code: String,
}

/// The whole outcome of a second-factor verification over the pending
/// challenges. Ill-formed fields are rejected before any store access; a
/// missing challenge or any mismatch of attempt id or code is an
/// authentication failure; an exact match consumes the challenge so the same
/// pair can never verify twice.
pub open spec fn spec_verify_2fa(
    codes: Map<Seq<char>, (Seq<char>, Seq<char>)>,
    email: Seq<char>,
    id_raw: Seq<char>,
    code_raw: Seq<char>,
) -> (Map<Seq<char>, (Seq<char>, Seq<char>)>, Result<(), AuthAPIError>) {
    if !valid_email(email) || LoginAttemptId::spec_parse(id_raw) is None || !(code_raw.len() == 6
        && all_digits(code_raw)) {
        (codes, Err(AuthAPIError::InvalidCredentials))
    } else if !codes.contains_key(email) {
        (codes, Err(AuthAPIError::IncorrectCredentials))
    } else if codes[email] != (LoginAttemptId::spec_parse(id_raw)->Some_0, code_raw) {
        (codes, Err(AuthAPIError::IncorrectCredentials))
    } else {
        (codes.remove(email), Ok(()))
    }
}

/// Verifies a pending second-factor challenge; on success the challenge is
/// consumed and a fresh session token is minted.
pub fn verify2fa<T: TwoFACodeStore>(
    two_fa_code_store: &mut T,
    request: VerifyRequest,
    secret: &str,
    now: u64,
) -> (r: Result<String, AuthAPIError>)
    requires
        old(two_fa_code_store).inv(),
        now + TOKEN_TTL_SECONDS <= u64::MAX,
    ensures
        final(two_fa_code_store).inv(),
        final(two_fa_code_store).codes() == spec_verify_2fa(
            old(two_fa_code_store).codes(),
            request.email@,
            request.loginattemptid@,
            request.two_fa_code@,
        ).0,
        match r {
            Ok(token) => spec_verify_2fa(
                old(two_fa_code_store).codes(),
                request.email@,
                request.loginattemptid@,
                request.two_fa_code@,
            ).1 == Ok::<(), AuthAPIError>(()) && token@ == spec_token_of(
                secret@,
                request.email@,
                (now + TOKEN_TTL_SECONDS) as u64,
            ),
            Err(e) => spec_verify_2fa(
                old(two_fa_code_store).codes(),
                request.email@,
                request.loginattemptid@,
                request.two_fa_code@,
            ).1 == Err::<(), AuthAPIError>(e),
        },
{
    let email = match Email::parse(request.email) {
        Ok(e) => e,
        Err(_) => {
            return Err(AuthAPIError::InvalidCredentials);
        },
    };
    let login_attempt_id = match LoginAttemptId::parse(request.loginattemptid) {
        Ok(id) => id,
        Err(_) => {
            return Err(AuthAPIError::InvalidCredentials);
        },
    };
    let two_fa_code = match TwoFACode::parse(request.two_fa_code) {
        Ok(code) => code,
        Err(_) => {
            return Err(AuthAPIError::InvalidCredentials);
        },
    };
    let (store_login_attempt_id, store_two_fa_code) = match two_fa_code_store.get_code(&email) {
        Ok(pair) => pair,
        Err(_) => {
            return Err(AuthAPIError::IncorrectCredentials);
        },
    };
    if !login_attempt_id.eq_value(&store_login_attempt_id) || !two_fa_code.eq_value(
        &store_two_fa_code,
    ) {
        return Err(AuthAPIError::IncorrectCredentials);
    }
    match two_fa_code_store.remove_code(&email) {
        Ok(()) => {},
        Err(_) => {
            return Err(AuthAPIError::UnexpectedError);
        },
    }
    Ok(generate_auth_token(&email, secret, now))
}

} // verus!
