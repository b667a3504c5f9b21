use vstd::prelude::*;
use crate::domain::data_store::{
    spec_add_user, spec_validate_user, uuid_canonical, uuid_parses, LoginAttemptId, UserStoreError,
};
use crate::domain::email::valid_email;
use crate::domain::error::AuthAPIError;
use crate::domain::user::UserView;
use crate::routes::login::spec_login_check;
use crate::routes::logout::spec_logout;
use crate::routes::signup::spec_signup;
use crate::routes::verify_2fa::spec_verify_2fa;
use crate::routes::verify_token::spec_verify_token_outcome;
use crate::utils::auth::spec_validate_token;
use crate::utils::digits::all_digits;

verus! {

/// Registering an address a second time fails with UserAlreadyExists and
/// leaves the store unchanged, whatever password comes with the second
/// attempt.
pub proof fn lemma_duplicate_user_rejected(
    m: Map<Seq<char>, UserView>,
    u1: UserView,
    u2: UserView,
)
    requires
        u1.email == u2.email,
        spec_add_user(m, u1).1 == Ok::<(), UserStoreError>(()),
    ensures
        spec_add_user(spec_add_user(m, u1).0, u2).1 == Err::<(), UserStoreError>(
            UserStoreError::UserAlreadyExists,
        ),
        spec_add_user(spec_add_user(m, u1).0, u2).0 == spec_add_user(m, u1).0,
{
}

/// For every registered address, validation succeeds with the stored password
/// and fails as InvalidCredentials with any other.
pub proof fn lemma_validate_user(m: Map<Seq<char>, UserView>, e: Seq<char>, p: Seq<char>)
    requires
        m.contains_key(e),
    ensures
        spec_validate_user(m, e, m[e].password) == Ok::<(), UserStoreError>(()),
        p != m[e].password ==> spec_validate_user(m, e, p) == Err::<(), UserStoreError>(
            UserStoreError::InvalidCredentials,
        ),
{
}

/// An attempt id in canonical form — every generated one is — comes back
/// unchanged from parsing its own rendering.
pub proof fn lemma_login_attempt_id_roundtrip(s: Seq<char>)
    requires
        uuid_parses(s),
        uuid_canonical(s) == s,
    ensures
        LoginAttemptId::spec_parse(s) == Some(s),
{
}

/// A user who just signed up can log in with the same credentials, and lands
/// on the second-factor branch exactly when signup asked for it.
pub proof fn lemma_signup_then_login(
    m: Map<Seq<char>, UserView>,
    e: Seq<char>,
    p: Seq<char>,
    requires_2fa: bool,
)
    requires
        spec_signup(m, e, p, requires_2fa).1 == Ok::<(), AuthAPIError>(()),
    ensures
        spec_login_check(spec_signup(m, e, p, requires_2fa).0, e, p) == Ok::<bool, AuthAPIError>(
            requires_2fa,
        ),
{
}

/// A pending challenge verifies exactly once: the matching id and code
/// consume it, and the very same values are rejected right afterwards.
pub proof fn lemma_2fa_replay_rejected(
    codes: Map<Seq<char>, (Seq<char>, Seq<char>)>,
    e: Seq<char>,
    id_raw: Seq<char>,
    code_raw: Seq<char>,
)
    requires
        valid_email(e),
        codes.contains_key(e),
        LoginAttemptId::spec_parse(id_raw) == Some(codes[e].0),
        code_raw == codes[e].1,
        code_raw.len() == 6,
        all_digits(code_raw),
    ensures
        spec_verify_2fa(codes, e, id_raw, code_raw).1 == Ok::<(), AuthAPIError>(()),
        spec_verify_2fa(codes, e, id_raw, code_raw).0 == codes.remove(e),
        spec_verify_2fa(spec_verify_2fa(codes, e, id_raw, code_raw).0, e, id_raw, code_raw).1
            == Err::<(), AuthAPIError>(AuthAPIError::IncorrectCredentials),
{
    assert(codes[e] == (codes[e].0, codes[e].1));
}

/// A token banned at logout fails the token check from that moment on, even
/// though its signature and expiry still validate on their own.
pub proof fn lemma_banned_token_rejected(
    banned: Set<Seq<char>>,
    tok: Seq<char>,
    secret: Seq<char>,
    now: u64,
)
    requires
        spec_logout(banned, Some(tok), secret, now).1 == Ok::<(), AuthAPIError>(()),
    ensures
        spec_validate_token(tok, secret, now) is Ok,
        spec_logout(banned, Some(tok), secret, now).0.contains(tok),
        spec_verify_token_outcome(spec_logout(banned, Some(tok), secret, now).0, tok, secret, now)
            == Err::<(), AuthAPIError>(AuthAPIError::InvalidToken),
{
}

/// After a successful logout, presenting the same cookie again is rejected as
/// already logged out, and presenting no cookie reports the missing token.
pub proof fn lemma_repeat_logout_rejected(
    banned: Set<Seq<char>>,
    tok: Seq<char>,
    secret: Seq<char>,
    now: u64,
)
    requires
        spec_logout(banned, Some(tok), secret, now).1 == Ok::<(), AuthAPIError>(()),
    ensures
        spec_logout(spec_logout(banned, Some(tok), secret, now).0, Some(tok), secret, now).1
            == Err::<(), AuthAPIError>(AuthAPIError::InvalidCredentials),
        spec_logout(spec_logout(banned, Some(tok), secret, now).0, None, secret, now).1 == Err::<
            (),
            AuthAPIError,
        >(AuthAPIError::MissingToken),
{
}

} // verus!
