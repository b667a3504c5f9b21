use vstd::prelude::*;
use crate::domain::data_store::BannedTokenStore;
use crate::domain::error::AuthAPIError;
use crate::utils::auth::{spec_validate_token, validate_token};

verus! {

/// Body of POST /verify-token.
#[derive(Debug)]
pub struct TokenRequest {
    pub token: String,
}

/// A session token is accepted only when it is not banned and still carries a
/// good signature and a live expiry; the check against the ban list comes
/// first.
pub open spec fn spec_verify_token_outcome(
    banned: Set<Seq<char>>,
    tok: Seq<char>,
    secret: Seq<char>,
    now: u64,
) -> Result<(), AuthAPIError> {
    if banned.contains(tok) {
        Err(AuthAPIError::InvalidToken)
    } else if spec_validate_token(tok, secret, now) is Err {
        Err(AuthAPIError::InvalidToken)
    } else {
        Ok(())
    }
}

/// Checks a session token for downstream consumers.
pub fn verify_token<B: BannedTokenStore>(
    banned_token_store: &B,
    request: TokenRequest,
    secret: &str,
    now: u64,
) -> (r: Result<(), AuthAPIError>)
    requires
        banned_token_store.inv(),
    ensures
        r == spec_verify_token_outcome(
            banned_token_store.banned(),
            request.token@,
            secret@,
            now,
        ),
{
    match banned_token_store.is_token_banned(request.token.as_str()) {
        Ok(true) => Err(AuthAPIError::InvalidToken),
        Ok(false) => {
            match validate_token(request.token.as_str(), secret, now) {
                Ok(_claims) => Ok(()),
                Err(_) => Err(AuthAPIError::InvalidToken),
            }
        },
        Err(_) => Err(AuthAPIError::InvalidToken),
    }
}

} // verus!
