use vstd::prelude::*;
use crate::domain::data_store::{BannedTokenStore, BannedTokenStoreError};
use crate::domain::error::AuthAPIError;
use crate::utils::auth::{spec_validate_token, validate_token};

verus! {

/// The whole outcome of logout over the ban list. Without a session cookie
/// there is nothing to revoke; a token that no longer validates is rejected;
/// a token banned once already means the session was logged out before; and
/// otherwise the token joins the ban list for the rest of its lifetime.
pub open spec fn spec_logout(
    banned: Set<Seq<char>>,
    cookie: Option<Seq<char>>,
    secret: Seq<char>,
    now: u64,
) -> (Set<Seq<char>>, Result<(), AuthAPIError>) {
    match cookie {
        None => (banned, Err(AuthAPIError::MissingToken)),
        Some(tok) => {
            if spec_validate_token(tok, secret, now) is Err {
                (banned, Err(AuthAPIError::InvalidToken))
            } else if banned.contains(tok) {
                (banned, Err(AuthAPIError::InvalidCredentials))
            } else {
                (banned.insert(tok), Ok(()))
            }
        },
    }
}

/// Revokes the session held in the cookie, if any; on success the boundary
/// layer clears the cookie.
pub fn logout<B: BannedTokenStore>(
    banned_token_store: &mut B,
    cookie: Option<String>,
    secret: &str,
    now: u64,
) -> (r: Result<(), AuthAPIError>)
    requires
        old(banned_token_store).inv(),
    ensures
        final(banned_token_store).inv(),
        final(banned_token_store).banned() == spec_logout(
            old(banned_token_store).banned(),
            match cookie {
                Some(t) => Some(t@),
                None => None,
            },
            secret@,
            now,
        ).0,
        r == spec_logout(
            old(banned_token_store).banned(),
            match cookie {
                Some(t) => Some(t@),
                None => None,
            },
            secret@,
            now,
        ).1,
{
    match cookie {
        None => Err(AuthAPIError::MissingToken),
        Some(token) => {
            match validate_token(token.as_str(), secret, now) {
                Err(_) => Err(AuthAPIError::InvalidToken),
                Ok(_claims) => {
                    match banned_token_store.store_token(token) {
                        Ok(()) => Ok(()),
                        Err(BannedTokenStoreError::TokenAlreadyInStore) => Err(
                            AuthAPIError::InvalidCredentials,
                        ),
                        Err(_) => Err(AuthAPIError::UnexpectedError),
                    }
                },
            }
        },
    }
}

} // verus!
