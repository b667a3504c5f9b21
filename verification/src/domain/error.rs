use vstd::prelude::*;

verus! {

/// Outward error taxonomy of the authentication service. The boundary layer
/// turns each variant into one HTTP response and never exposes component
/// internals.
#[derive(Debug, PartialEq, Eq)]
pub enum AuthAPIError {
    IncorrectCredentials,
    InvalidCredentials,
    UnexpectedError,
    UserAlreadyExists,
    MissingToken,
    InvalidToken,
}

impl AuthAPIError {
    /// The HTTP status class each variant is surfaced as.
    pub open spec fn spec_status_code(&self) -> u16 {
        match self {
            AuthAPIError::UserAlreadyExists => 409,
            AuthAPIError::InvalidCredentials => 400,
            AuthAPIError::UnexpectedError => 500,
            AuthAPIError::IncorrectCredentials => 401,
            AuthAPIError::MissingToken => 400,
            AuthAPIError::InvalidToken => 401,
        }
    }

    pub fn status_code(&self) -> (r: u16)
        ensures
            r == self.spec_status_code(),
    {
        match self {
            AuthAPIError::UserAlreadyExists => 409,
            AuthAPIError::InvalidCredentials => 400,
            AuthAPIError::UnexpectedError => 500,
            AuthAPIError::IncorrectCredentials => 401,
            AuthAPIError::MissingToken => 400,
            AuthAPIError::InvalidToken => 401,
        }
    }

    /// The uniform outward message for each variant.
    pub fn error_message(&self) -> (r: &'static str)
        ensures
            match self {
                AuthAPIError::UserAlreadyExists => r@ == "User already exists"@,
                AuthAPIError::InvalidCredentials => r@ == "Invalid credentials"@,
                AuthAPIError::UnexpectedError => r@ == "Unexpected error"@,
                AuthAPIError::IncorrectCredentials => r@ == "User does not exist"@,
                AuthAPIError::MissingToken => r@ == "Missing token"@,
                AuthAPIError::InvalidToken => r@ == "Invalid token"@,
            },
    {
        match self {
            AuthAPIError::UserAlreadyExists => "User already exists",
            AuthAPIError::InvalidCredentials => "Invalid credentials",
            AuthAPIError::UnexpectedError => "Unexpected error",
            AuthAPIError::IncorrectCredentials => "User does not exist",
            AuthAPIError::MissingToken => "Missing token",
            AuthAPIError::InvalidToken => "Invalid token",
        }
    }
}

} // verus!
