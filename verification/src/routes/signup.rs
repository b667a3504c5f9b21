use vstd::prelude::*;
use vstd::string::*;
use crate::domain::data_store::UserStore;
use crate::domain::email::{valid_email, Email};
use crate::domain::error::AuthAPIError;
use crate::domain::password::{valid_password, Password};
use crate::domain::user::{User, UserView};

verus! {

/// Body of POST /signup.
#[derive(Debug)]
pub struct SignupRequest {
    pub email: String,
    pub password: String,
    pub requires_2fa: bool,
}

/// Body of the 201 response.
#[derive(Debug, PartialEq)]
pub struct SignupResponse {
    pub message: String,
}

/// The whole outcome of signup over the user map: semantically invalid input
/// is rejected before any store access, a taken address is a conflict, and
/// otherwise the record is stored under its address.
pub open spec fn spec_signup(
    m: Map<Seq<char>, UserView>,
    email: Seq<char>,
    password: Seq<char>,
    requires_2fa: bool,
) -> (Map<Seq<char>, UserView>, Result<(), AuthAPIError>) {
    if !valid_email(email) || !valid_password(password) {
        (m, Err(AuthAPIError::InvalidCredentials))
    } else if m.contains_key(email) {
        (m, Err(AuthAPIError::UserAlreadyExists))
    } else {
        (m.insert(email, UserView { email, password, requires_2fa }), Ok(()))
    }
}

/// Registers a new user.
pub fn signup<U: UserStore>(user_store: &mut U, request: SignupRequest) -> (r: Result<
    SignupResponse,
    AuthAPIError,
>)
    requires
        old(user_store).inv(),
    ensures
        final(user_store).inv(),
        final(user_store).users() == spec_signup(
            old(user_store).users(),
            request.email@,
            request.password@,
            request.requires_2fa,
        ).0,
        match r {
            Ok(resp) => spec_signup(
                old(user_store).users(),
                request.email@,
                request.password@,
                request.requires_2fa,
            ).1 == Ok::<(), AuthAPIError>(()) && resp.message@ == "User created successfully!"@,
            Err(e) => spec_signup(
                old(user_store).users(),
                request.email@,
                request.password@,
                request.requires_2fa,
            ).1 == Err::<(), AuthAPIError>(e),
        },
{
    let email = match Email::parse(request.email) {
        Ok(e) => e,
        Err(_) => {
            return Err(AuthAPIError::InvalidCredentials);
        },
    };
    let password = match Password::parse(request.password) {
        Ok(p) => p,
        Err(_) => {
            return Err(AuthAPIError::InvalidCredentials);
        },
    };
    let user = User { email: email.clone(), password, requires_2fa: request.requires_2fa };
    if user_store.get_user(email.as_str()).is_ok() {
        return Err(AuthAPIError::UserAlreadyExists);
    }
    match user_store.add_user(user) {
        Ok(()) => Ok(SignupResponse { message: String::from_str("User created successfully!") }),
        Err(_) => Err(AuthAPIError::UnexpectedError),
    }
}

} // verus!
