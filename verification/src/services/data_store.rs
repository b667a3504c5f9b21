use vstd::prelude::*;
use argon2::password_hash::rand_core::OsRng;
use argon2::password_hash::SaltString;
use argon2::{Argon2, Params, PasswordHash, PasswordHasher, PasswordVerifier};
use crate::domain::data_store::UserStoreError;
use crate::domain::email::{valid_email, Email};
use crate::domain::password::{valid_password, Password};
use crate::domain::user::{User, UserView};

verus! {

/// Whether the password-hash crate parses this string as a PHC-format hash.
pub uninterp spec fn phc_well_formed(s: Seq<char>) -> bool;

/// Whether this candidate password matches this PHC hash string, as argon2
/// decides it by recomputing with the salt and parameters taken from the
/// string; a function of the two strings alone.
pub uninterp spec fn argon2_matches(phc: Seq<char>, pw: Seq<char>) -> bool;

/// A verification attempt keeps "stored hash unusable" distinct from
/// "password mismatch".
enum VerifyOutcome {
    Match,
    Mismatch,
    BadHash,
}

/// Relies on password_hash's PasswordHash::new to parse the stored PHC string
/// and on argon2's PasswordVerifier::verify_password, which recomputes the
/// hash with the salt and parameters from the string and compares the
/// outputs; a mismatch is its dedicated password error, anything else is a
/// backend failure.
#[verifier::external_body]
fn argon2_verify(expected_pass_hash: &str, password_candidate: &str) -> (r: VerifyOutcome)
    ensures
        r is Match <==> argon2_matches(expected_pass_hash@, password_candidate@),
        r is Match ==> phc_well_formed(expected_pass_hash@),
        !phc_well_formed(expected_pass_hash@) ==> r is BadHash,
        r is Mismatch ==> phc_well_formed(expected_pass_hash@) && !argon2_matches(
            expected_pass_hash@,
            password_candidate@,
        ),
{
    match PasswordHash::new(expected_pass_hash) {
        Err(_) => VerifyOutcome::BadHash,
        Ok(parsed_hash) => {
            match Argon2::default().verify_password(password_candidate.as_bytes(), &parsed_hash) {
                Ok(()) => VerifyOutcome::Match,
                Err(argon2::password_hash::Error::Password) => VerifyOutcome::Mismatch,
                Err(_) => VerifyOutcome::BadHash,
            }
        },
    }
}

/// Relies on argon2's PasswordHasher::hash_password under a fresh random
/// salt. Of the random outcome only this holds: the rendered PHC string
/// parses back and verifies against the same password.
#[verifier::external_body]
fn argon2_hash(password: &str) -> (r: Option<String>)
    ensures
        match r {
            Some(h) => phc_well_formed(h@) && argon2_matches(h@, password@),
            None => true,
        },
{
    let salt = SaltString::generate(&mut OsRng);
    let hasher = Argon2::new(
        argon2::Algorithm::Argon2id,
        argon2::Version::V0x13,
        Params::new(1500, 2, 1, None).unwrap(),
    );
    match hasher.hash_password(password.as_bytes(), &salt) {
        Ok(h) => Some(h.to_string()),
        Err(_) => None,
    }
}

/// One-way hash of a raw password for storage at rest; the raw value is never
/// stored.
pub fn compute_password_hash(password: &str) -> (r: Result<String, UserStoreError>)
    ensures
        match r {
            Ok(h) => phc_well_formed(h@) && argon2_matches(h@, password@),
            Err(e) => e == UserStoreError::UnexpectedError,
        },
{
    match argon2_hash(password) {
        Some(h) => Ok(h),
        None => Err(UserStoreError::UnexpectedError),
    }
}

/// Verifies a raw candidate against a stored hash. An unusable stored hash is
/// an internal error, distinct from a plain mismatch.
pub fn verify_password_hash(expected_pass_hash: &str, password_candidate: &str) -> (r: Result<
    (),
    UserStoreError,
>)
    ensures
        match r {
            Ok(_) => argon2_matches(expected_pass_hash@, password_candidate@) && phc_well_formed(
                expected_pass_hash@,
            ),
            Err(e) => !argon2_matches(expected_pass_hash@, password_candidate@) && (e
                == UserStoreError::InvalidCredentials || e == UserStoreError::UnexpectedError) && (e
                == UserStoreError::InvalidCredentials ==> phc_well_formed(expected_pass_hash@)),
        },
{
    match argon2_verify(expected_pass_hash, password_candidate) {
        VerifyOutcome::Match => Ok(()),
        VerifyOutcome::Mismatch => Err(UserStoreError::InvalidCredentials),
        VerifyOutcome::BadHash => Err(UserStoreError::UnexpectedError),
    }
}

/// Rebuilds a user record from the columns a durable row holds, re-checking
/// the validation gates on the way in.
pub fn user_from_record(email: String, password_hash: String, requires_2fa: bool) -> (r: Result<
    User,
    UserStoreError,
>)
    ensures
        match r {
            Ok(u) => valid_email(email@) && valid_password(password_hash@) && u@ == (UserView {
                email: email@,
                password: password_hash@,
                requires_2fa,
            }),
            Err(e) => e == UserStoreError::UnexpectedError && !(valid_email(email@)
                && valid_password(password_hash@)),
        },
{
    let e = match Email::parse(email) {
        Ok(e) => e,
        Err(_) => {
            return Err(UserStoreError::UnexpectedError);
        },
    };
    let p = match Password::parse(password_hash) {
        Ok(p) => p,
        Err(_) => {
            return Err(UserStoreError::UnexpectedError);
        },
    };
    Ok(User::new(e, p, requires_2fa))
}

} // verus!
