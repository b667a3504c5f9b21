use vstd::prelude::*;
use vstd::string::*;
use rand::RngExt;
use crate::domain::email::Email;
use crate::domain::user::{User, UserView};
use crate::utils::digits::{
    all_digits, dec_val, lemma_dec_str_digits, lemma_dec_str_len6, lemma_dec_val_dec_str,
    render_u64, str_all_digits,
};

verus! {

// ---------------------------------------------------------------------------
// Login attempt identifiers
// ---------------------------------------------------------------------------
/// Whether the `uuid` crate accepts this string as a UUID.
pub uninterp spec fn uuid_parses(s: Seq<char>) -> bool;

/// The canonical hyphenated text that the `uuid` crate renders the UUID parsed
/// from this string to.
pub uninterp spec fn uuid_canonical(s: Seq<char>) -> Seq<char>;

/// Relies on uuid::Uuid::parse_str, which accepts the documented UUID text
/// forms, and on String::from(Uuid), which renders the canonical lowercase
/// hyphenated form; parsing that rendering yields the same UUID again.
#[verifier::external_body]
fn parse_uuid(id: &str) -> (r: Option<String>)
    ensures
        match r {
            Some(c) => uuid_parses(id@) && c@ == uuid_canonical(id@) && uuid_parses(c@)
                && uuid_canonical(c@) == c@ && c@.len() == 36,
            None => !uuid_parses(id@),
        },
{
    match uuid::Uuid::parse_str(id) {
        Ok(u) => Some(String::from(u)),
        Err(_) => None,
    }
}

/// Relies on uuid::Uuid::new_v4 and String::from(Uuid): a fresh random UUID,
/// rendered in its canonical lowercase hyphenated form, which is always 36
/// characters long.
#[verifier::external_body]
fn fresh_uuid_string() -> (r: String)
    ensures
        uuid_parses(r@),
        uuid_canonical(r@) == r@,
        r@.len() == 36,
{
    String::from(uuid::Uuid::new_v4())
}

/// An opaque random identifier for one pending login that awaits its second
/// factor; held in canonical UUID form, compared by exact string match.
#[derive(Debug, PartialEq, Eq)]
pub struct LoginAttemptId(String);

impl View for LoginAttemptId {
    type V = Seq<char>;

    closed spec fn view(&self) -> Seq<char> {
        self.0@
    }
}

impl LoginAttemptId {
    /// Every constructed identifier is the 36-character canonical hyphenated
    /// form, so rendering and re-parsing it gives the identifier back.
    pub open spec fn wf(&self) -> bool {
        uuid_parses(self@) && uuid_canonical(self@) == self@ && self@.len() == 36
    }

    /// What `parse` accepts, and the canonical form it normalises to.
    pub open spec fn spec_parse(s: Seq<char>) -> Option<Seq<char>> {
        if uuid_parses(s) {
            Some(uuid_canonical(s))
        } else {
            None
        }
    }

    pub fn parse(id: String) -> (r: Result<Self, String>)
        ensures
            match r {
                Ok(v) => Self::spec_parse(id@) == Some(v@) && v.wf(),
                Err(_) => Self::spec_parse(id@) is None,
            },
    {
        match parse_uuid(id.as_str()) {
            Some(c) => Ok(LoginAttemptId(c)),
            None => Err(String::from_str("Failed to parse UUID")),
        }
    }

    pub fn as_str(&self) -> (r: &str)
        ensures
            r@ == self@,
    {
        self.0.as_str()
    }

    /// Exact equality of two identifiers.
    pub fn eq_value(&self, other: &Self) -> (r: bool)
        ensures
            r == (self@ == other@),
    {
        self.0 == other.0
    }
}

impl Default for LoginAttemptId {
    /// A fresh random identifier.
    fn default() -> (r: Self)
        ensures
            r.wf(),
    {
        LoginAttemptId(fresh_uuid_string())
    }
}

impl Clone for LoginAttemptId {
    fn clone(&self) -> (r: Self)
        ensures
            r == *self,
    {
        LoginAttemptId(self.0.clone())
    }
}

// ---------------------------------------------------------------------------
// Two-factor codes
// ---------------------------------------------------------------------------
/// Relies on rand's Rng::random_range over a non-empty range: some value
/// inside the range, nothing else is promised of it.
#[verifier::external_body]
fn random_six_digit_number() -> (r: u64)
    ensures
        100000 <= r <= 999999,
{
    rand::rng().random_range(100000u64..=999999u64)
}

/// A second-factor challenge code: exactly six ASCII digits, compared by
/// exact equality.
#[derive(Debug, PartialEq, Eq)]
pub struct TwoFACode(String);

impl View for TwoFACode {
    type V = Seq<char>;

    closed spec fn view(&self) -> Seq<char> {
        self.0@
    }
}

impl TwoFACode {
    /// Every constructed code has exactly six digit characters.
    pub open spec fn wf(&self) -> bool {
        self@.len() == 6 && all_digits(self@)
    }

    pub fn parse(code: String) -> (r: Result<Self, String>)
        ensures
            match r {
                Ok(v) => v@ == code@ && code@.len() == 6 && all_digits(code@) && v.wf(),
                Err(_) => !(code@.len() == 6 && all_digits(code@)),
            },
    {
        if code.as_str().unicode_len() != 6 || !str_all_digits(code.as_str()) {
            Err(String::from_str("Code is not 6 digits"))
        } else {
            Ok(TwoFACode(code))
        }
    }

    pub fn as_str(&self) -> (r: &str)
        ensures
            r@ == self@,
    {
        self.0.as_str()
    }

    /// Exact equality of two codes.
    pub fn eq_value(&self, other: &Self) -> (r: bool)
        ensures
            r == (self@ == other@),
    {
        self.0 == other.0
    }
}

impl Default for TwoFACode {
    /// A uniformly random six-digit code in 100000..=999999, so the leading
    /// digit is never zero.
    fn default() -> (r: Self)
        ensures
            r.wf(),
            100000 <= dec_val(r@) <= 999999,
    {
        let n = random_six_digit_number();
        proof {
            lemma_dec_str_digits(n as nat);
            lemma_dec_str_len6(n as nat);
            lemma_dec_val_dec_str(n as nat);
        }
        TwoFACode(render_u64(n))
    }
}

impl Clone for TwoFACode {
    fn clone(&self) -> (r: Self)
        ensures
            r == *self,
    {
        TwoFACode(self.0.clone())
    }
}

// ---------------------------------------------------------------------------
// Store capability errors
// ---------------------------------------------------------------------------
#[derive(Debug, PartialEq, Eq)]
pub enum UserStoreError {
    UserAlreadyExists,
    UserNotFound,
    InvalidCredentials,
    UnexpectedError,
}

#[derive(Debug, PartialEq, Eq)]
pub enum BannedTokenStoreError {
    TokenAlreadyInStore,
    UnexpectedError,
}

#[derive(Debug, PartialEq, Eq)]
pub enum TwoFACodeStoreError {
    LoginAttemptIdNotFound,
    UnexpectedError,
}

// ---------------------------------------------------------------------------
// Store transition specifications
// ---------------------------------------------------------------------------
/// Adding a user fails exactly when the address is already a key; otherwise
/// the record is stored under its address.
pub open spec fn spec_add_user(m: Map<Seq<char>, UserView>, u: UserView) -> (Map<
    Seq<char>,
    UserView,
>, Result<(), UserStoreError>) {
    if m.contains_key(u.email) {
        (m, Err(UserStoreError::UserAlreadyExists))
    } else {
        (m.insert(u.email, u), Ok(()))
    }
}

/// Exact lookup by address.
pub open spec fn spec_get_user(m: Map<Seq<char>, UserView>, e: Seq<char>) -> Result<
    UserView,
    UserStoreError,
> {
    if m.contains_key(e) {
        Ok(m[e])
    } else {
        Err(UserStoreError::UserNotFound)
    }
}

/// Credential check: unknown address, exact match, or mismatch.
pub open spec fn spec_validate_user(
    m: Map<Seq<char>, UserView>,
    e: Seq<char>,
    p: Seq<char>,
) -> Result<(), UserStoreError> {
    if !m.contains_key(e) {
        Err(UserStoreError::UserNotFound)
    } else if m[e].password == p {
        Ok(())
    } else {
        Err(UserStoreError::InvalidCredentials)
    }
}

/// Banning a token records it; banning it again is reported.
pub open spec fn spec_store_token(s: Set<Seq<char>>, t: Seq<char>) -> (Set<Seq<char>>, Result<
    (),
    BannedTokenStoreError,
>) {
    if s.contains(t) {
        (s, Err(BannedTokenStoreError::TokenAlreadyInStore))
    } else {
        (s.insert(t), Ok(()))
    }
}

/// At most one pending challenge per address: an existing entry is never
/// overwritten, the attempt is reported instead.
pub open spec fn spec_add_code(
    m: Map<Seq<char>, (Seq<char>, Seq<char>)>,
    e: Seq<char>,
    id: Seq<char>,
    code: Seq<char>,
) -> (Map<Seq<char>, (Seq<char>, Seq<char>)>, Result<(), TwoFACodeStoreError>) {
    if m.contains_key(e) {
        (m, Err(TwoFACodeStoreError::UnexpectedError))
    } else {
        (m.insert(e, (id, code)), Ok(()))
    }
}

/// Consuming a pending challenge removes it; a missing one is reported.
pub open spec fn spec_remove_code(m: Map<Seq<char>, (Seq<char>, Seq<char>)>, e: Seq<char>) -> (Map<
    Seq<char>,
    (Seq<char>, Seq<char>),
>, Result<(), TwoFACodeStoreError>) {
    if m.contains_key(e) {
        (m.remove(e), Ok(()))
    } else {
        (m, Err(TwoFACodeStoreError::UnexpectedError))
    }
}

/// Reading the pending challenge for an address.
pub open spec fn spec_get_code(m: Map<Seq<char>, (Seq<char>, Seq<char>)>, e: Seq<char>) -> Result<
    (Seq<char>, Seq<char>),
    TwoFACodeStoreError,
> {
    if m.contains_key(e) {
        Ok(m[e])
    } else {
        Err(TwoFACodeStoreError::LoginAttemptIdNotFound)
    }
}

// ---------------------------------------------------------------------------
// Store capabilities
// ---------------------------------------------------------------------------
/// Persists user records, keyed uniquely by e-mail address.
pub trait UserStore: Sized {
    spec fn inv(&self) -> bool;

    /// The records held, as a map from address to record.
    spec fn users(&self) -> Map<Seq<char>, UserView>;

    fn add_user(&mut self, user: User) -> (r: Result<(), UserStoreError>)
        requires
            old(self).inv(),
            user.wf(),
        ensures
            final(self).inv(),
            final(self).users() == spec_add_user(old(self).users(), user@).0,
            r == spec_add_user(old(self).users(), user@).1,
    ;

    fn get_user(&self, email: &str) -> (r: Result<User, UserStoreError>)
        requires
            self.inv(),
        ensures
            match r {
                Ok(u) => spec_get_user(self.users(), email@) == Ok::<UserView, UserStoreError>(u@)
                    && u.wf() && u@.email == email@,
                Err(e) => spec_get_user(self.users(), email@) == Err::<UserView, UserStoreError>(e),
            },
    ;

    fn validate_user(&self, email: &str, password: &str) -> (r: Result<(), UserStoreError>)
        requires
            self.inv(),
        ensures
            r == spec_validate_user(self.users(), email@, password@),
    ;
}

/// Records revoked session tokens for the rest of their natural lifetime.
pub trait BannedTokenStore: Sized {
    spec fn inv(&self) -> bool;

    /// The set of banned tokens.
    spec fn banned(&self) -> Set<Seq<char>>;

    fn store_token(&mut self, token: String) -> (r: Result<(), BannedTokenStoreError>)
        requires
            old(self).inv(),
        ensures
            final(self).inv(),
            final(self).banned() == spec_store_token(old(self).banned(), token@).0,
            r == spec_store_token(old(self).banned(), token@).1,
    ;

    /// The contract pins the result to `Ok`, so the error variant is dead
    /// for the stores of this crate; it exists for fallible external
    /// backends of the same shape.
    fn is_token_banned(&self, token: &str) -> (r: Result<bool, BannedTokenStoreError>)
        requires
            self.inv(),
        ensures
            r == Ok::<bool, BannedTokenStoreError>(self.banned().contains(token@)),
    ;
}

/// Holds at most one pending two-factor challenge per address.
pub trait TwoFACodeStore: Sized {
    spec fn inv(&self) -> bool;

    /// The pending challenges, as a map from address to (attempt id, code).
    spec fn codes(&self) -> Map<Seq<char>, (Seq<char>, Seq<char>)>;

    fn add_code(&mut self, email: Email, login_attempt_id: LoginAttemptId, code: TwoFACode) -> (r:
        Result<(), TwoFACodeStoreError>)
        requires
            old(self).inv(),
        ensures
            final(self).inv(),
            final(self).codes() == spec_add_code(
                old(self).codes(),
                email@,
                login_attempt_id@,
                code@,
            ).0,
            r == spec_add_code(old(self).codes(), email@, login_attempt_id@, code@).1,
    ;

    fn remove_code(&mut self, email: &Email) -> (r: Result<(), TwoFACodeStoreError>)
        requires
            old(self).inv(),
        ensures
            final(self).inv(),
            final(self).codes() == spec_remove_code(old(self).codes(), email@).0,
            r == spec_remove_code(old(self).codes(), email@).1,
    ;

    fn get_code(&self, email: &Email) -> (r: Result<(LoginAttemptId, TwoFACode), TwoFACodeStoreError>)
        requires
            self.inv(),
        ensures
            match r {
                Ok(pair) => spec_get_code(self.codes(), email@) == Ok::<
                    (Seq<char>, Seq<char>),
                    TwoFACodeStoreError,
                >((pair.0@, pair.1@)),
                Err(e) => spec_get_code(self.codes(), email@) == Err::<
                    (Seq<char>, Seq<char>),
                    TwoFACodeStoreError,
                >(e),
            },
    ;
}

} // verus!
