use vstd::prelude::*;
use vstd::string::*;

verus! {

/// A raw password is acceptable when it has at least 8 characters.
pub open spec fn valid_password(s: Seq<char>) -> bool {
    s.len() >= 8
}

/// A validated password. The raw form exists only transiently at signup and
/// login; construction through `parse` is the only validation gate.
#[derive(Debug, PartialEq, Eq)]
pub struct Password(String);

impl View for Password {
    type V = Seq<char>;

    closed spec fn view(&self) -> Seq<char> {
        self.0@
    }
}

#[derive(Debug, PartialEq, Eq)]
pub enum PasswordError {
    PasswordParseError,
}

impl Password {
    /// Every password that was built by `parse` satisfies this.
    pub open spec fn wf(&self) -> bool {
        valid_password(self@)
    }

    pub fn parse(password: String) -> (r: Result<Password, PasswordError>)
        ensures
            match r {
                Ok(p) => p@ == password@ && valid_password(password@),
                Err(e) => e == PasswordError::PasswordParseError && !valid_password(password@),
            },
    {
        if password.as_str().unicode_len() < 8 {
            Err(PasswordError::PasswordParseError)
        } else {
            Ok(Password(password))
        }
    }

    pub fn as_str(&self) -> (r: &str)
        ensures
            r@ == self@,
    {
        self.0.as_str()
    }

    /// Exact comparison with a raw candidate.
    pub fn eq_string(&self, other: &String) -> (r: bool)
        ensures
            r == (self@ == other@),
    {
        self.0 == *other
    }
}

impl Clone for Password {
    fn clone(&self) -> (r: Self)
        ensures
            r == *self,
    {
        Password(self.0.clone())
    }
}

} // verus!
