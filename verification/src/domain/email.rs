use vstd::prelude::*;
use vstd::string::*;

verus! {

/// An address is acceptable when some character is an `@`; such a string is
/// necessarily non-empty.
pub open spec fn valid_email(s: Seq<char>) -> bool {
    exists|i: int| 0 <= i < s.len() && s[i] == '@'
}

/// A validated e-mail address: the unique identity and lookup key for every
/// per-user record. Construction through `parse` is the only validation gate;
/// a value is never mutated afterwards.
#[derive(Debug, PartialEq, Eq)]
pub struct Email(String);

impl View for Email {
    type V = Seq<char>;

    closed spec fn view(&self) -> Seq<char> {
        self.0@
    }
}

#[derive(Debug, PartialEq, Eq)]
pub enum EmailError {
    EmailParseError,
}

impl Email {
    /// Every address that was built by `parse` satisfies this.
    pub open spec fn wf(&self) -> bool {
        valid_email(self@)
    }

    pub fn parse(email: String) -> (r: Result<Email, EmailError>)
        ensures
            match r {
                Ok(e) => e@ == email@ && valid_email(email@),
                Err(e) => e == EmailError::EmailParseError && !valid_email(email@),
            },
    {
        if str_contains_at(email.as_str()) {
            Ok(Email(email))
        } else {
            Err(EmailError::EmailParseError)
        }
    }

    pub fn as_str(&self) -> (r: &str)
        ensures
            r@ == self@,
    {
        self.0.as_str()
    }

    /// Exact comparison with a raw string key.
    pub fn eq_string(&self, other: &String) -> (r: bool)
        ensures
            r == (self@ == other@),
    {
        self.0 == *other
    }
}

impl Clone for Email {
    fn clone(&self) -> (r: Self)
        ensures
            r == *self,
    {
        Email(self.0.clone())
    }
}

fn str_contains_at(s: &str) -> (r: bool)
    ensures
        r == valid_email(s@),
{
    let len = s.unicode_len();
    let mut i: usize = 0;
    while i < len
        invariant
            0 <= i <= len,
            len == s@.len(),
            forall|j: int| 0 <= j < i ==> s@[j] != '@',
        decreases len - i,
    {
        if s.get_char(i) == '@' {
            return true;
        }
        i = i + 1;
    }
    false
}

} // verus!
