use vstd::prelude::*;
use crate::domain::email::Email;
use crate::domain::password::Password;

verus! {

/// Mathematical image of a stored user record.
pub struct UserView {
    pub email: Seq<char>,
    pub password: Seq<char>,
    pub requires_2fa: bool,
}

/// A user record: created on signup, looked up on login, never mutated in
/// place.
#[derive(Debug, PartialEq)]
pub struct User {
    pub email: Email,
    pub password: Password,
    pub requires_2fa: bool,
}

impl View for User {
    type V = UserView;

    open spec fn view(&self) -> UserView {
        UserView { email: self.email@, password: self.password@, requires_2fa: self.requires_2fa }
    }
}

impl User {
    /// Both fields went through their validation gates.
    pub open spec fn wf(&self) -> bool {
        self.email.wf() && self.password.wf()
    }

    pub fn new(email: Email, password: Password, requires_2fa: bool) -> (r: Self)
        ensures
            r == (User { email, password, requires_2fa }),
    {
        User { email, password, requires_2fa }
    }
}

impl Clone for User {
    fn clone(&self) -> (r: Self)
        ensures
            r == *self,
    {
        User {
            email: self.email.clone(),
            password: self.password.clone(),
            requires_2fa: self.requires_2fa,
        }
    }
}

} // verus!
