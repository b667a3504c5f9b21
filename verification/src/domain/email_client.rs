use vstd::prelude::*;
use crate::domain::email::Email;

verus! {

/// Outbound delivery of the second-factor code. An external collaborator:
/// only the success-or-failure of `send_email` matters here, so nothing is
/// promised of its outcome.
pub trait EmailClient {
    fn send_email(&self, recipient: &Email, subject: &str, content: &str) -> (r: Result<
        (),
        String,
    >);
}

} // verus!
