use vstd::prelude::*;
use crate::domain::email::Email;
use crate::domain::email_client::EmailClient;

verus! {

/// Test double for the outbound mail collaborator: accepts every message.
#[derive(Debug)]
pub struct MockEmailClient;

impl EmailClient for MockEmailClient {
    fn send_email(&self, recipient: &Email, subject: &str, content: &str) -> (r: Result<
        (),
        String,
    >)
        ensures
            r is Ok,
    {
        Ok(())
    }
}

} // verus!
