use crate::domain::email::Email;
use crate::domain::email_client::EmailClient;
use vstd::prelude::*;

verus! {

/// A client that sends nothing and reports every message as sent.
#[derive(Debug, Clone, Copy, Default)]
pub struct MockEmailClient;

impl EmailClient for MockEmailClient {
    open spec fn dependable(&self) -> bool {
        true
    }

    open spec fn delivers(
        &self,
        recipient: Seq<char>,
        subject: Seq<char>,
        content: Seq<char>,
    ) -> bool {
        true
    }

    fn send_email(&self, recipient: &Email, subject: &str, content: &str) -> (sent: Result<
        (),
        String,
    >) {
        Ok(())
    }
}

} // verus!
