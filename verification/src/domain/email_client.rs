use crate::domain::email::Email;
use vstd::prelude::*;

verus! {

/// The way out for messages to an identity.
///
/// Of a client that is [`dependable`](EmailClient::dependable) it is
/// known beforehand which messages it gets through:
/// [`delivers`](EmailClient::delivers) tells. Any other client may fail
/// for reasons of its own.
pub trait EmailClient {
    /// Whether this client's answers are the ones that
    /// [`delivers`](EmailClient::delivers) tells.
    open spec fn dependable(&self) -> bool {
        false
    }

    /// Whether this client gets a message with this subject and this
    /// content through to this recipient. A client that is not dependable
    /// tells nothing here.
    open spec fn delivers(
        &self,
        recipient: Seq<char>,
        subject: Seq<char>,
        content: Seq<char>,
    ) -> bool {
        false
    }

    /// Sends a message to `recipient`. On failure the answer says why, in
    /// words.
    fn send_email(&self, recipient: &Email, subject: &str, content: &str) -> (sent: Result<
        (),
        String,
    >)
        ensures
            self.dependable() ==> (sent is Ok <==> self.delivers(recipient@, subject@, content@)),
    ;
}

} // verus!
