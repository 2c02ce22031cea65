use vstd::prelude::*;
use vstd::string::*;

use crate::domain::SubscriberEmail;

verus! {

/// Sends emails, through an HTTP email service, from one sender address.
pub struct EmailClient {
    address: String,
    email: SubscriberEmail,
}

/// The JSON body of a request to the email service.
pub struct EmailRequest {
    pub sender: String,
    pub recipient: String,
    pub subject: String,
    pub html: String,
    pub plain: String,
}

impl View for EmailClient {
    /// The service's address and the sender's email.
    type V = (Seq<char>, Seq<char>);

    closed spec fn view(&self) -> (Seq<char>, Seq<char>) {
        (self.address@, self.email@)
    }
}

impl EmailClient {
    /// A client of the email service at `addr` that sends from `sender`.
    pub fn new(addr: String, sender: SubscriberEmail) -> (r: EmailClient)
        ensures
            r@ == (addr@, sender@),
    {
        EmailClient { address: addr, email: sender }
    }

    /// The address of the email service.
    pub fn address(&self) -> (r: &str)
        ensures
            r@ == self@.0,
    {
        self.address.as_str()
    }

    /// The sender's email.
    pub fn sender(&self) -> (r: &SubscriberEmail)
        ensures
            r@ == self@.1,
    {
        &self.email
    }

    /// The request that sends an email from this client's sender to `recipient`.
    pub fn request(&self, recipient: SubscriberEmail, subject: String, html: String, plain: &str) -> (r:
        EmailRequest)
        ensures
            r.sender@ == self@.1,
            r.recipient@ == recipient@,
            r.subject@ == subject@,
            r.html@ == html@,
            r.plain@ == plain@,
    {
        EmailRequest {
            sender: self.email.as_ref().to_string(),
            recipient: recipient.as_ref().to_string(),
            subject,
            html,
            plain: plain.to_string(),
        }
    }
}

impl Clone for EmailClient {
    fn clone(&self) -> (r: EmailClient)
        ensures
            r@ == self@,
    {
        EmailClient { address: self.address.clone(), email: self.email.duplicate() }
    }
}

} // verus!
