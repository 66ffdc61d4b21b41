//! What the library hands to the mail transport: the endpoint and the body of
//! a send request. The transport itself runs outside the library.

use vstd::prelude::*;
use crate::subscriber_email::SubscriberEmail;

verus! {

/// One email, as the transport's JSON body carries it.
pub struct SendEmailRequest {
    pub from: String,
    pub to: String,
    pub subject: String,
    pub html_body: String,
    pub text_body: String,
}

/// The endpoint that accepts send requests, under the transport's base URL.
pub fn email_endpoint(base_url: &str) -> (r: String)
    ensures
        r@ == base_url@ + "/email"@,
{
    let mut url = String::from_str(base_url);
    url.append("/email");
    url
}

impl SendEmailRequest {
    /// A request from `sender` to `recipient` (an address that has been
    /// validated), with the given subject and bodies.
    pub fn new(
        sender: &SubscriberEmail,
        recipient: &str,
        subject: &str,
        html_content: &str,
        text_content: &str,
    ) -> (r: SendEmailRequest)
        ensures
            r.from@ == sender@,
            r.to@ == recipient@,
            r.subject@ == subject@,
            r.html_body@ == html_content@,
            r.text_body@ == text_content@,
    {
        SendEmailRequest {
            from: String::from_str(sender.as_ref()),
            to: String::from_str(recipient),
            subject: String::from_str(subject),
            html_body: String::from_str(html_content),
            text_body: String::from_str(text_content),
        }
    }
}

} // verus!
