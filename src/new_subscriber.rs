//! A sign-up request whose fields have both been validated.

use vstd::prelude::*;
use crate::subscriber_email::{SubscriberEmail, valid_email, email_error};
use crate::subscriber_name::{SubscriberName, valid_name, name_error};
use crate::subscriptions::FormData;

verus! {

#[derive(Debug)]
pub struct NewSubscriber {
    pub name: SubscriberName,
    pub email: SubscriberEmail,
}

/// The message for a sign-up form that fails validation: the name is checked first.
pub open spec fn form_error(name: Seq<char>, email: Seq<char>) -> Seq<char> {
    if !valid_name(name) {
        name_error(name)
    } else {
        email_error(email)
    }
}

impl NewSubscriber {
    /// Validates both fields of a sign-up form.
    pub fn parse(form: FormData) -> (r: Result<NewSubscriber, String>)
        ensures
            r is Ok <==> valid_name(form.name@) && valid_email(form.email@),
            r matches Ok(s) ==> s.name@ == form.name@ && s.email@ == form.email@,
            r matches Err(msg) ==> msg@ == form_error(form.name@, form.email@),
    {
        let name = match SubscriberName::parse(form.name) {
            Ok(n) => n,
            Err(e) => return Err(e),
        };
        let email = match SubscriberEmail::parse(form.email) {
            Ok(e) => e,
            Err(e) => return Err(e),
        };
        Ok(NewSubscriber { name, email })
    }
}

} // verus!
