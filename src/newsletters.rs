//! Sending a newsletter issue to every confirmed subscriber.
//!
//! Stored addresses are validated again before use: one that no longer passes
//! is skipped with a warning and never aborts the issue. Delivery goes to the
//! remaining subscribers in store order and stops at the first send that
//! fails; the issue then fails with that send's cause.

use vstd::prelude::*;
use crate::store::{SubscriptionStore, confirmed_emails, texts};
use crate::subscriber_email::{SubscriberEmail, email_error, valid_email};
use crate::subscriptions::Failure;

verus! {

/// The content of an issue, in both formats.
pub struct Content {
    pub html: String,
    pub text: String,
}

/// An issue to publish.
pub struct BodyData {
    pub title: String,
    pub content: Content,
}

pub struct ConfirmedSubscriber {
    pub email: SubscriberEmail,
}

pub enum PublishError {
    UnexpectedError(Failure),
}

impl PublishError {
    /// The HTTP status for this error: always 500.
    pub fn status_code(&self) -> (r: u16)
        ensures
            r == 500,
    {
        500
    }

    /// The messages of the error and its causes, outermost first.
    pub fn chain(&self) -> (r: Vec<String>)
        ensures
            r@.map_values(|s: String| s@) == (match self {
                PublishError::UnexpectedError(f) => seq![f.context@, f.cause@],
            }),
    {
        let mut r: Vec<String> = Vec::new();
        match self {
            PublishError::UnexpectedError(f) => {
                r.push(f.context.clone());
                r.push(f.cause.clone());
            },
        }
        assert(r@.map_values(|s: String| s@) =~= (match self {
            PublishError::UnexpectedError(f) => seq![f.context@, f.cause@],
        }));
        r
    }
}

/// `parsed` holds, for each stored address in `raw`, in the same place, the
/// subscriber when it validates and the validation message when not.
pub open spec fn parsed_from(parsed: Seq<Result<ConfirmedSubscriber, String>>, raw: Seq<Seq<char>>) -> bool {
    &&& parsed.len() == raw.len()
    &&& forall|i: int|
        0 <= i < raw.len() ==> match #[trigger] parsed[i] {
            Ok(s) => valid_email(raw[i]) && s.email@ == raw[i],
            Err(m) => !valid_email(raw[i]) && m@ == email_error(raw[i]),
        }
}

/// The addresses of the subscribers that validated, in order.
pub open spec fn deliverable(parsed: Seq<Result<ConfirmedSubscriber, String>>) -> Seq<Seq<char>>
    decreases parsed.len(),
{
    if parsed.len() == 0 {
        Seq::empty()
    } else {
        let rest = deliverable(parsed.drop_last());
        match parsed.last() {
            Ok(s) => rest.push(s.email@),
            Err(_) => rest,
        }
    }
}

/// The addresses in `raw` that validate, in order.
pub open spec fn valid_addresses(raw: Seq<Seq<char>>) -> Seq<Seq<char>>
    decreases raw.len(),
{
    if raw.len() == 0 {
        Seq::empty()
    } else {
        let rest = valid_addresses(raw.drop_last());
        if valid_email(raw.last()) {
            rest.push(raw.last())
        } else {
            rest
        }
    }
}

/// Validates each stored address of a confirmed subscriber again.
pub fn parse_confirmed_subscribers(raw: Vec<String>) -> (r: Vec<Result<ConfirmedSubscriber, String>>)
    ensures
        parsed_from(r@, texts(raw@)),
{
    let ghost raw_texts = texts(raw@);
    let mut r: Vec<Result<ConfirmedSubscriber, String>> = Vec::new();
    let mut i: usize = 0;
    while i < raw.len()
        invariant
            raw_texts == texts(raw@),
            i <= raw@.len(),
            r@.len() == i,
            parsed_from(r@, raw_texts.subrange(0, i as int)),
        decreases raw.len() - i,
    {
        let s = raw[i].clone();
        let item = match SubscriberEmail::parse(s) {
            Ok(email) => Ok(ConfirmedSubscriber { email }),
            Err(e) => Err(e),
        };
        r.push(item);
        i = i + 1;
        assert(raw_texts.subrange(0, i as int).drop_last() =~= raw_texts.subrange(0, i - 1));
    }
    assert(raw_texts.subrange(0, i as int) =~= raw_texts);
    r
}

/// The confirmed subscribers of the store, each validated again.
pub fn get_confirmed_subscribers(store: &SubscriptionStore) -> (r: Vec<Result<ConfirmedSubscriber, String>>)
    ensures
        parsed_from(r@, confirmed_emails(store@.subscribers)),
{
    parse_confirmed_subscribers(store.confirmed_subscriber_emails())
}

/// Re-validation keeps exactly the stored addresses that pass, in order:
/// every malformed one is dropped and every valid one is kept once.
pub proof fn lemma_deliverable_are_valid_addresses(
    parsed: Seq<Result<ConfirmedSubscriber, String>>,
    raw: Seq<Seq<char>>,
)
    requires
        parsed_from(parsed, raw),
    ensures
        deliverable(parsed) == valid_addresses(raw),
    decreases raw.len(),
{
    if raw.len() > 0 {
        let n = raw.len() - 1;
        assert(parsed_from(parsed.drop_last(), raw.drop_last())) by {
            assert forall|i: int| 0 <= i < n implies #[trigger] parsed.drop_last()[i] == parsed[i]
                && raw.drop_last()[i] == raw[i] by {}
        }
        lemma_deliverable_are_valid_addresses(parsed.drop_last(), raw.drop_last());
        assert(match parsed[n] {
            Ok(s) => valid_email(raw[n]) && s.email@ == raw[n],
            Err(m) => !valid_email(raw[n]),
        });
    }
}

/// The state of a delivery, as values.
pub struct DeliveryView {
    /// The addresses to deliver to, in order.
    pub recipients: Seq<Seq<char>>,
    /// How many of them have been sent to.
    pub sent: nat,
    /// The context and cause of the send that failed, once one has.
    pub failure: Option<(Seq<char>, Seq<char>)>,
}

pub open spec fn delivery_done(d: DeliveryView) -> bool {
    d.failure is Some || d.sent == d.recipients.len()
}

pub open spec fn send_failure_context(recipient: Seq<char>) -> Seq<char> {
    "Failed to send newsletter issue to "@ + recipient
}

/// The sends of one issue, one recipient at a time. The caller asks for the
/// next recipient, sends, and records the outcome, until none is left.
pub struct NewsletterDelivery {
    recipients: Vec<String>,
    sent: usize,
    failure: Option<Failure>,
}

impl View for NewsletterDelivery {
    type V = DeliveryView;

    closed spec fn view(&self) -> DeliveryView {
        DeliveryView {
            recipients: texts(self.recipients@),
            sent: self.sent as nat,
            failure: match self.failure {
                Some(f) => Some((f.context@, f.cause@)),
                None => None,
            },
        }
    }
}

impl NewsletterDelivery {
    pub open spec fn wf(&self) -> bool {
        self@.sent <= self@.recipients.len()
    }

    /// A delivery to the subscribers whose addresses validated, in order;
    /// the others are skipped.
    pub fn new(subscribers: Vec<Result<ConfirmedSubscriber, String>>) -> (r: NewsletterDelivery)
        ensures
            r.wf(),
            r@.recipients == deliverable(subscribers@),
            r@.sent == 0,
            r@.failure is None,
    {
        let mut recipients: Vec<String> = Vec::new();
        let mut i: usize = 0;
        while i < subscribers.len()
            invariant
                i <= subscribers@.len(),
                texts(recipients@) == deliverable(subscribers@.subrange(0, i as int)),
            decreases subscribers.len() - i,
        {
            let ghost before = recipients@;
            assert(subscribers@.subrange(0, i + 1).drop_last() =~= subscribers@.subrange(0, i as int));
            match &subscribers[i] {
                Ok(s) => {
                    recipients.push(String::from_str(s.email.as_ref()));
                    assert(texts(recipients@) =~= texts(before).push(s.email@));
                },
                Err(_) => {},
            }
            i = i + 1;
        }
        assert(subscribers@.subrange(0, i as int) =~= subscribers@);
        NewsletterDelivery { recipients, sent: 0, failure: None }
    }

    /// The next address to send to, or `None` once every recipient has been
    /// sent to or a send has failed.
    pub fn next_recipient(&self) -> (r: Option<String>)
        requires
            self.wf(),
        ensures
            r is None <==> delivery_done(self@),
            r matches Some(e) ==> e@ == self@.recipients[self@.sent as int],
    {
        if self.failure.is_some() || self.sent >= self.recipients.len() {
            None
        } else {
            Some(self.recipients[self.sent].clone())
        }
    }

    /// Records the outcome of the send to the current recipient.
    pub fn record(&mut self, outcome: Result<(), String>)
        requires
            old(self).wf(),
            !delivery_done(old(self)@),
        ensures
            final(self).wf(),
            final(self)@.recipients == old(self)@.recipients,
            outcome is Ok ==> final(self)@.sent == old(self)@.sent + 1 && final(self)@.failure is None,
            outcome matches Err(cause) ==> final(self)@.sent == old(self)@.sent
                && final(self)@.failure == Some(
                (send_failure_context(old(self)@.recipients[old(self)@.sent as int]), cause@),
            ),
    {
        match outcome {
            Ok(()) => {
                assert(self.recipients@.len() == self@.recipients.len());
                assert(self.sent < self.recipients.len());
                self.sent = self.sent + 1;
            },
            Err(cause) => {
                let mut context = String::from_str("Failed to send newsletter issue to ");
                context.append(self.recipients[self.sent].as_str());
                self.failure = Some(Failure { context, cause });
            },
        }
    }

    /// The outcome of the issue: success when every recipient was sent to,
    /// else the failure of the send that stopped it.
    pub fn finish(self) -> (r: Result<(), PublishError>)
        requires
            self.wf(),
            delivery_done(self@),
        ensures
            r is Ok <==> self@.failure is None,
            r matches Err(PublishError::UnexpectedError(f)) ==> self@.failure == Some(
                (f.context@, f.cause@),
            ),
    {
        match self.failure {
            None => Ok(()),
            Some(f) => Err(PublishError::UnexpectedError(f)),
        }
    }
}

} // verus!
