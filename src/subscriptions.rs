//! Signing up: validation, the transactional write of subscriber and token,
//! and the confirmation email that follows the commit.

use vstd::prelude::*;
use rand::Rng;
use crate::new_subscriber::{NewSubscriber, form_error};
use crate::store::{
    StoreError, StoreView, SubscriptionStore, TokenRow, has_email, has_id, has_token,
    pending_row, store_error_text, lemma_has_id_concat, commit_ok,
};
use crate::subscriber_email::{SubscriberEmail, is_ascii_alnum, valid_email};
use crate::subscriber_name::valid_name;
use crate::text::push_char;

verus! {

/// The fields of a sign-up form, as submitted.
pub struct FormData {
    pub email: String,
    pub name: String,
}

/// Number of characters in a subscription token.
pub const TOKEN_LENGTH: usize = 25;

/// Relies on rand's `Alphanumeric` distribution sampled from `thread_rng()`:
/// one byte drawn from `A-Z`, `a-z` and `0-9`, taken as a character.
#[verifier::external_body]
fn random_alphanumeric() -> (c: char)
    ensures
        is_ascii_alnum(c),
{
    char::from(rand::thread_rng().sample(rand::distributions::Alphanumeric))
}

/// A fresh token of 25 random letters and digits.
pub fn generate_subscriptions_token() -> (r: String)
    ensures
        r@.len() == TOKEN_LENGTH,
        forall|i: int| 0 <= i < r@.len() ==> is_ascii_alnum(#[trigger] r@[i]),
{
    let mut token = String::new();
    let mut i: usize = 0;
    while i < TOKEN_LENGTH
        invariant
            i <= TOKEN_LENGTH,
            token@.len() == i,
            forall|j: int| 0 <= j < token@.len() ==> is_ascii_alnum(#[trigger] token@[j]),
        decreases TOKEN_LENGTH - i,
    {
        push_char(&mut token, random_alphanumeric());
        i = i + 1;
    }
    token
}

pub open spec fn confirmation_link(base_url: Seq<char>, token: Seq<char>) -> Seq<char> {
    base_url + "/subscriptions/confirm?subscription_token="@ + token
}

pub open spec fn confirmation_text_body(link: Seq<char>) -> Seq<char> {
    "Welcome to our newsletter!\nVisit "@ + link + " to confirm your subscription."@
}

pub open spec fn confirmation_html_body(link: Seq<char>) -> Seq<char> {
    "Welcome to our newsletter!<br />/Click <a href=\""@ + link
        + "\">here</a> to confirm your subscription."@
}

/// The email that asks a new subscriber to confirm.
pub struct ConfirmationEmail {
    pub recipient: SubscriberEmail,
    pub subject: String,
    pub html_body: String,
    pub text_body: String,
}

impl ConfirmationEmail {
    /// The confirmation email for `recipient`, linking to the confirmation
    /// endpoint under `base_url` with `subscription_token`.
    pub fn new(recipient: SubscriberEmail, base_url: &str, subscription_token: &str) -> (r:
        ConfirmationEmail)
        ensures
            r.recipient@ == recipient@,
            r.subject@ == "Welcome!"@,
            r.text_body@ == confirmation_text_body(confirmation_link(base_url@, subscription_token@)),
            r.html_body@ == confirmation_html_body(confirmation_link(base_url@, subscription_token@)),
    {
        let mut link = String::from_str(base_url);
        link.append("/subscriptions/confirm?subscription_token=");
        link.append(subscription_token);
        let mut text_body = String::from_str("Welcome to our newsletter!\nVisit ");
        text_body.append(link.as_str());
        text_body.append(" to confirm your subscription.");
        let mut html_body = String::from_str("Welcome to our newsletter!<br />/Click <a href=\"");
        html_body.append(link.as_str());
        html_body.append("\">here</a> to confirm your subscription.");
        ConfirmationEmail {
            recipient,
            subject: String::from_str("Welcome!"),
            html_body,
            text_body,
        }
    }
}

/// The steps of a sign-up after validation, in order.
#[derive(Clone, Copy, Debug, PartialEq, Eq, Structural)]
pub enum SubscribeStep {
    BeginTransaction,
    InsertSubscriber,
    StoreToken,
    Commit,
    SendConfirmationEmail,
}

pub open spec fn step_context(step: SubscribeStep) -> Seq<char> {
    match step {
        SubscribeStep::BeginTransaction => "Failed to acquire a Postgres connection from the pool"@,
        SubscribeStep::InsertSubscriber => "Failed to insert new subscriber in the database"@,
        SubscribeStep::StoreToken => "Failed to store the confirmation token for a new subscriber"@,
        SubscribeStep::Commit => "Failed to commit SQL transaction to store a new subscriber"@,
        SubscribeStep::SendConfirmationEmail => "Failed to send a confirmation email"@,
    }
}

impl SubscribeStep {
    /// What was being done when this step failed.
    pub fn context(&self) -> (r: String)
        ensures
            r@ == step_context(*self),
    {
        match self {
            SubscribeStep::BeginTransaction => String::from_str(
                "Failed to acquire a Postgres connection from the pool",
            ),
            SubscribeStep::InsertSubscriber => String::from_str(
                "Failed to insert new subscriber in the database",
            ),
            SubscribeStep::StoreToken => String::from_str(
                "Failed to store the confirmation token for a new subscriber",
            ),
            SubscribeStep::Commit => String::from_str(
                "Failed to commit SQL transaction to store a new subscriber",
            ),
            SubscribeStep::SendConfirmationEmail => String::from_str(
                "Failed to send a confirmation email",
            ),
        }
    }

    /// The steps that touch the store; a failure there is a persistence error.
    pub open spec fn is_persistence(self) -> bool {
        !(self is SendConfirmationEmail)
    }
}

/// The step that follows `step` when it succeeds; none after the email.
pub open spec fn step_after(step: SubscribeStep) -> Option<SubscribeStep> {
    match step {
        SubscribeStep::BeginTransaction => Some(SubscribeStep::InsertSubscriber),
        SubscribeStep::InsertSubscriber => Some(SubscribeStep::StoreToken),
        SubscribeStep::StoreToken => Some(SubscribeStep::Commit),
        SubscribeStep::Commit => Some(SubscribeStep::SendConfirmationEmail),
        SubscribeStep::SendConfirmationEmail => None,
    }
}

/// Decides what a sign-up does once `step` has run with `outcome`: the next
/// step when it succeeded (`None` when the sign-up is complete), or the
/// error for its failure. Starting from `BeginTransaction`, the steps run in
/// the order begin, insert subscriber, store token, commit, send email, so
/// the email goes out only after the commit.
pub fn advance_subscribe(step: SubscribeStep, outcome: Result<(), String>) -> (r: Result<
    Option<SubscribeStep>,
    SubscribeError,
>)
    ensures
        outcome is Ok ==> r == Ok::<Option<SubscribeStep>, SubscribeError>(step_after(step)),
        outcome matches Err(cause) ==> (r matches Err(e) && is_step_failure(e, step, cause@)),
{
    match outcome {
        Err(cause) => Err(SubscribeError::at_step(step, cause)),
        Ok(()) => Ok(
            match step {
                SubscribeStep::BeginTransaction => Some(SubscribeStep::InsertSubscriber),
                SubscribeStep::InsertSubscriber => Some(SubscribeStep::StoreToken),
                SubscribeStep::StoreToken => Some(SubscribeStep::Commit),
                SubscribeStep::Commit => Some(SubscribeStep::SendConfirmationEmail),
                SubscribeStep::SendConfirmationEmail => None,
            },
        ),
    }
}

/// A downstream failure: what was being done, and what went wrong.
pub struct Failure {
    pub context: String,
    pub cause: String,
}

pub enum SubscribeError {
    /// The form did not validate; nothing was written.
    ValidationError(String),
    /// The store failed or refused a write; nothing was written.
    PersistenceError(Failure),
    /// Anything else, such as the confirmation email failing after the commit.
    UnexpectedError(Failure),
}

/// `e` is the failure of `step` with the given cause.
pub open spec fn is_step_failure(e: SubscribeError, step: SubscribeStep, cause: Seq<char>) -> bool {
    match e {
        SubscribeError::PersistenceError(f) => step.is_persistence() && f.context@ == step_context(
            step,
        ) && f.cause@ == cause,
        SubscribeError::UnexpectedError(f) => !step.is_persistence() && f.context@ == step_context(
            step,
        ) && f.cause@ == cause,
        SubscribeError::ValidationError(_) => false,
    }
}

/// The text of each error in a chain, outermost first.
pub open spec fn subscribe_error_chain(e: SubscribeError) -> Seq<Seq<char>> {
    match e {
        SubscribeError::ValidationError(m) => seq![m@],
        SubscribeError::PersistenceError(f) => seq![f.context@, f.cause@],
        SubscribeError::UnexpectedError(f) => seq![f.context@, f.cause@],
    }
}

impl SubscribeError {
    /// The error for a failure of `step`: a persistence error while the store
    /// is being written, an unexpected error afterwards.
    pub fn at_step(step: SubscribeStep, cause: String) -> (r: SubscribeError)
        ensures
            is_step_failure(r, step, cause@),
    {
        let failure = Failure { context: step.context(), cause };
        match step {
            SubscribeStep::SendConfirmationEmail => SubscribeError::UnexpectedError(failure),
            _ => SubscribeError::PersistenceError(failure),
        }
    }

    /// The HTTP status for this error: 400 for bad input, 500 otherwise.
    pub fn status_code(&self) -> (r: u16)
        ensures
            r == (if self is ValidationError { 400u16 } else { 500u16 }),
    {
        match self {
            SubscribeError::ValidationError(_) => 400,
            _ => 500,
        }
    }

    /// The messages of the error and its causes, outermost first.
    pub fn chain(&self) -> (r: Vec<String>)
        ensures
            r@.map_values(|s: String| s@) == subscribe_error_chain(*self),
    {
        let mut r: Vec<String> = Vec::new();
        match self {
            SubscribeError::ValidationError(m) => {
                r.push(m.clone());
            },
            SubscribeError::PersistenceError(f) | SubscribeError::UnexpectedError(f) => {
                r.push(f.context.clone());
                r.push(f.cause.clone());
            },
        }
        assert(r@.map_values(|s: String| s@) =~= subscribe_error_chain(*self));
        r
    }
}

/// The text that reports an error and its causes: the error on a line of its
/// own followed by a blank line, then one `Caused by:` entry per cause.
pub open spec fn chain_text(chain: Seq<Seq<char>>) -> Seq<char> {
    if chain.len() == 0 {
        Seq::empty()
    } else {
        chain[0] + "\n\n"@ + causes_text(chain.drop_first())
    }
}

pub open spec fn causes_text(causes: Seq<Seq<char>>) -> Seq<char>
    decreases causes.len(),
{
    if causes.len() == 0 {
        Seq::empty()
    } else {
        causes_text(causes.drop_last()) + "Caused by:\n\t"@ + causes.last() + "\n"@
    }
}

/// Renders an error chain (outermost first) as `chain_text` describes.
pub fn error_chain_fmt(chain: &Vec<String>) -> (r: String)
    ensures
        r@ == chain_text(chain@.map_values(|s: String| s@)),
{
    let ghost texts = chain@.map_values(|s: String| s@);
    if chain.len() == 0 {
        return String::new();
    }
    let mut out = chain[0].clone();
    out.append("\n\n");
    let ghost head = out@;
    let ghost causes = texts.drop_first();
    let mut i: usize = 1;
    assert(causes.subrange(0, 0) =~= Seq::<Seq<char>>::empty());
    assert(head =~= head + causes_text(causes.subrange(0, 0)));
    while i < chain.len()
        invariant
            1 <= i <= chain@.len(),
            texts == chain@.map_values(|s: String| s@),
            causes == texts.drop_first(),
            out@ == head + causes_text(causes.subrange(0, i - 1)),
        decreases chain.len() - i,
    {
        assert(causes.subrange(0, i as int).drop_last() =~= causes.subrange(0, i - 1));
        assert(causes.subrange(0, i as int).last() == chain@[i as int]@);
        out.append("Caused by:\n\t");
        out.append(chain[i].as_str());
        out.append("\n");
        i = i + 1;
    }
    assert(causes.subrange(0, i - 1) =~= causes);
    out
}

/// The store after a sign-up of `email` and `name` under `id` at `now`,
/// with `token` issued for it.
pub open spec fn subscribed(
    v: StoreView,
    id: u128,
    email: Seq<char>,
    name: Seq<char>,
    now: i64,
    token: Seq<char>,
) -> StoreView {
    StoreView {
        subscribers: v.subscribers.push(pending_row(id, email, name, now)),
        tokens: v.tokens.push(TokenRow { token, subscriber_id: id }),
    }
}

/// The form validates.
pub open spec fn form_valid(form: FormData) -> bool {
    valid_name(form.name@) && valid_email(form.email@)
}

/// A valid form that the store would take: the id, the email and the token
/// are all new to it.
pub open spec fn can_subscribe(v: StoreView, form: FormData, id: u128, token: Seq<char>) -> bool {
    &&& form_valid(form)
    &&& !has_id(v.subscribers, id)
    &&& !has_email(v.subscribers, form.email@)
    &&& !has_token(v.tokens, token)
}

/// Signs up the subscriber of `form` under `subscriber_id`, subscribed at
/// `now`, with `subscription_token` as their confirmation token.
///
/// The form is validated first; then the subscriber row and the token row
/// are written in one transaction and committed. On any failure nothing is
/// written. On success the confirmation email to send is returned: it is
/// built only after the commit, so a stored subscriber never depends on the
/// email going out.
pub fn subscribe(
    store: &mut SubscriptionStore,
    form: FormData,
    base_url: &str,
    subscriber_id: u128,
    subscription_token: String,
    now: i64,
) -> (r: Result<ConfirmationEmail, SubscribeError>)
    requires
        old(store).wf(),
    ensures
        final(store).wf(),
        r is Ok <==> can_subscribe(old(store)@, form, subscriber_id, subscription_token@),
        r is Err ==> final(store)@ == old(store)@,
        !form_valid(form) ==> (r matches Err(SubscribeError::ValidationError(m)) && m@ == form_error(
            form.name@,
            form.email@,
        )),
        form_valid(form) && has_id(old(store)@.subscribers, subscriber_id) ==> (r matches Err(e)
            && is_step_failure(
            e,
            SubscribeStep::InsertSubscriber,
            store_error_text(StoreError::DuplicateSubscriberId),
        )),
        form_valid(form) && !has_id(old(store)@.subscribers, subscriber_id) && has_email(
            old(store)@.subscribers,
            form.email@,
        ) ==> (r matches Err(e) && is_step_failure(
            e,
            SubscribeStep::InsertSubscriber,
            store_error_text(StoreError::DuplicateEmail),
        )),
        form_valid(form) && !has_id(old(store)@.subscribers, subscriber_id) && !has_email(
            old(store)@.subscribers,
            form.email@,
        ) && has_token(old(store)@.tokens, subscription_token@) ==> (r matches Err(e)
            && is_step_failure(
            e,
            SubscribeStep::StoreToken,
            store_error_text(StoreError::DuplicateToken),
        )),
        r matches Ok(mail) ==> {
            &&& final(store)@ == subscribed(
                old(store)@,
                subscriber_id,
                form.email@,
                form.name@,
                now,
                subscription_token@,
            )
            &&& mail.recipient@ == form.email@
            &&& mail.subject@ == "Welcome!"@
            &&& mail.text_body@ == confirmation_text_body(
                confirmation_link(base_url@, subscription_token@),
            )
            &&& mail.html_body@ == confirmation_html_body(
                confirmation_link(base_url@, subscription_token@),
            )
        },
{
    let ghost v = store@;
    let new_subscriber = match NewSubscriber::parse(form) {
        Ok(s) => s,
        Err(e) => return Err(SubscribeError::ValidationError(e)),
    };
    let mut tx = store.begin();
    let id = match store.insert_subscriber(&mut tx, &new_subscriber, subscriber_id, now) {
        Ok(id) => id,
        Err(e) => return Err(SubscribeError::at_step(SubscribeStep::InsertSubscriber, e.message())),
    };
    assert(tx@.subscribers[0].id == id);
    match store.store_token(&mut tx, id, &subscription_token) {
        Ok(()) => {},
        Err(e) => return Err(SubscribeError::at_step(SubscribeStep::StoreToken, e.message())),
    }
    let ghost t = tx@;
    proof {
        lemma_has_id_concat(v.subscribers, t.subscribers, id);
        assert(t.subscribers[0].id == id);
        assert(commit_ok(v, t));
    }
    match store.commit(tx) {
        Ok(()) => {},
        Err(e) => return Err(SubscribeError::at_step(SubscribeStep::Commit, e.message())),
    }
    assert(store@.subscribers =~= v.subscribers.push(t.subscribers[0]));
    assert(store@.tokens =~= v.tokens.push(t.tokens[0]));
    Ok(ConfirmationEmail::new(new_subscriber.email, base_url, subscription_token.as_str()))
}

/// Relies on `uuid::Uuid::new_v4`, read back with `Uuid::as_u128`: a random
/// id with the version-4 nibble set to 4 and the variant bits set to `10`.
#[verifier::external_body]
fn new_subscriber_id() -> (r: u128)
    ensures
        (r >> 76u128) & 0xfu128 == 4,
        (r >> 62u128) & 0x3u128 == 2,
{
    uuid::Uuid::new_v4().as_u128()
}

/// Relies on `chrono::Utc::now` and `DateTime::timestamp`: the time now, in
/// whole seconds since the Unix epoch.
#[verifier::external_body]
fn current_timestamp() -> (r: i64) {
    chrono::Utc::now().timestamp()
}

/// Signs up the subscriber of `form` under a fresh random id and a fresh
/// token, subscribed now, as `subscribe` does.
///
/// A form that fails validation, or whose email is already stored, is
/// refused. Otherwise success depends only on the drawn id and token being
/// new to the store.
pub fn subscribe_now(store: &mut SubscriptionStore, form: FormData, base_url: &str) -> (r: Result<
    ConfirmationEmail,
    SubscribeError,
>)
    requires
        old(store).wf(),
    ensures
        final(store).wf(),
        r is Err ==> final(store)@ == old(store)@,
        !form_valid(form) ==> (r matches Err(SubscribeError::ValidationError(m)) && m@ == form_error(
            form.name@,
            form.email@,
        )),
        form_valid(form) && has_email(old(store)@.subscribers, form.email@) ==> (r matches Err(e)
            && (is_step_failure(
            e,
            SubscribeStep::InsertSubscriber,
            store_error_text(StoreError::DuplicateSubscriberId),
        ) || is_step_failure(
            e,
            SubscribeStep::InsertSubscriber,
            store_error_text(StoreError::DuplicateEmail),
        ))),
        r matches Err(SubscribeError::ValidationError(_)) ==> !form_valid(form),
        form_valid(form) && old(store)@.subscribers.len() == 0 ==> r is Ok,
        form_valid(form) && !has_email(old(store)@.subscribers, form.email@) ==> (r is Ok || (r matches Err(e) && (is_step_failure(
            e,
            SubscribeStep::InsertSubscriber,
            store_error_text(StoreError::DuplicateSubscriberId),
        ) || is_step_failure(
            e,
            SubscribeStep::StoreToken,
            store_error_text(StoreError::DuplicateToken),
        )))),
        r matches Ok(mail) ==> exists|id: u128, now: i64, token: Seq<char>|
            {
                &&& final(store)@ == #[trigger] subscribed(
                    old(store)@,
                    id,
                    form.email@,
                    form.name@,
                    now,
                    token,
                )
                &&& token.len() == TOKEN_LENGTH
                &&& (forall|i: int| 0 <= i < token.len() ==> is_ascii_alnum(#[trigger] token[i]))
                &&& mail.recipient@ == form.email@
                &&& mail.subject@ == "Welcome!"@
                &&& mail.text_body@ == confirmation_text_body(confirmation_link(base_url@, token))
                &&& mail.html_body@ == confirmation_html_body(confirmation_link(base_url@, token))
            },
{
    let id = new_subscriber_id();
    let token = generate_subscriptions_token();
    let now = current_timestamp();
    let ghost t = token@;
    let ghost v = store@;
    proof {
        if v.subscribers.len() == 0 && has_token(v.tokens, t) {
            let i = choose|i: int| 0 <= i < v.tokens.len() && #[trigger] v.tokens[i].token == t;
            assert(has_id(v.subscribers, v.tokens[i].subscriber_id));
        }
    }
    let r = subscribe(store, form, base_url, id, token, now);
    proof {
        if r is Ok {
            assert(store@ == subscribed(v, id, form.email@, form.name@, now, t));
        }
    }
    r
}

} // verus!
