//! Redeeming a confirmation token: the subscriber it was issued to becomes
//! confirmed. Redeeming a token again succeeds and changes nothing; a token
//! the store does not know is refused and changes nothing.

use vstd::prelude::*;
use crate::store::{
    StoreView, SubscriptionStatus, SubscriptionStore, confirmed_at, store_wf,
    token_owner,
};
use crate::subscriptions::Failure;

verus! {

/// The query of a confirmation link.
pub struct Parameters {
    pub subscription_token: String,
}

/// The steps of a confirmation that can fail in the store.
#[derive(Clone, Copy, Debug, PartialEq, Eq, Structural)]
pub enum ConfirmStep {
    LookUpToken,
    MarkConfirmed,
}

pub open spec fn confirm_step_context(step: ConfirmStep) -> Seq<char> {
    match step {
        ConfirmStep::LookUpToken => "Failed to get subscriber id from authorization token"@,
        ConfirmStep::MarkConfirmed => "Failed to update the subscriber status to `confirmed`"@,
    }
}

pub enum ConfirmError {
    /// No subscriber holds the token.
    UnknownToken,
    /// The store failed.
    UnexpectedError(Failure),
}

pub open spec fn unknown_token_text() -> Seq<char> {
    "There is no subscriber associated with the provided token"@
}

impl ConfirmError {
    /// The error for a store failure during `step`.
    pub fn at_step(step: ConfirmStep, cause: String) -> (r: ConfirmError)
        ensures
            r matches ConfirmError::UnexpectedError(f) && f.context@ == confirm_step_context(step)
                && f.cause@ == cause@,
    {
        let context = match step {
            ConfirmStep::LookUpToken => String::from_str(
                "Failed to get subscriber id from authorization token",
            ),
            ConfirmStep::MarkConfirmed => String::from_str(
                "Failed to update the subscriber status to `confirmed`",
            ),
        };
        ConfirmError::UnexpectedError(Failure { context, cause })
    }

    /// The HTTP status for this error: 401 for an unknown token, 500 otherwise.
    pub fn status_code(&self) -> (r: u16)
        ensures
            r == (if self is UnknownToken { 401u16 } else { 500u16 }),
    {
        match self {
            ConfirmError::UnknownToken => 401,
            ConfirmError::UnexpectedError(_) => 500,
        }
    }

    /// The messages of the error and its causes, outermost first.
    pub fn chain(&self) -> (r: Vec<String>)
        ensures
            r@.map_values(|s: String| s@) == (match self {
                ConfirmError::UnknownToken => seq![unknown_token_text()],
                ConfirmError::UnexpectedError(f) => seq![f.context@, f.cause@],
            }),
    {
        let mut r: Vec<String> = Vec::new();
        match self {
            ConfirmError::UnknownToken => {
                r.push(
                    String::from_str("There is no subscriber associated with the provided token"),
                );
            },
            ConfirmError::UnexpectedError(f) => {
                r.push(f.context.clone());
                r.push(f.cause.clone());
            },
        }
        assert(r@.map_values(|s: String| s@) =~= (match self {
            ConfirmError::UnknownToken => seq![unknown_token_text()],
            ConfirmError::UnexpectedError(f) => seq![f.context@, f.cause@],
        }));
        r
    }
}

/// The store after `token` is redeemed: its subscriber confirmed, or the
/// store as it was when no subscriber holds the token.
pub open spec fn after_confirm(v: StoreView, token: Seq<char>) -> StoreView {
    match token_owner(v, token) {
        Some(id) => confirmed_at(v, id),
        None => v,
    }
}

/// Redeems the token of `parameters`.
pub fn confirm(store: &mut SubscriptionStore, parameters: &Parameters) -> (r: Result<(), ConfirmError>)
    requires
        old(store).wf(),
    ensures
        final(store).wf(),
        r is Ok <==> token_owner(old(store)@, parameters.subscription_token@) is Some,
        r is Err ==> r matches Err(ConfirmError::UnknownToken),
        final(store)@ == after_confirm(old(store)@, parameters.subscription_token@),
{
    match store.get_subscriber_id_from_token(&parameters.subscription_token) {
        None => Err(ConfirmError::UnknownToken),
        Some(id) => {
            store.confirm_subscriber(id);
            Ok(())
        },
    }
}

/// Redeeming a known token confirms its subscriber; redeeming it a second
/// time finds the same subscriber, succeeds again and leaves the store as the
/// first redemption left it.
pub proof fn lemma_confirm_idempotent(v: StoreView, token: Seq<char>)
    requires
        store_wf(v),
        token_owner(v, token) is Some,
    ensures
        store_wf(after_confirm(v, token)),
        token_owner(after_confirm(v, token), token) == token_owner(v, token),
        after_confirm(after_confirm(v, token), token) == after_confirm(v, token),
        forall|i: int|
            0 <= i < v.subscribers.len() && v.subscribers[i].id == token_owner(v, token)->0
                ==> (#[trigger] after_confirm(v, token).subscribers[i]).status
                == SubscriptionStatus::Confirmed,
{
    let id = token_owner(v, token)->0;
    let once = confirmed_at(v, id);
    let twice = confirmed_at(once, id);
    assert(once.tokens == v.tokens);
    assert forall|i: int| 0 <= i < once.subscribers.len() implies #[trigger] once.subscribers[i].id
        == v.subscribers[i].id && once.subscribers[i].email == v.subscribers[i].email by {}
    assert forall|i: int| 0 <= i < v.tokens.len() implies crate::store::has_id(
        once.subscribers,
        #[trigger] v.tokens[i].subscriber_id,
    ) by {
        let w = choose|w: int|
            0 <= w < v.subscribers.len() && #[trigger] v.subscribers[w].id == v.tokens[i].subscriber_id;
        assert(once.subscribers[w].id == v.subscribers[w].id);
    }
    assert(twice.subscribers =~= once.subscribers);
    assert(twice.tokens =~= once.tokens);
}

} // verus!
