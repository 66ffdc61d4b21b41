//! The subscription store: the `subscriptions` table (one row per subscriber)
//! and the `subscription_tokens` table (token to subscriber), changed together
//! only through transactions.
//!
//! Constraints kept at every commit: subscriber ids and emails are unique,
//! tokens are unique, and every token refers to a stored subscriber.

use vstd::prelude::*;
use crate::new_subscriber::NewSubscriber;

verus! {

#[derive(Clone, Copy, Debug, PartialEq, Eq, Structural)]
pub enum SubscriptionStatus {
    PendingConfirmation,
    Confirmed,
}

impl SubscriptionStatus {
    /// The status as the store writes it.
    pub fn as_str(&self) -> (r: &'static str)
        ensures
            r@ == status_text(*self),
    {
        match self {
            SubscriptionStatus::PendingConfirmation => "pending_confirmation",
            SubscriptionStatus::Confirmed => "confirmed",
        }
    }
}

pub open spec fn status_text(s: SubscriptionStatus) -> Seq<char> {
    match s {
        SubscriptionStatus::PendingConfirmation => "pending_confirmation"@,
        SubscriptionStatus::Confirmed => "confirmed"@,
    }
}

/// A row of the `subscriptions` table, as a mathematical value.
pub struct SubscriberRow {
    pub id: u128,
    pub email: Seq<char>,
    pub name: Seq<char>,
    pub subscribed_at: i64,
    pub status: SubscriptionStatus,
}

/// A row of the `subscription_tokens` table, as a mathematical value.
pub struct TokenRow {
    pub token: Seq<char>,
    pub subscriber_id: u128,
}

/// The contents of both tables.
pub struct StoreView {
    pub subscribers: Seq<SubscriberRow>,
    pub tokens: Seq<TokenRow>,
}

pub struct SubscriberRecord {
    pub id: u128,
    pub email: String,
    pub name: String,
    pub subscribed_at: i64,
    pub status: SubscriptionStatus,
}

impl View for SubscriberRecord {
    type V = SubscriberRow;

    open spec fn view(&self) -> SubscriberRow {
        SubscriberRow {
            id: self.id,
            email: self.email@,
            name: self.name@,
            subscribed_at: self.subscribed_at,
            status: self.status,
        }
    }
}

pub struct TokenRecord {
    pub subscription_token: String,
    pub subscriber_id: u128,
}

impl View for TokenRecord {
    type V = TokenRow;

    open spec fn view(&self) -> TokenRow {
        TokenRow { token: self.subscription_token@, subscriber_id: self.subscriber_id }
    }
}

pub open spec fn subscriber_rows(v: Seq<SubscriberRecord>) -> Seq<SubscriberRow> {
    v.map_values(|r: SubscriberRecord| r@)
}

pub open spec fn token_rows(v: Seq<TokenRecord>) -> Seq<TokenRow> {
    v.map_values(|r: TokenRecord| r@)
}

pub open spec fn has_id(subs: Seq<SubscriberRow>, id: u128) -> bool {
    exists|i: int| 0 <= i < subs.len() && #[trigger] subs[i].id == id
}

pub open spec fn has_email(subs: Seq<SubscriberRow>, email: Seq<char>) -> bool {
    exists|i: int| 0 <= i < subs.len() && #[trigger] subs[i].email == email
}

pub open spec fn has_token(tokens: Seq<TokenRow>, token: Seq<char>) -> bool {
    exists|i: int| 0 <= i < tokens.len() && #[trigger] tokens[i].token == token
}

pub open spec fn ids_unique(subs: Seq<SubscriberRow>) -> bool {
    forall|i: int, j: int| 0 <= i < j < subs.len() ==> #[trigger] subs[i].id != #[trigger] subs[j].id
}

pub open spec fn emails_unique(subs: Seq<SubscriberRow>) -> bool {
    forall|i: int, j: int|
        0 <= i < j < subs.len() ==> #[trigger] subs[i].email != #[trigger] subs[j].email
}

pub open spec fn tokens_unique(tokens: Seq<TokenRow>) -> bool {
    forall|i: int, j: int|
        0 <= i < j < tokens.len() ==> #[trigger] tokens[i].token != #[trigger] tokens[j].token
}

pub open spec fn tokens_reference(tokens: Seq<TokenRow>, subs: Seq<SubscriberRow>) -> bool {
    forall|i: int| 0 <= i < tokens.len() ==> has_id(subs, #[trigger] tokens[i].subscriber_id)
}

/// The constraints of both tables.
pub open spec fn store_wf(v: StoreView) -> bool {
    &&& ids_unique(v.subscribers)
    &&& emails_unique(v.subscribers)
    &&& tokens_unique(v.tokens)
    &&& tokens_reference(v.tokens, v.subscribers)
}

/// The rows a transaction has written so far are unique among themselves.
pub open spec fn staged_wf(t: StoreView) -> bool {
    &&& ids_unique(t.subscribers)
    &&& emails_unique(t.subscribers)
    &&& tokens_unique(t.tokens)
}

/// The staged rows can join the store without breaking a constraint.
pub open spec fn commit_ok(v: StoreView, t: StoreView) -> bool {
    &&& forall|i: int|
        0 <= i < t.subscribers.len() ==> !has_id(v.subscribers, #[trigger] t.subscribers[i].id)
    &&& forall|i: int|
        0 <= i < t.subscribers.len() ==> !has_email(v.subscribers, #[trigger] t.subscribers[i].email)
    &&& forall|i: int| 0 <= i < t.tokens.len() ==> !has_token(v.tokens, #[trigger] t.tokens[i].token)
    &&& forall|i: int|
        0 <= i < t.tokens.len() ==> has_id(
            v.subscribers + t.subscribers,
            #[trigger] t.tokens[i].subscriber_id,
        )
}

/// The first constraint that staged subscriber rows break against the store,
/// checking the rows in order and, for each, the id before the email.
pub open spec fn staged_subscribers_error(v: StoreView, subs: Seq<SubscriberRow>) -> Option<StoreError>
    decreases subs.len(),
{
    if subs.len() == 0 {
        None
    } else {
        match staged_subscribers_error(v, subs.drop_last()) {
            Some(e) => Some(e),
            None => if has_id(v.subscribers, subs.last().id) {
                Some(StoreError::DuplicateSubscriberId)
            } else if has_email(v.subscribers, subs.last().email) {
                Some(StoreError::DuplicateEmail)
            } else {
                None
            },
        }
    }
}

/// The first constraint that staged token rows break, checking the rows in
/// order and, for each, the token before its subscriber; `subs` are the
/// subscriber rows the tokens may refer to.
pub open spec fn staged_tokens_error(
    v: StoreView,
    subs: Seq<SubscriberRow>,
    tokens: Seq<TokenRow>,
) -> Option<StoreError>
    decreases tokens.len(),
{
    if tokens.len() == 0 {
        None
    } else {
        match staged_tokens_error(v, subs, tokens.drop_last()) {
            Some(e) => Some(e),
            None => if has_token(v.tokens, tokens.last().token) {
                Some(StoreError::DuplicateToken)
            } else if !has_id(subs, tokens.last().subscriber_id) {
                Some(StoreError::UnknownSubscriber)
            } else {
                None
            },
        }
    }
}

/// The error a commit of `t` into `v` reports: the subscriber rows are
/// checked first, then the token rows.
pub open spec fn commit_error(v: StoreView, t: StoreView) -> Option<StoreError> {
    match staged_subscribers_error(v, t.subscribers) {
        Some(e) => Some(e),
        None => staged_tokens_error(v, v.subscribers + t.subscribers, t.tokens),
    }
}

proof fn lemma_staged_subscribers_error_prefix(v: StoreView, s: Seq<SubscriberRow>, n: int)
    requires
        0 <= n <= s.len(),
        staged_subscribers_error(v, s.subrange(0, n)) is Some,
    ensures
        staged_subscribers_error(v, s) == staged_subscribers_error(v, s.subrange(0, n)),
    decreases s.len(),
{
    if n < s.len() {
        assert(s.drop_last().subrange(0, n) =~= s.subrange(0, n));
        lemma_staged_subscribers_error_prefix(v, s.drop_last(), n);
    } else {
        assert(s.subrange(0, n) =~= s);
    }
}

proof fn lemma_staged_tokens_error_prefix(
    v: StoreView,
    subs: Seq<SubscriberRow>,
    s: Seq<TokenRow>,
    n: int,
)
    requires
        0 <= n <= s.len(),
        staged_tokens_error(v, subs, s.subrange(0, n)) is Some,
    ensures
        staged_tokens_error(v, subs, s) == staged_tokens_error(v, subs, s.subrange(0, n)),
    decreases s.len(),
{
    if n < s.len() {
        assert(s.drop_last().subrange(0, n) =~= s.subrange(0, n));
        lemma_staged_tokens_error_prefix(v, subs, s.drop_last(), n);
    } else {
        assert(s.subrange(0, n) =~= s);
    }
}

/// The store after a commit of the staged rows.
pub open spec fn committed(v: StoreView, t: StoreView) -> StoreView {
    StoreView { subscribers: v.subscribers + t.subscribers, tokens: v.tokens + t.tokens }
}

/// The subscriber row with status set to confirmed when its id is `id`.
pub open spec fn confirm_row(r: SubscriberRow, id: u128) -> SubscriberRow {
    if r.id == id {
        SubscriberRow {
            id: r.id,
            email: r.email,
            name: r.name,
            subscribed_at: r.subscribed_at,
            status: SubscriptionStatus::Confirmed,
        }
    } else {
        r
    }
}

/// The store after the subscriber `id` is marked confirmed.
pub open spec fn confirmed_at(v: StoreView, id: u128) -> StoreView {
    StoreView {
        subscribers: v.subscribers.map_values(|r: SubscriberRow| confirm_row(r, id)),
        tokens: v.tokens,
    }
}

/// The subscriber that `token` maps to, if any.
pub open spec fn token_owner(v: StoreView, token: Seq<char>) -> Option<u128> {
    if has_token(v.tokens, token) {
        Some(v.tokens[choose|i: int| 0 <= i < v.tokens.len() && #[trigger] v.tokens[i].token == token].subscriber_id)
    } else {
        None
    }
}

/// The emails of the confirmed subscribers, in store order.
pub open spec fn confirmed_emails(subs: Seq<SubscriberRow>) -> Seq<Seq<char>>
    decreases subs.len(),
{
    if subs.len() == 0 {
        Seq::empty()
    } else {
        let rest = confirmed_emails(subs.drop_last());
        if subs.last().status == SubscriptionStatus::Confirmed {
            rest.push(subs.last().email)
        } else {
            rest
        }
    }
}

/// Why the store refused a write.
#[derive(Clone, Copy, Debug, PartialEq, Eq, Structural)]
pub enum StoreError {
    DuplicateSubscriberId,
    DuplicateEmail,
    DuplicateToken,
    UnknownSubscriber,
}

impl StoreError {
    pub fn message(&self) -> (r: String)
        ensures
            r@ == store_error_text(*self),
    {
        match self {
            StoreError::DuplicateSubscriberId => String::from_str("duplicate subscriber id"),
            StoreError::DuplicateEmail => String::from_str("duplicate subscriber email"),
            StoreError::DuplicateToken => String::from_str("duplicate subscription token"),
            StoreError::UnknownSubscriber => String::from_str("token refers to no subscriber"),
        }
    }
}

pub open spec fn store_error_text(e: StoreError) -> Seq<char> {
    match e {
        StoreError::DuplicateSubscriberId => "duplicate subscriber id"@,
        StoreError::DuplicateEmail => "duplicate subscriber email"@,
        StoreError::DuplicateToken => "duplicate subscription token"@,
        StoreError::UnknownSubscriber => "token refers to no subscriber"@,
    }
}

fn contains_id(subs: &Vec<SubscriberRecord>, id: u128) -> (r: bool)
    ensures
        r == has_id(subscriber_rows(subs@), id),
{
    let ghost rows = subscriber_rows(subs@);
    let mut i: usize = 0;
    while i < subs.len()
        invariant
            i <= subs@.len(),
            rows == subscriber_rows(subs@),
            forall|j: int| 0 <= j < i ==> #[trigger] rows[j].id != id,
        decreases subs.len() - i,
    {
        if subs[i].id == id {
            assert(rows[i as int].id == id);
            return true;
        }
        i = i + 1;
    }
    false
}

fn contains_email(subs: &Vec<SubscriberRecord>, email: &String) -> (r: bool)
    ensures
        r == has_email(subscriber_rows(subs@), email@),
{
    let ghost rows = subscriber_rows(subs@);
    let mut i: usize = 0;
    while i < subs.len()
        invariant
            i <= subs@.len(),
            rows == subscriber_rows(subs@),
            forall|j: int| 0 <= j < i ==> #[trigger] rows[j].email != email@,
        decreases subs.len() - i,
    {
        if subs[i].email == *email {
            assert(rows[i as int].email == email@);
            return true;
        }
        i = i + 1;
    }
    false
}

fn find_token(tokens: &Vec<TokenRecord>, token: &String) -> (r: Option<usize>)
    ensures
        r matches Some(i) ==> i < tokens@.len() && token_rows(tokens@)[i as int].token == token@,
        r is None ==> !has_token(token_rows(tokens@), token@),
{
    let ghost rows = token_rows(tokens@);
    let mut i: usize = 0;
    while i < tokens.len()
        invariant
            i <= tokens@.len(),
            rows == token_rows(tokens@),
            forall|j: int| 0 <= j < i ==> #[trigger] rows[j].token != token@,
        decreases tokens.len() - i,
    {
        if tokens[i].subscription_token == *token {
            return Some(i);
        }
        i = i + 1;
    }
    None
}

/// The rows written inside one transaction and not yet committed. Dropping it
/// without a commit discards them.
pub struct Transaction {
    subscribers: Vec<SubscriberRecord>,
    tokens: Vec<TokenRecord>,
}

impl View for Transaction {
    type V = StoreView;

    closed spec fn view(&self) -> StoreView {
        StoreView { subscribers: subscriber_rows(self.subscribers@), tokens: token_rows(self.tokens@) }
    }
}

impl Transaction {
    /// The staged rows are unique among themselves.
    pub open spec fn wf(&self) -> bool {
        staged_wf(self@)
    }
}

pub struct SubscriptionStore {
    subscribers: Vec<SubscriberRecord>,
    tokens: Vec<TokenRecord>,
}

impl View for SubscriptionStore {
    type V = StoreView;

    closed spec fn view(&self) -> StoreView {
        StoreView { subscribers: subscriber_rows(self.subscribers@), tokens: token_rows(self.tokens@) }
    }
}

/// The row that a new sign-up writes.
pub open spec fn pending_row(id: u128, email: Seq<char>, name: Seq<char>, now: i64) -> SubscriberRow {
    SubscriberRow {
        id,
        email,
        name,
        subscribed_at: now,
        status: SubscriptionStatus::PendingConfirmation,
    }
}

/// The outcome of writing a subscriber row inside a transaction that has
/// staged `staged` so far.
pub open spec fn insert_subscriber_result(
    v: StoreView,
    staged: StoreView,
    id: u128,
    email: Seq<char>,
) -> Result<u128, StoreError> {
    if has_id(v.subscribers, id) || has_id(staged.subscribers, id) {
        Err(StoreError::DuplicateSubscriberId)
    } else if has_email(v.subscribers, email) || has_email(staged.subscribers, email) {
        Err(StoreError::DuplicateEmail)
    } else {
        Ok(id)
    }
}

/// The outcome of writing a token row inside a transaction that has staged
/// `staged` so far.
pub open spec fn store_token_result(
    v: StoreView,
    staged: StoreView,
    subscriber_id: u128,
    token: Seq<char>,
) -> Result<(), StoreError> {
    if has_token(v.tokens, token) || has_token(staged.tokens, token) {
        Err(StoreError::DuplicateToken)
    } else if !has_id(v.subscribers, subscriber_id) && !has_id(staged.subscribers, subscriber_id) {
        Err(StoreError::UnknownSubscriber)
    } else {
        Ok(())
    }
}

pub open spec fn texts(v: Seq<String>) -> Seq<Seq<char>> {
    v.map_values(|s: String| s@)
}

/// An id is in a concatenation of rows when it is in either part.
pub proof fn lemma_has_id_concat(a: Seq<SubscriberRow>, b: Seq<SubscriberRow>, id: u128)
    ensures
        has_id(a + b, id) == (has_id(a, id) || has_id(b, id)),
{
    if has_id(a, id) {
        let i = choose|i: int| 0 <= i < a.len() && #[trigger] a[i].id == id;
        assert((a + b)[i].id == id);
    }
    if has_id(b, id) {
        let i = choose|i: int| 0 <= i < b.len() && #[trigger] b[i].id == id;
        assert((a + b)[a.len() + i].id == id);
    }
    if has_id(a + b, id) {
        let i = choose|i: int| 0 <= i < (a + b).len() && #[trigger] (a + b)[i].id == id;
        if i < a.len() {
            assert(a[i].id == id);
        } else {
            assert(b[i - a.len()].id == id);
        }
    }
}

/// A commit that passes its checks leaves every constraint in place.
proof fn lemma_commit_keeps_constraints(v: StoreView, t: StoreView)
    requires
        store_wf(v),
        staged_wf(t),
        commit_ok(v, t),
    ensures
        store_wf(committed(v, t)),
{
    let c = committed(v, t);
    let n = v.subscribers.len();
    let m = v.tokens.len();
    assert forall|i: int, j: int| 0 <= i < j < c.subscribers.len() implies #[trigger] c.subscribers[i].id
        != #[trigger] c.subscribers[j].id && c.subscribers[i].email != c.subscribers[j].email by {
        if j >= n && i < n {
            assert(!has_id(v.subscribers, t.subscribers[j - n].id));
            assert(!has_email(v.subscribers, t.subscribers[j - n].email));
            assert(v.subscribers[i] == c.subscribers[i]);
        } else if j >= n {
            assert(t.subscribers[i - n] == c.subscribers[i]);
            assert(t.subscribers[j - n] == c.subscribers[j]);
        }
    }
    assert forall|i: int, j: int| 0 <= i < j < c.tokens.len() implies #[trigger] c.tokens[i].token
        != #[trigger] c.tokens[j].token by {
        if j >= m && i < m {
            assert(!has_token(v.tokens, t.tokens[j - m].token));
            assert(v.tokens[i] == c.tokens[i]);
        } else if j >= m {
            assert(t.tokens[i - m] == c.tokens[i]);
            assert(t.tokens[j - m] == c.tokens[j]);
        }
    }
    assert forall|i: int| 0 <= i < c.tokens.len() implies has_id(
        c.subscribers,
        #[trigger] c.tokens[i].subscriber_id,
    ) by {
        lemma_has_id_concat(v.subscribers, t.subscribers, c.tokens[i].subscriber_id);
        if i < m {
            assert(c.tokens[i] == v.tokens[i]);
        } else {
            assert(c.tokens[i] == t.tokens[i - m]);
        }
    }
}

impl SubscriptionStore {
    /// The constraints of both tables hold.
    pub open spec fn wf(&self) -> bool {
        store_wf(self@)
    }

    /// An empty store.
    pub fn new() -> (r: SubscriptionStore)
        ensures
            r.wf(),
            r@.subscribers.len() == 0,
            r@.tokens.len() == 0,
    {
        let r = SubscriptionStore { subscribers: Vec::new(), tokens: Vec::new() };
        assert(r@.subscribers =~= Seq::<SubscriberRow>::empty());
        assert(r@.tokens =~= Seq::<TokenRow>::empty());
        r
    }

    /// Opens a transaction with nothing staged.
    pub fn begin(&self) -> (tx: Transaction)
        ensures
            tx.wf(),
            tx@.subscribers.len() == 0,
            tx@.tokens.len() == 0,
    {
        let tx = Transaction { subscribers: Vec::new(), tokens: Vec::new() };
        assert(tx@.subscribers =~= Seq::<SubscriberRow>::empty());
        assert(tx@.tokens =~= Seq::<TokenRow>::empty());
        tx
    }

    /// Stages a new subscriber in `pending_confirmation` state under `id`,
    /// subscribed at `now`. Refused when the id or the email is taken, in the
    /// store or in the transaction.
    pub fn insert_subscriber(
        &self,
        tx: &mut Transaction,
        new_subscriber: &NewSubscriber,
        id: u128,
        now: i64,
    ) -> (r: Result<u128, StoreError>)
        requires
            old(tx).wf(),
        ensures
            final(tx).wf(),
            r == insert_subscriber_result(self@, old(tx)@, id, new_subscriber.email@),
            r is Ok ==> final(tx)@ == (StoreView {
                subscribers: old(tx)@.subscribers.push(
                    pending_row(id, new_subscriber.email@, new_subscriber.name@, now),
                ),
                tokens: old(tx)@.tokens,
            }),
            r is Err ==> final(tx)@ == old(tx)@,
    {
        let email = String::from_str(new_subscriber.email.as_ref());
        let name = String::from_str(new_subscriber.name.as_ref());
        if contains_id(&self.subscribers, id) || contains_id(&tx.subscribers, id) {
            return Err(StoreError::DuplicateSubscriberId);
        }
        if contains_email(&self.subscribers, &email) || contains_email(&tx.subscribers, &email) {
            return Err(StoreError::DuplicateEmail);
        }
        let ghost before = tx@;
        let record = SubscriberRecord {
            id,
            email,
            name,
            subscribed_at: now,
            status: SubscriptionStatus::PendingConfirmation,
        };
        tx.subscribers.push(record);
        assert(tx@.subscribers =~= before.subscribers.push(record@));
        assert(tx@.tokens =~= before.tokens);
        Ok(id)
    }

    /// Stages the mapping from `token` to `subscriber_id`. Refused when the
    /// token is taken, or when no subscriber with that id is stored or staged.
    pub fn store_token(&self, tx: &mut Transaction, subscriber_id: u128, token: &String) -> (r:
        Result<(), StoreError>)
        requires
            old(tx).wf(),
        ensures
            final(tx).wf(),
            r == store_token_result(self@, old(tx)@, subscriber_id, token@),
            r is Ok ==> final(tx)@ == (StoreView {
                subscribers: old(tx)@.subscribers,
                tokens: old(tx)@.tokens.push(TokenRow { token: token@, subscriber_id }),
            }),
            r is Err ==> final(tx)@ == old(tx)@,
    {
        if find_token(&self.tokens, token).is_some() || find_token(&tx.tokens, token).is_some() {
            return Err(StoreError::DuplicateToken);
        }
        if !contains_id(&self.subscribers, subscriber_id) && !contains_id(
            &tx.subscribers,
            subscriber_id,
        ) {
            return Err(StoreError::UnknownSubscriber);
        }
        let ghost before = tx@;
        let record = TokenRecord { subscription_token: token.clone(), subscriber_id };
        tx.tokens.push(record);
        assert(tx@.tokens =~= before.tokens.push(record@));
        assert(tx@.subscribers =~= before.subscribers);
        Ok(())
    }

    /// Makes the staged rows visible, all of them or, when one would break a
    /// constraint of the store as it now stands, none.
    pub fn commit(&mut self, tx: Transaction) -> (r: Result<(), StoreError>)
        requires
            old(self).wf(),
            tx.wf(),
        ensures
            final(self).wf(),
            r is Ok <==> commit_ok(old(self)@, tx@),
            r == (match commit_error(old(self)@, tx@) {
                Some(e) => Err(e),
                None => Ok(()),
            }),
            r is Ok ==> final(self)@ == committed(old(self)@, tx@),
            r is Err ==> final(self)@ == old(self)@,
    {
        let ghost v = self@;
        let ghost t = tx@;
        let Transaction { subscribers: mut staged_subscribers, tokens: mut staged_tokens } = tx;
        let mut i: usize = 0;
        assert(t.subscribers.subrange(0, 0) =~= Seq::<SubscriberRow>::empty());
        while i < staged_subscribers.len()
            invariant
                v == self@,
                v == old(self)@,
                t == tx@,
                store_wf(v),
                t.subscribers == subscriber_rows(staged_subscribers@),
                i <= staged_subscribers@.len(),
                staged_subscribers_error(v, t.subscribers.subrange(0, i as int)) is None,
                forall|j: int|
                    0 <= j < i ==> !has_id(v.subscribers, #[trigger] t.subscribers[j].id),
                forall|j: int|
                    0 <= j < i ==> !has_email(v.subscribers, #[trigger] t.subscribers[j].email),
            decreases staged_subscribers.len() - i,
        {
            assert(t.subscribers[i as int] == staged_subscribers@[i as int]@);
            assert(t.subscribers.subrange(0, i + 1).drop_last() =~= t.subscribers.subrange(0, i as int));
            if contains_id(&self.subscribers, staged_subscribers[i].id) {
                assert(has_id(v.subscribers, t.subscribers[i as int].id));
                proof {
                    lemma_staged_subscribers_error_prefix(v, t.subscribers, i + 1);
                }
                return Err(StoreError::DuplicateSubscriberId);
            }
            if contains_email(&self.subscribers, &staged_subscribers[i].email) {
                assert(has_email(v.subscribers, t.subscribers[i as int].email));
                proof {
                    lemma_staged_subscribers_error_prefix(v, t.subscribers, i + 1);
                }
                return Err(StoreError::DuplicateEmail);
            }
            i = i + 1;
        }
        assert(t.subscribers.subrange(0, i as int) =~= t.subscribers);
        assert(t.tokens.subrange(0, 0) =~= Seq::<TokenRow>::empty());
        let mut k: usize = 0;
        while k < staged_tokens.len()
            invariant
                v == self@,
                v == old(self)@,
                t == tx@,
                store_wf(v),
                t.subscribers == subscriber_rows(staged_subscribers@),
                t.tokens == token_rows(staged_tokens@),
                k <= staged_tokens@.len(),
                staged_subscribers_error(v, t.subscribers) is None,
                staged_tokens_error(v, v.subscribers + t.subscribers, t.tokens.subrange(0, k as int)) is None,
                forall|j: int| 0 <= j < k ==> !has_token(v.tokens, #[trigger] t.tokens[j].token),
                forall|j: int|
                    0 <= j < k ==> has_id(
                        v.subscribers + t.subscribers,
                        #[trigger] t.tokens[j].subscriber_id,
                    ),
            decreases staged_tokens.len() - k,
        {
            assert(t.tokens[k as int] == staged_tokens@[k as int]@);
            assert(t.tokens.subrange(0, k + 1).drop_last() =~= t.tokens.subrange(0, k as int));
            if let Some(found) = find_token(&self.tokens, &staged_tokens[k].subscription_token) {
                assert(v.tokens[found as int].token == t.tokens[k as int].token);
                assert(has_token(v.tokens, t.tokens[k as int].token));
                proof {
                    lemma_staged_tokens_error_prefix(v, v.subscribers + t.subscribers, t.tokens, k + 1);
                }
                return Err(StoreError::DuplicateToken);
            }
            let owner = staged_tokens[k].subscriber_id;
            proof {
                lemma_has_id_concat(v.subscribers, t.subscribers, owner);
            }
            if !contains_id(&self.subscribers, owner) && !contains_id(&staged_subscribers, owner) {
                assert(!has_id(v.subscribers + t.subscribers, t.tokens[k as int].subscriber_id));
                proof {
                    lemma_staged_tokens_error_prefix(v, v.subscribers + t.subscribers, t.tokens, k + 1);
                }
                return Err(StoreError::UnknownSubscriber);
            }
            k = k + 1;
        }
        assert(t.tokens.subrange(0, k as int) =~= t.tokens);
        proof {
            lemma_commit_keeps_constraints(v, t);
        }
        self.subscribers.append(&mut staged_subscribers);
        self.tokens.append(&mut staged_tokens);
        assert(self@.subscribers =~= v.subscribers + t.subscribers);
        assert(self@.tokens =~= v.tokens + t.tokens);
        Ok(())
    }

    /// The subscriber that `token` was issued to, if the token is stored.
    pub fn get_subscriber_id_from_token(&self, token: &String) -> (r: Option<u128>)
        requires
            self.wf(),
        ensures
            r == token_owner(self@, token@),
    {
        let ghost rows = self@.tokens;
        match find_token(&self.tokens, token) {
            None => None,
            Some(i) => {
                let id = self.tokens[i].subscriber_id;
                proof {
                    let c = choose|c: int| 0 <= c < rows.len() && #[trigger] rows[c].token == token@;
                    assert(rows[i as int].token == token@);
                    if c != i as int {
                        if c < i {
                            assert(rows[c].token != rows[i as int].token);
                        } else {
                            assert(rows[i as int].token != rows[c].token);
                        }
                    }
                }
                Some(id)
            },
        }
    }

    /// Sets the status of subscriber `id` to confirmed. Setting it again, or
    /// naming an id that is not stored, changes nothing.
    pub fn confirm_subscriber(&mut self, id: u128)
        requires
            old(self).wf(),
        ensures
            final(self).wf(),
            final(self)@ == confirmed_at(old(self)@, id),
    {
        let ghost v = self@;
        let mut i: usize = 0;
        while i < self.subscribers.len()
            invariant
                self.wf(),
                self@.tokens == v.tokens,
                self@.subscribers.len() == v.subscribers.len(),
                i <= self@.subscribers.len(),
                forall|j: int|
                    0 <= j < i ==> #[trigger] self@.subscribers[j] == confirm_row(v.subscribers[j], id),
                forall|j: int|
                    i <= j < self@.subscribers.len() ==> #[trigger] self@.subscribers[j] == v.subscribers[j],
            decreases self.subscribers.len() - i,
        {
            if self.subscribers[i].id == id {
                let ghost before = self@;
                let ghost old_records = self.subscribers@;
                self.subscribers[i].status = SubscriptionStatus::Confirmed;
                assert(before.subscribers[i as int] == old_records[i as int]@);
                assert(self.subscribers@[i as int]@ == confirm_row(v.subscribers[i as int], id));
                assert forall|j: int| 0 <= j < self.subscribers@.len() && j != i implies #[trigger] self.subscribers@[j] == old_records[j] by {}
                assert(self@.subscribers =~= before.subscribers.update(
                    i as int,
                    confirm_row(v.subscribers[i as int], id),
                ));
                assert(self@.tokens =~= before.tokens);
                assert forall|a: int, b: int| 0 <= a < b < self@.subscribers.len() implies #[trigger] self@.subscribers[a].id
                    != #[trigger] self@.subscribers[b].id && self@.subscribers[a].email != self@.subscribers[b].email by {
                    assert(before.subscribers[a].id != before.subscribers[b].id);
                    assert(before.subscribers[a].email != before.subscribers[b].email);
                }
                assert forall|a: int| 0 <= a < self@.tokens.len() implies has_id(
                    self@.subscribers,
                    #[trigger] self@.tokens[a].subscriber_id,
                ) by {
                    let w = choose|w: int| 0 <= w < before.subscribers.len() && #[trigger] before.subscribers[w].id == self@.tokens[a].subscriber_id;
                    assert(self@.subscribers[w].id == before.subscribers[w].id);
                }
            }
            i = i + 1;
        }
        assert(self@.subscribers =~= v.subscribers.map_values(|r: SubscriberRow| confirm_row(r, id)));
    }

    /// The emails of the confirmed subscribers, in store order.
    pub fn confirmed_subscriber_emails(&self) -> (r: Vec<String>)
        ensures
            texts(r@) == confirmed_emails(self@.subscribers),
    {
        let ghost rows = self@.subscribers;
        let mut r: Vec<String> = Vec::new();
        let mut i: usize = 0;
        assert(rows.subrange(0, 0) =~= Seq::<SubscriberRow>::empty());
        assert(texts(r@) =~= Seq::<Seq<char>>::empty());
        while i < self.subscribers.len()
            invariant
                rows == self@.subscribers,
                i <= rows.len(),
                texts(r@) == confirmed_emails(rows.subrange(0, i as int)),
            decreases self.subscribers.len() - i,
        {
            let ghost before = r@;
            assert(rows.subrange(0, i + 1).drop_last() =~= rows.subrange(0, i as int));
            if self.subscribers[i].status == SubscriptionStatus::Confirmed {
                let e = self.subscribers[i].email.clone();
                r.push(e);
                assert(texts(r@) =~= texts(before).push(rows[i as int].email));
            }
            i = i + 1;
        }
        assert(rows.subrange(0, rows.len() as int) =~= rows);
        r
    }

    /// Number of rows in the `subscriptions` table.
    pub fn subscriber_count(&self) -> (r: usize)
        ensures
            r == self@.subscribers.len(),
    {
        self.subscribers.len()
    }

    /// The `i`-th row of the `subscriptions` table.
    pub fn subscriber(&self, i: usize) -> (r: &SubscriberRecord)
        requires
            i < self@.subscribers.len(),
        ensures
            r@ == self@.subscribers[i as int],
    {
        &self.subscribers[i]
    }

    /// Number of rows in the `subscription_tokens` table.
    pub fn token_count(&self) -> (r: usize)
        ensures
            r == self@.tokens.len(),
    {
        self.tokens.len()
    }

    /// The `i`-th row of the `subscription_tokens` table.
    pub fn token(&self, i: usize) -> (r: &TokenRecord)
        requires
            i < self@.tokens.len(),
        ensures
            r@ == self@.tokens[i as int],
    {
        &self.tokens[i]
    }
}

} // verus!
