use zero2prod::configuration::Environment;
use zero2prod::email_client::{email_endpoint, SendEmailRequest};
use zero2prod::newsletters::{
    get_confirmed_subscribers, parse_confirmed_subscribers, NewsletterDelivery, PublishError,
};
use zero2prod::new_subscriber::NewSubscriber;
use zero2prod::store::{StoreError, SubscriptionStatus, SubscriptionStore};
use zero2prod::subscriber_email::SubscriberEmail;
use zero2prod::subscriptions::{
    advance_subscribe, error_chain_fmt, generate_subscriptions_token, subscribe, subscribe_now, ConfirmationEmail,
    FormData, SubscribeError, SubscribeStep,
};
use zero2prod::subscriptions_confirm::{confirm, ConfirmError, ConfirmStep, Parameters};

const BASE_URL: &str = "http://127.0.0.1:8000";

fn form(name: &str, email: &str) -> FormData {
    FormData { name: name.to_string(), email: email.to_string() }
}

fn token_params(token: &str) -> Parameters {
    Parameters { subscription_token: token.to_string() }
}

#[test]
fn subscribe_persists_the_new_subscriber() {
    let mut store = SubscriptionStore::new();
    let result = subscribe(
        &mut store,
        form("le guin", "ursula_le_guin@gmail.com"),
        BASE_URL,
        7,
        "abcdefghijklmnopqrstuvwxy".to_string(),
        1_700_000_000,
    );
    let mail = match result {
        Ok(mail) => mail,
        Err(_) => panic!("the sign-up was refused"),
    };
    assert_eq!(mail.recipient.as_ref(), "ursula_le_guin@gmail.com");

    assert_eq!(store.subscriber_count(), 1);
    let row = store.subscriber(0);
    assert_eq!(row.email, "ursula_le_guin@gmail.com");
    assert_eq!(row.name, "le guin");
    assert_eq!(row.id, 7);
    assert_eq!(row.subscribed_at, 1_700_000_000);
    assert_eq!(row.status, SubscriptionStatus::PendingConfirmation);
    assert_eq!(row.status.as_str(), "pending_confirmation");

    assert_eq!(store.token_count(), 1);
    let token = store.token(0);
    assert_eq!(token.subscription_token, "abcdefghijklmnopqrstuvwxy");
    assert_eq!(token.subscriber_id, 7);
}

#[test]
fn subscribe_sends_a_confirmation_email_with_a_link() {
    let mut store = SubscriptionStore::new();
    let mail = match subscribe(&mut store, form("le guin", "ursula_le_guin@gmail.com"), BASE_URL, 1, "tok123".to_string(), 0) {
        Ok(mail) => mail,
        Err(_) => panic!("the sign-up was refused"),
    };
    let link = "http://127.0.0.1:8000/subscriptions/confirm?subscription_token=tok123";
    assert_eq!(mail.subject, "Welcome!");
    assert_eq!(
        mail.text_body,
        format!("Welcome to our newsletter!\nVisit {} to confirm your subscription.", link)
    );
    assert_eq!(
        mail.html_body,
        format!(
            "Welcome to our newsletter!<br />/Click <a href=\"{}\">here</a> to confirm your subscription.",
            link
        )
    );
}

#[test]
fn subscribe_returns_a_validation_error_for_bad_fields() {
    let cases = [
        ("", "ursula_le_guin@gmail.com", "empty name"),
        ("Ursula", "", "empty email"),
        ("Ursula", "definitely-not-an-email", "invalid email"),
    ];
    for (name, email, description) in cases {
        let mut store = SubscriptionStore::new();
        let result = subscribe(&mut store, form(name, email), BASE_URL, 1, "tok".to_string(), 0);
        match result {
            Err(e @ SubscribeError::ValidationError(_)) => assert_eq!(e.status_code(), 400),
            _ => panic!("no validation error for {}", description),
        }
        assert_eq!(store.subscriber_count(), 0, "{}", description);
        assert_eq!(store.token_count(), 0, "{}", description);
    }
}

#[test]
fn validation_checks_the_name_first() {
    let mut store = SubscriptionStore::new();
    match subscribe(&mut store, form("", "nope"), BASE_URL, 1, "tok".to_string(), 0) {
        Err(SubscribeError::ValidationError(m)) => assert_eq!(m, " is empty or whitespace"),
        _ => panic!("expected a validation error"),
    }
}

#[test]
fn subscribe_fails_and_writes_nothing_when_the_token_cannot_be_stored() {
    let mut store = SubscriptionStore::new();
    assert!(subscribe(&mut store, form("first", "first@example.com"), BASE_URL, 1, "taken".to_string(), 0).is_ok());
    let result = subscribe(&mut store, form("second", "second@example.com"), BASE_URL, 2, "taken".to_string(), 0);
    match result {
        Err(e @ SubscribeError::PersistenceError(_)) => {
            assert_eq!(e.status_code(), 500);
            assert_eq!(
                e.chain(),
                vec![
                    "Failed to store the confirmation token for a new subscriber".to_string(),
                    "duplicate subscription token".to_string(),
                ]
            );
        }
        _ => panic!("expected a persistence error"),
    }
    assert_eq!(store.subscriber_count(), 1);
    assert_eq!(store.subscriber(0).email, "first@example.com");
    assert_eq!(store.token_count(), 1);
}

#[test]
fn subscribe_fails_on_a_duplicate_email() {
    let mut store = SubscriptionStore::new();
    assert!(subscribe(&mut store, form("first", "same@example.com"), BASE_URL, 1, "t1".to_string(), 0).is_ok());
    match subscribe(&mut store, form("again", "same@example.com"), BASE_URL, 2, "t2".to_string(), 0) {
        Err(SubscribeError::PersistenceError(f)) => {
            assert_eq!(f.context, "Failed to insert new subscriber in the database");
            assert_eq!(f.cause, "duplicate subscriber email");
        }
        _ => panic!("expected a persistence error"),
    }
    assert_eq!(store.subscriber_count(), 1);
    assert_eq!(store.token_count(), 1);
}

#[test]
fn subscribe_fails_on_a_duplicate_id() {
    let mut store = SubscriptionStore::new();
    assert!(subscribe(&mut store, form("first", "one@example.com"), BASE_URL, 9, "t1".to_string(), 0).is_ok());
    match subscribe(&mut store, form("second", "two@example.com"), BASE_URL, 9, "t2".to_string(), 0) {
        Err(SubscribeError::PersistenceError(f)) => assert_eq!(f.cause, "duplicate subscriber id"),
        _ => panic!("expected a persistence error"),
    }
    assert_eq!(store.subscriber_count(), 1);
}

#[test]
fn subscribe_now_draws_a_fresh_id_and_token() {
    let mut store = SubscriptionStore::new();
    let mail = match subscribe_now(&mut store, form("le guin", "ursula_le_guin@gmail.com"), BASE_URL) {
        Ok(mail) => mail,
        Err(_) => panic!("the sign-up was refused"),
    };
    assert_eq!(store.subscriber_count(), 1);
    assert_eq!(store.token_count(), 1);
    let id = store.subscriber(0).id;
    assert_eq!((id >> 76) & 0xf, 4);
    assert_eq!((id >> 62) & 0x3, 2);
    let token = store.token(0).subscription_token.clone();
    assert_eq!(token.len(), 25);
    assert!(token.chars().all(|c| c.is_ascii_alphanumeric()));
    assert!(mail.text_body.contains(&format!("subscription_token={}", token)));
    assert!(store.subscriber(0).subscribed_at > 1_600_000_000);
}

#[test]
fn transactions_roll_back_when_dropped() {
    let mut store = SubscriptionStore::new();
    {
        let mut tx = store.begin();
        let new = NewSubscriber::parse(form("x", "x@example.com")).unwrap();
        assert_eq!(store.insert_subscriber(&mut tx, &new, 3, 0), Ok(3));
        assert_eq!(store.store_token(&mut tx, 3, &"tok".to_string()), Ok(()));
    }
    assert_eq!(store.subscriber_count(), 0);
    assert_eq!(store.token_count(), 0);
}

#[test]
fn the_loser_of_two_concurrent_sign_ups_fails_at_commit() {
    let mut store = SubscriptionStore::new();
    let a = NewSubscriber::parse(form("a", "same@example.com")).unwrap();
    let b = NewSubscriber::parse(form("b", "same@example.com")).unwrap();
    let mut tx_a = store.begin();
    let mut tx_b = store.begin();
    assert_eq!(store.insert_subscriber(&mut tx_a, &a, 1, 0), Ok(1));
    assert_eq!(store.insert_subscriber(&mut tx_b, &b, 2, 0), Ok(2));
    assert_eq!(store.store_token(&mut tx_a, 1, &"ta".to_string()), Ok(()));
    assert_eq!(store.store_token(&mut tx_b, 2, &"tb".to_string()), Ok(()));
    assert_eq!(store.commit(tx_a), Ok(()));
    assert_eq!(store.commit(tx_b), Err(StoreError::DuplicateEmail));
    assert_eq!(store.subscriber_count(), 1);
    assert_eq!(store.subscriber(0).name, "a");
    assert_eq!(store.token_count(), 1);
}

#[test]
fn a_token_for_an_unknown_subscriber_is_refused() {
    let store = SubscriptionStore::new();
    let mut tx = store.begin();
    assert_eq!(store.store_token(&mut tx, 42, &"tok".to_string()), Err(StoreError::UnknownSubscriber));
}

#[test]
fn confirming_twice_is_idempotent() {
    let mut store = SubscriptionStore::new();
    assert!(subscribe(&mut store, form("le guin", "ursula_le_guin@gmail.com"), BASE_URL, 1, "tok".to_string(), 0).is_ok());
    assert!(subscribe(&mut store, form("other", "other@example.com"), BASE_URL, 2, "tok2".to_string(), 0).is_ok());
    assert!(confirm(&mut store, &token_params("tok")).is_ok());
    assert_eq!(store.subscriber(0).status, SubscriptionStatus::Confirmed);
    assert_eq!(store.subscriber(0).status.as_str(), "confirmed");
    assert!(confirm(&mut store, &token_params("tok")).is_ok());
    assert_eq!(store.subscriber(0).status, SubscriptionStatus::Confirmed);
    assert_eq!(store.subscriber(1).status, SubscriptionStatus::PendingConfirmation);
}

#[test]
fn confirming_an_unknown_token_is_rejected() {
    let mut store = SubscriptionStore::new();
    assert!(subscribe(&mut store, form("le guin", "ursula_le_guin@gmail.com"), BASE_URL, 1, "tok".to_string(), 0).is_ok());
    match confirm(&mut store, &token_params("not-a-real-token")) {
        Err(e @ ConfirmError::UnknownToken) => {
            assert_eq!(e.status_code(), 401);
            assert_eq!(
                e.chain(),
                vec!["There is no subscriber associated with the provided token".to_string()]
            );
        }
        _ => panic!("expected an unknown-token error"),
    }
    assert_eq!(store.subscriber(0).status, SubscriptionStatus::PendingConfirmation);
}

#[test]
fn confirm_errors_carry_their_step() {
    let e = ConfirmError::at_step(ConfirmStep::MarkConfirmed, "connection reset".to_string());
    assert_eq!(e.status_code(), 500);
    assert_eq!(
        e.chain(),
        vec![
            "Failed to update the subscriber status to `confirmed`".to_string(),
            "connection reset".to_string(),
        ]
    );
}

#[test]
fn only_confirmed_subscribers_are_listed() {
    let mut store = SubscriptionStore::new();
    assert!(subscribe(&mut store, form("a", "a@example.com"), BASE_URL, 1, "ta".to_string(), 0).is_ok());
    assert!(subscribe(&mut store, form("b", "b@example.com"), BASE_URL, 2, "tb".to_string(), 0).is_ok());
    assert!(subscribe(&mut store, form("c", "c@example.com"), BASE_URL, 3, "tc".to_string(), 0).is_ok());
    assert!(confirm(&mut store, &token_params("tc")).is_ok());
    assert!(confirm(&mut store, &token_params("ta")).is_ok());
    assert_eq!(
        store.confirmed_subscriber_emails(),
        vec!["a@example.com".to_string(), "c@example.com".to_string()]
    );
    let subscribers = get_confirmed_subscribers(&store);
    assert_eq!(subscribers.len(), 2);
    assert!(subscribers.iter().all(|s| s.is_ok()));
}

#[test]
fn a_newsletter_skips_a_malformed_stored_email() {
    let stored = vec!["not-an-email".to_string(), "ursula_le_guin@gmail.com".to_string()];
    let subscribers = parse_confirmed_subscribers(stored);
    assert!(subscribers[0].is_err());
    assert!(subscribers[1].is_ok());
    let mut delivery = NewsletterDelivery::new(subscribers);
    let mut dispatched = Vec::new();
    while let Some(recipient) = delivery.next_recipient() {
        dispatched.push(recipient);
        delivery.record(Ok(()));
    }
    assert_eq!(dispatched, vec!["ursula_le_guin@gmail.com".to_string()]);
    assert!(delivery.finish().is_ok());
}

#[test]
fn a_newsletter_stops_at_the_first_failed_send() {
    let stored = vec![
        "a@example.com".to_string(),
        "b@example.com".to_string(),
        "c@example.com".to_string(),
    ];
    let mut delivery = NewsletterDelivery::new(parse_confirmed_subscribers(stored));
    let mut dispatched = Vec::new();
    while let Some(recipient) = delivery.next_recipient() {
        let outcome = if recipient == "b@example.com" { Err("503".to_string()) } else { Ok(()) };
        dispatched.push(recipient);
        delivery.record(outcome);
    }
    assert_eq!(dispatched, vec!["a@example.com".to_string(), "b@example.com".to_string()]);
    match delivery.finish() {
        Err(e @ PublishError::UnexpectedError(_)) => {
            assert_eq!(e.status_code(), 500);
            assert_eq!(
                e.chain(),
                vec!["Failed to send newsletter issue to b@example.com".to_string(), "503".to_string()]
            );
        }
        Ok(()) => panic!("the issue should have failed"),
    }
}

#[test]
fn a_newsletter_with_no_recipients_succeeds() {
    let mut delivery = NewsletterDelivery::new(parse_confirmed_subscribers(Vec::new()));
    assert!(delivery.next_recipient().is_none());
    assert!(delivery.finish().is_ok());
}

#[test]
fn generated_tokens_are_25_alphanumeric_characters() {
    let a = generate_subscriptions_token();
    let b = generate_subscriptions_token();
    assert_eq!(a.chars().count(), 25);
    assert!(a.chars().all(|c| c.is_ascii_alphanumeric()));
    assert_ne!(a, b);
}

#[test]
fn error_chains_are_rendered_with_their_causes() {
    let chain = vec!["outer".to_string(), "middle".to_string(), "inner".to_string()];
    assert_eq!(
        error_chain_fmt(&chain),
        "outer\n\nCaused by:\n\tmiddle\nCaused by:\n\tinner\n"
    );
    assert_eq!(error_chain_fmt(&vec!["alone".to_string()]), "alone\n\n");
    assert_eq!(error_chain_fmt(&Vec::new()), "");
}

#[test]
fn subscribe_errors_map_steps_to_kinds() {
    let e = SubscribeError::at_step(SubscribeStep::Commit, "io".to_string());
    assert!(matches!(e, SubscribeError::PersistenceError(_)));
    assert_eq!(
        error_chain_fmt(&e.chain()),
        "Failed to commit SQL transaction to store a new subscriber\n\nCaused by:\n\tio\n"
    );
    let e = SubscribeError::at_step(SubscribeStep::SendConfirmationEmail, "timeout".to_string());
    assert!(matches!(e, SubscribeError::UnexpectedError(_)));
    assert_eq!(e.status_code(), 500);
    assert_eq!(SubscribeStep::BeginTransaction.context(), "Failed to acquire a Postgres connection from the pool");
}

#[test]
fn send_requests_carry_every_field() {
    let from = SubscriberEmail::parse("sender@example.com".to_string()).unwrap();
    let to = SubscriberEmail::parse("ursula_le_guin@gmail.com".to_string()).unwrap();
    let request = SendEmailRequest::new(&from, to.as_ref(), "Subject", "<p>html</p>", "text");
    assert_eq!(request.from, "sender@example.com");
    assert_eq!(request.to, "ursula_le_guin@gmail.com");
    assert_eq!(request.subject, "Subject");
    assert_eq!(request.html_body, "<p>html</p>");
    assert_eq!(request.text_body, "text");
    assert_eq!(email_endpoint("http://localhost:1234"), "http://localhost:1234/email");
}

#[test]
fn confirmation_email_links_to_the_token() {
    let to = SubscriberEmail::parse("a@b.io".to_string()).unwrap();
    let mail = ConfirmationEmail::new(to, "https://x.io", "T0k");
    assert!(mail.text_body.contains("https://x.io/subscriptions/confirm?subscription_token=T0k"));
    assert_eq!(mail.recipient.as_ref(), "a@b.io");
}

#[test]
fn environments_are_parsed_in_any_case() {
    assert_eq!(Environment::parse("local".to_string()), Ok(Environment::Local));
    assert_eq!(Environment::parse("LOCAL".to_string()), Ok(Environment::Local));
    assert_eq!(Environment::parse("Production".to_string()), Ok(Environment::Production));
    assert_eq!(
        Environment::parse("Staging".to_string()),
        Err("staging is not a supported environment, use either `local` or `production`".to_string())
    );
    assert_eq!(Environment::Local.as_str(), "local");
    assert_eq!(Environment::Production.as_str(), "production");
}

#[test]
fn sign_up_steps_run_in_order_and_fail_with_their_step() {
    let mut order = Vec::new();
    let mut step = Some(SubscribeStep::BeginTransaction);
    while let Some(current) = step {
        order.push(current);
        step = match advance_subscribe(current, Ok(())) {
            Ok(next) => next,
            Err(_) => panic!("a successful step failed"),
        };
    }
    assert_eq!(
        order,
        vec![
            SubscribeStep::BeginTransaction,
            SubscribeStep::InsertSubscriber,
            SubscribeStep::StoreToken,
            SubscribeStep::Commit,
            SubscribeStep::SendConfirmationEmail,
        ]
    );
    match advance_subscribe(SubscribeStep::StoreToken, Err("column missing".to_string())) {
        Err(SubscribeError::PersistenceError(f)) => {
            assert_eq!(f.context, "Failed to store the confirmation token for a new subscriber");
            assert_eq!(f.cause, "column missing");
        }
        _ => panic!("expected a persistence error"),
    }
    match advance_subscribe(SubscribeStep::SendConfirmationEmail, Err("timeout".to_string())) {
        Err(SubscribeError::UnexpectedError(f)) => {
            assert_eq!(f.context, "Failed to send a confirmation email")
        }
        _ => panic!("expected an unexpected error"),
    }
}

#[test]
fn subscribe_now_succeeds_on_an_empty_store_and_refuses_a_known_email() {
    let mut store = SubscriptionStore::new();
    let first = subscribe_now(&mut store, form("le guin", "ursula_le_guin@gmail.com"), BASE_URL);
    match first {
        Ok(mail) => assert_eq!(mail.subject, "Welcome!"),
        Err(_) => panic!("the sign-up was refused"),
    }
    match subscribe_now(&mut store, form("again", "ursula_le_guin@gmail.com"), BASE_URL) {
        Err(SubscribeError::PersistenceError(f)) => assert_eq!(f.cause, "duplicate subscriber email"),
        _ => panic!("expected a persistence error"),
    }
    match subscribe_now(&mut store, form("", "x@y.io"), BASE_URL) {
        Err(SubscribeError::ValidationError(_)) => {}
        _ => panic!("expected a validation error"),
    }
    assert_eq!(store.subscriber_count(), 1);
}
