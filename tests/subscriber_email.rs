use zero2prod::subscriber_email::SubscriberEmail;

#[test]
fn valid_emails_are_parsed_successfully() {
    for raw in [
        "ursula_le_guin@gmail.com",
        "a@b",
        "first.last+tag@sub-domain.example.org",
        "o'neil!#$%&*/=?^`{|}~-@x9.io",
    ] {
        let email = SubscriberEmail::parse(raw.to_string());
        assert!(email.is_ok(), "{} was refused", raw);
        assert_eq!(email.unwrap().as_ref(), raw);
    }
}

#[test]
fn empty_email_is_rejected() {
    assert!(SubscriberEmail::parse("".to_string()).is_err());
}

#[test]
fn email_missing_at_symbol_is_rejected() {
    assert!(SubscriberEmail::parse("ursuladomain.com".to_string()).is_err());
    assert!(SubscriberEmail::parse("definitely-not-an-email".to_string()).is_err());
}

#[test]
fn email_missing_subject_is_rejected() {
    assert!(SubscriberEmail::parse("@domain.com".to_string()).is_err());
}

#[test]
fn email_missing_domain_is_rejected() {
    assert!(SubscriberEmail::parse("ursula@".to_string()).is_err());
}

#[test]
fn malformed_domains_are_rejected() {
    for raw in ["a@-b.com", "a@b-.com", "a@b..com", "a@b.com.", "a@.b.com", "a@b_c.com"] {
        assert!(SubscriberEmail::parse(raw.to_string()).is_err(), "{} was accepted", raw);
    }
}

#[test]
fn more_than_one_at_sign_is_rejected() {
    assert!(SubscriberEmail::parse("a@b@c.com".to_string()).is_err());
}

#[test]
fn spaces_are_rejected() {
    assert!(SubscriberEmail::parse("ursula le guin@gmail.com".to_string()).is_err());
}

#[test]
fn email_error_names_the_input() {
    let err = SubscriberEmail::parse("nope".to_string()).unwrap_err();
    assert_eq!(err, "nope is not a valid subscriber email.");
}

#[test]
fn dots_in_the_local_part_must_stand_between_characters() {
    for raw in [".a@example.com", "a.@example.com", "a..b@example.com", ".a..b.@example.com"] {
        assert!(SubscriberEmail::parse(raw.to_string()).is_err(), "{} was accepted", raw);
    }
    assert!(SubscriberEmail::parse("a.b.c@example.com".to_string()).is_ok());
}
