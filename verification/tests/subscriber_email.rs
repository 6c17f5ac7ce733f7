use cr_api::subscriber_email::SubscriberEmail;

#[test]
fn empty_string_is_rejected() {
    let email = "".to_string();
    assert!(SubscriberEmail::parse(email).is_err());
}

#[test]
fn email_missing_at_symbol_is_rejected() {
    let email = "ursuladomain.com".to_string();
    assert!(SubscriberEmail::parse(email).is_err());
}

#[test]
fn email_missing_subject_is_rejected() {
    let email = "@domain.com".to_string();
    assert!(SubscriberEmail::parse(email).is_err());
}

#[test]
fn valid_email_is_accepted() {
    let parsed = SubscriberEmail::parse("ursula_le_guin@gmail.com".to_string());
    match parsed {
        Ok(email) => assert_eq!(email.as_ref(), "ursula_le_guin@gmail.com"),
        Err(m) => panic!("{}", m),
    }
}

#[test]
fn rejection_message_names_the_address() {
    let err = SubscriberEmail::parse("definitely-not-an-email".to_string()).unwrap_err();
    assert_eq!(err, "definitely-not-an-email is not a valid subscriber email.");
}
