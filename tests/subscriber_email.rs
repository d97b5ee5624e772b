use newsletter::domain::SubscriberEmail;

#[test]
fn empty_string_is_rejected() {
    let email = "".to_string();
    assert!(SubscriberEmail::parse(email).is_err());
}

#[test]
fn email_missing_at_symbol_is_rejected() {
    let email = "ursuladomain.com".to_string();
    assert!(SubscriberEmail::parse(email).is_err());
}

#[test]
fn email_missing_subject_is_rejected() {
    let email = "@domain.com".to_string();
    assert!(SubscriberEmail::parse(email).is_err());
}

#[test]
fn whitespace_only_email_is_rejected() {
    assert!(SubscriberEmail::parse("   \t ".to_string()).is_err());
}

#[test]
fn valid_emails_are_parsed_with_their_text() {
    for raw in [
        "ursula@example.com",
        "le.guin+news@earthsea.org",
        "a@b.co",
        "first_last@mail.example.net",
    ] {
        let email = SubscriberEmail::parse(raw.to_string()).expect("valid email");
        assert_eq!(email.as_ref(), raw);
    }
}

#[test]
fn invalid_email_error_names_the_value() {
    let err = SubscriberEmail::parse("not-an-email".to_string()).unwrap_err();
    assert_eq!(err, "not-an-email is not a valid subscriber email.");
}

#[test]
fn email_error_appends_the_reason() {
    assert_eq!(
        newsletter::domain::subscriber_email::email_error("x"),
        "x is not a valid subscriber email."
    );
    assert_eq!(
        newsletter::domain::subscriber_name::name_error(""),
        " is not a valid subscriber name."
    );
}
