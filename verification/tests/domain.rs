use zero2prod::domain::NewSubscriber;
use zero2prod::domain::SubscriberEmail;
use zero2prod::domain::SubscriberName;
use zero2prod::routes::FormData;

#[test]
fn parse_given_empty_email_returns_error() {
    let email = "";
    let result = SubscriberEmail::parse(email.to_string());
    assert!(result.is_err(), "Subscriber email cannot be empty.");
}

#[test]
fn parse_given_email_without_at_symbol_then_error() {
    let email = "ursula.com";
    let result = SubscriberEmail::parse(email.to_string());
    assert!(result.is_err(), "Subscriber email must contain an @ symbol.");
}

#[test]
fn parse_given_email_without_host_then_error() {
    let email = "ewrwrw@";
    let result = SubscriberEmail::parse(email.to_string());
    assert!(result.is_err(), "Subscriber email must contain a host.");
}

#[test]
fn parse_given_email_without_name_then_error() {
    let email = "@gmail.com";
    let result = SubscriberEmail::parse(email.to_string());
    assert!(result.is_err(), "Subscriber email must contain a name.");
}

#[test]
fn parse_given_valid_email_returns_ok() {
    for i in 0..100 {
        let email = format!("user.{}{}@example{}.com", i, i, i);
        let result = SubscriberEmail::parse(email);
        assert!(result.is_ok());
    }
}

#[test]
fn parse_given_256_characters_name_returns_error() {
    let name = "\u{00d1}\u{2018}".repeat(257);
    let result = SubscriberName::parse(name);
    assert!(
        result.is_err(),
        "Subscriber name cannot be longer than 256 characters."
    );
}

#[test]
fn parse_given_empty_name_returns_error() {
    let name = "";
    let result = SubscriberName::parse(name.to_string());
    assert!(result.is_err(), "Subscriber name cannot be empty.");
}

#[test]
fn parse_given_name_with_forbidden_characters_returns_error() {
    let forbidden_characters = ['/', '(', ')', '"', '<', '>', '\\', '{', '}'];
    let err_msg = String::from_iter(forbidden_characters.iter());
    for char in forbidden_characters {
        let name = format!("name{}", char);
        let result = SubscriberName::parse(name);
        assert!(
            result.is_err(),
            "Subscriber name cannot contain any of the following characters: {err_msg}"
        );
    }
}

#[test]
fn parse_given_valid_name_then_ok() {
    let name = "name".to_string();
    let result = SubscriberName::parse(name);
    assert!(result.is_ok(), "Name should be valid.");
}

#[test]
fn name_validation_error_messages_are_exact() {
    assert_eq!(
        SubscriberName::parse("   ".to_string()).unwrap_err(),
        "Subscriber name cannot be empty."
    );
    assert_eq!(
        SubscriberName::parse("a".repeat(257)).unwrap_err(),
        "Subscriber name cannot be longer than 256 characters."
    );
    assert_eq!(
        SubscriberName::parse("name{}".to_string()).unwrap_err(),
        "Subscriber name cannot contain any of the following characters: /()\"<>\\. \\{\\}"
    );
    assert_eq!(
        SubscriberEmail::parse("not-an-email".to_string()).unwrap_err(),
        "Invalid email."
    );
}

#[test]
fn name_of_exactly_256_graphemes_is_accepted() {
    let name = "a".repeat(256);
    assert!(SubscriberName::parse(name).is_ok());
    let name = "\u{00d1}\u{2018}".repeat(128);
    assert!(SubscriberName::parse(name).is_ok());
}

#[test]
fn combining_sequences_count_as_one_grapheme() {
    // 256 clusters, each of two codepoints: 'e' followed by a combining
    // acute accent. Counted by codepoints this would exceed the limit.
    let name = "e\u{0301}".repeat(256);
    assert!(SubscriberName::parse(name).is_ok());
}

#[test]
fn whitespace_only_names_are_rejected() {
    for name in [" ", "\t", "\n", " \t\r\n ", "\u{00a0}"] {
        assert!(SubscriberName::parse(name.to_string()).is_err());
    }
}

#[test]
fn validated_values_wrap_the_raw_input() {
    let name = SubscriberName::parse("le guin".to_string()).unwrap();
    assert_eq!(name.as_ref(), "le guin");
    let email = SubscriberEmail::parse("ursula_le_guin@gmail.com".to_string()).unwrap();
    assert_eq!(email.as_ref(), "ursula_le_guin@gmail.com");
}

#[test]
fn email_with_empty_local_part_and_many_at_signs_is_rejected() {
    for email in ["@a@b.com", "a@@b.com", "@", "a@b@"] {
        assert!(SubscriberEmail::parse(email.to_string()).is_err());
    }
}

#[test]
fn new_subscriber_validates_name_before_email() {
    let form = FormData {
        name: "".to_string(),
        email: "also-bad".to_string(),
    };
    let err = NewSubscriber::try_from(form).unwrap_err();
    assert_eq!(err, "Subscriber name cannot be empty.");

    let form = FormData {
        name: "le guin".to_string(),
        email: "also-bad".to_string(),
    };
    let err = NewSubscriber::try_from(form).unwrap_err();
    assert_eq!(err, "Invalid email.");

    let form = FormData {
        name: "le guin".to_string(),
        email: "ursula_le_guin@gmail.com".to_string(),
    };
    let subscriber = NewSubscriber::try_from(form).unwrap();
    assert_eq!(subscriber.name.as_ref(), "le guin");
    assert_eq!(subscriber.email.as_ref(), "ursula_le_guin@gmail.com");
}
