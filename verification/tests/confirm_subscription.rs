use zero2prod::domain::SubscriberEmail;
use zero2prod::email_client::EmailClient;
use zero2prod::email_client::SecretString;
use zero2prod::routes::confirm_subscription;
use zero2prod::routes::subscribe;
use zero2prod::routes::ApplicationBaseUrl;
use zero2prod::routes::FormData;
use zero2prod::routes::SubscriberId;
use zero2prod::routes::Token;
use zero2prod::store::SubscriptionStore;

fn subscribed_store() -> SubscriptionStore {
    let mut store = SubscriptionStore::new();
    let email_client = EmailClient::new(
        "https://mail.example.com".to_string(),
        SubscriberEmail::parse("newsletter@example.com".to_string()).unwrap(),
        SecretString::new("SECRET-REDACTED".to_string()),
        200,
    );
    let result = subscribe(
        &mut store,
        &email_client,
        &ApplicationBaseUrl("https://app.example.com".to_string()),
        FormData {
            name: "le guin".to_string(),
            email: "ursula_le_guin@gmail.com".to_string(),
        },
        SubscriberId::new(),
        Ok(()),
    );
    assert!(result.is_ok());
    store
}

#[test]
fn confirm_subscription_missing_token_return_bad_request() {
    // A request that carries no usable token hands the workflow an empty
    // string, and no issued token is empty.
    let mut store = subscribed_store();
    let status = confirm_subscription(
        &mut store,
        &Token {
            token: "".to_string(),
        },
    );
    assert_eq!(status, 400);
}

#[test]
fn confirm_subscription_with_unknown_token_returns_400_and_changes_nothing() {
    let mut store = subscribed_store();
    let status = confirm_subscription(
        &mut store,
        &Token {
            token: "doesnotexist".to_string(),
        },
    );
    assert_eq!(status, 400);
    assert_eq!(store.subscription_at(0).status.as_str(), "pending_verification");
    assert_eq!(1, store.subscription_count());
    assert_eq!(1, store.token_count());
}

#[test]
fn confirm_subscription_link_found_in_email_returns_200() {
    let mut store = subscribed_store();
    let token = store.token_at(0).token.clone();
    let status = confirm_subscription(&mut store, &Token { token });
    assert_eq!(status, 200);
}

#[test]
fn confirm_subscription_link_found_in_email_sets_the_status_of_subscription_to_active() {
    let mut store = subscribed_store();
    let token = store.token_at(0).token.clone();
    let status = confirm_subscription(&mut store, &Token { token });
    assert_eq!(status, 200);
    assert_eq!(store.subscription_at(0).status.as_str(), "confirmed");
}

#[test]
fn confirming_twice_is_idempotent() {
    let mut store = subscribed_store();
    let token = store.token_at(0).token.clone();
    assert_eq!(
        200,
        confirm_subscription(
            &mut store,
            &Token {
                token: token.clone()
            }
        )
    );
    assert_eq!(200, confirm_subscription(&mut store, &Token { token }));
    assert_eq!(store.subscription_at(0).status.as_str(), "confirmed");
}

#[test]
fn confirming_one_subscriber_leaves_the_others_pending() {
    let mut store = subscribed_store();
    let email_client = EmailClient::new(
        "https://mail.example.com".to_string(),
        SubscriberEmail::parse("newsletter@example.com".to_string()).unwrap(),
        SecretString::new("SECRET-REDACTED".to_string()),
        200,
    );
    let result = subscribe(
        &mut store,
        &email_client,
        &ApplicationBaseUrl("https://app.example.com".to_string()),
        FormData {
            name: "second".to_string(),
            email: "second@example.com".to_string(),
        },
        SubscriberId::new(),
        Ok(()),
    );
    assert!(result.is_ok());

    let token = store.token_at(1).token.clone();
    assert_eq!(200, confirm_subscription(&mut store, &Token { token }));
    assert_eq!(store.subscription_at(0).status.as_str(), "pending_verification");
    assert_eq!(store.subscription_at(1).status.as_str(), "confirmed");
}
