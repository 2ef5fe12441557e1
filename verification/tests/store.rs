use zero2prod::domain::NewSubscriber;
use zero2prod::routes::FormData;
use zero2prod::routes::SubscriberId;
use zero2prod::routes::SubscriptionToken;
use zero2prod::store::SubscriptionStore;

fn subscriber() -> NewSubscriber {
    NewSubscriber::try_from(FormData {
        name: "le guin".to_string(),
        email: "ursula_le_guin@gmail.com".to_string(),
    })
    .unwrap()
}

#[test]
fn create_pending_subscription_writes_both_rows_together() {
    let mut store = SubscriptionStore::new();
    let id = SubscriberId(1);
    let token = SubscriptionToken::new();
    let created = store.create_pending_subscription(&subscriber(), id, &token, 1700000000000);
    assert_eq!(created, Ok(id));

    assert_eq!(1, store.subscription_count());
    assert_eq!(1, store.token_count());
    let row = store.subscription_at(0);
    assert_eq!(row.id, id);
    assert_eq!(row.name, "le guin");
    assert_eq!(row.email, "ursula_le_guin@gmail.com");
    assert_eq!(row.subscribed_at, 1700000000000);
    assert_eq!(row.status.as_str(), "pending_verification");
    let token_row = store.token_at(0);
    assert_eq!(token_row.subscription_id, id);
    assert_eq!(token_row.token, token.as_ref());
}

#[test]
fn create_with_colliding_id_aborts_atomically() {
    let mut store = SubscriptionStore::new();
    let id = SubscriberId(7);
    let token = SubscriptionToken::new();
    assert!(store
        .create_pending_subscription(&subscriber(), id, &token, 1)
        .is_ok());

    let second_token = SubscriptionToken::new();
    let second = store.create_pending_subscription(&subscriber(), id, &second_token, 2);
    assert!(second.is_err());
    // Neither the subscriber row nor the token row of the aborted unit is
    // visible.
    assert_eq!(1, store.subscription_count());
    assert_eq!(1, store.token_count());
}

#[test]
fn find_subscriber_id_by_token_is_exact_match() {
    let mut store = SubscriptionStore::new();
    let token = SubscriptionToken::new();
    store
        .create_pending_subscription(&subscriber(), SubscriberId(3), &token, 1)
        .unwrap();

    assert_eq!(
        store.find_subscriber_id_by_token(token.as_ref()),
        Ok(SubscriberId(3))
    );
    assert!(store.find_subscriber_id_by_token("doesnotexist").is_err());
    let prefix = &token.as_ref()[..24];
    assert!(store.find_subscriber_id_by_token(prefix).is_err());
}

#[test]
fn mark_confirmed_is_idempotent_and_ignores_unknown_ids() {
    let mut store = SubscriptionStore::new();
    let token = SubscriptionToken::new();
    store
        .create_pending_subscription(&subscriber(), SubscriberId(3), &token, 1)
        .unwrap();

    assert!(store.mark_confirmed(SubscriberId(999)).is_ok());
    assert_eq!(store.subscription_at(0).status.as_str(), "pending_verification");

    assert!(store.mark_confirmed(SubscriberId(3)).is_ok());
    assert_eq!(store.subscription_at(0).status.as_str(), "confirmed");

    assert!(store.mark_confirmed(SubscriberId(3)).is_ok());
    assert_eq!(store.subscription_at(0).status.as_str(), "confirmed");
}
