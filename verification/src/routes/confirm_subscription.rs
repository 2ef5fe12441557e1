use vstd::prelude::*;

use crate::store::spec_find_token;
use crate::store::spec_mark_confirmed;
use crate::store::SubscriptionStore;

verus! {

/// The query parameter of an inbound confirm request: the raw token string
/// as the caller presented it.
pub struct Token {
    pub token: String,
}

/// The confirmation workflow: look the token up, and mark the subscriber it
/// belongs to as confirmed.
///
/// A token that matches no row is the caller's fault and answers 400 with
/// nothing changed anywhere. A matching token answers 200, with every row of
/// the owning subscriber set to `Confirmed` — re-confirming an already
/// confirmed subscriber succeeds the same way, unchanged. A persistence
/// failure in the update step would answer 500; the in-memory store cannot
/// fail there, so that arm is unreachable here and kept for the shape of the
/// decision.
pub fn confirm_subscription(store: &mut SubscriptionStore, token: &Token) -> (status: u16)
    ensures
        old(store)@.wf() ==> final(store)@.wf(),
        spec_find_token(old(store)@.tokens, token.token@) is None ==> status == 400 && final(store)@ == old(store)@,
        spec_find_token(old(store)@.tokens, token.token@) matches Some(id) ==> status == 200
            && final(store)@.subscriptions == spec_mark_confirmed(
            old(store)@.subscriptions,
            id,
        ) && final(store)@.tokens == old(store)@.tokens,
{
    let subscription_id = match store.find_subscriber_id_by_token(token.token.as_str()) {
        Ok(id) => id,
        Err(_) => {
            return 400;
        },
    };

    match store.mark_confirmed(subscription_id) {
        Ok(_) => 200,
        Err(_) => 500,
    }
}

} // verus!
