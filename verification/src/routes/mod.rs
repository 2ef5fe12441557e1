mod confirm_subscription;
mod newsletter;
mod subscriptions;

pub use confirm_subscription::confirm_subscription;
pub use confirm_subscription::Token;
pub use newsletter::Content;
pub use newsletter::Newsletter;
pub use subscriptions::confirmation_link;
pub use subscriptions::is_token_char;
pub use subscriptions::law_subscribe_then_confirm;
pub use subscriptions::subscribe;
pub use subscriptions::subscribe_dispatched;
pub use subscriptions::subscribe_persisted;
pub use subscriptions::valid_token;
pub use subscriptions::welcome_email_body;
pub use subscriptions::welcome_email_request;
pub use subscriptions::ApplicationBaseUrl;
pub use subscriptions::FormData;
pub use subscriptions::SubscribeError;
pub use subscriptions::SubscriberId;
pub use subscriptions::SubscriptionToken;
