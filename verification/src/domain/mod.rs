mod subscriber_email;
mod subscriber_name;

pub use subscriber_email::email_host_empty;
pub use subscriber_email::email_local_empty;
pub use subscriber_email::email_missing_at;
pub use subscriber_email::is_valid_email;
pub use subscriber_email::last_at_index;
pub use subscriber_email::SubscriberEmail;
pub use subscriber_name::grapheme_count;
pub use subscriber_name::is_forbidden_char;
pub use subscriber_name::is_unicode_whitespace;
pub use subscriber_name::name_error_message;
pub use subscriber_name::trimmed_empty;
pub use subscriber_name::valid_subscriber_name;
pub use subscriber_name::SubscriberName;

use vstd::prelude::*;

verus! {

/// A validated subscriber: a well-formed name together with a well-formed
/// email address. It can only be produced by validation, so holding a value
/// of this type is evidence that both fields passed their checks.
#[derive(Debug)]
pub struct NewSubscriber {
    pub name: SubscriberName,
    pub email: SubscriberEmail,
}

} // verus!
