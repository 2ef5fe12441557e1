use vstd::prelude::*;

verus! {

/// The payload of the newsletter-broadcast endpoint. The endpoint itself is
/// a stub: it accepts the payload and does nothing with it yet.
pub struct Newsletter {
    pub title: String,
    pub content: Content,
}

/// The two renderings of a newsletter issue.
pub struct Content {
    pub html: String,
    pub text: String,
}

} // verus!
