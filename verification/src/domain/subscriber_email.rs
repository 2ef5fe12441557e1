use vstd::prelude::*;

verus! {

/// Whether a string passes the general email-syntax check, as decided by the
/// `validator` crate's `ValidateEmail`. The full syntax (HTML5 email grammar
/// plus internationalized domains) is not restated here; the trusted wrapper
/// below pins the corner cases that this library's contracts rely on.
pub uninterp spec fn is_valid_email(s: Seq<char>) -> bool;

/// The index of the last `'@'` in `s`, or `-1` when there is none. An email
/// splits at its last `'@'` into a local part and a host.
pub open spec fn last_at_index(s: Seq<char>) -> int
    decreases s.len(),
{
    if s.len() == 0 {
        -1
    } else if s[s.len() - 1] == '@' {
        s.len() - 1
    } else {
        last_at_index(s.drop_last())
    }
}

/// The string has no `'@'` at all (in particular, the empty string).
pub open spec fn email_missing_at(s: Seq<char>) -> bool {
    last_at_index(s) < 0
}

/// The string has an `'@'` but nothing before its last one: the local part
/// is empty.
pub open spec fn email_local_empty(s: Seq<char>) -> bool {
    last_at_index(s) == 0
}

/// The string has an `'@'` but nothing after its last one: the host is
/// empty.
pub open spec fn email_host_empty(s: Seq<char>) -> bool {
    last_at_index(s) >= 0 && last_at_index(s) == s.len() - 1
}

/// Relies on `ValidateEmail::validate_email` of the `validator` crate: the
/// verdict is a function of the string alone; it returns false for a string
/// without `'@'` (the empty string included), for one whose part before the
/// last `'@'` is empty, and for one whose part after the last `'@'` is empty.
#[verifier::external_body]
fn check_email_syntax(s: &str) -> (r: bool)
    ensures
        r == is_valid_email(s@),
        email_missing_at(s@) ==> !r,
        email_local_empty(s@) ==> !r,
        email_host_empty(s@) ==> !r,
{
    validator::ValidateEmail::validate_email(&s)
}

/// A subscriber email address that passed the syntax check. The wrapped
/// string is exactly the raw input, and it can no longer be changed.
#[derive(Debug, Clone)]
pub struct SubscriberEmail(String);

impl View for SubscriberEmail {
    type V = Seq<char>;

    closed spec fn view(&self) -> Seq<char> {
        self.0@
    }
}

impl SubscriberEmail {
    /// Validates a raw email address against the general email-syntax check.
    pub fn parse(email: String) -> (r: Result<SubscriberEmail, String>)
        ensures
            r is Ok <==> is_valid_email(email@),
            r matches Ok(e) ==> e@ == email@,
            r matches Err(m) ==> m@ == "Invalid email."@,
            email_missing_at(email@) ==> r is Err,
            email_local_empty(email@) ==> r is Err,
            email_host_empty(email@) ==> r is Err,
    {
        if check_email_syntax(email.as_str()) {
            Ok(SubscriberEmail(email))
        } else {
            Err("Invalid email.".to_owned())
        }
    }

    /// Read-only access to the validated address.
    pub fn as_ref(&self) -> (r: &str)
        ensures
            r@ == self@,
    {
        self.0.as_str()
    }
}

} // verus!
