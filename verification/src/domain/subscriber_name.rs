use vstd::prelude::*;
use vstd::string::StrSliceExecFns;

verus! {

/// The characters that a subscriber name must not contain.
pub open spec fn is_forbidden_char(c: char) -> bool {
    ||| c == '/'
    ||| c == '('
    ||| c == ')'
    ||| c == '"'
    ||| c == '<'
    ||| c == '>'
    ||| c == '\\'
    ||| c == '{'
    ||| c == '}'
}

/// Whether a character has the Unicode `White_Space` property, as decided by
/// `char::is_whitespace`.
pub uninterp spec fn is_unicode_whitespace(c: char) -> bool;

/// A string trims to the empty string exactly when every one of its
/// characters is whitespace.
pub open spec fn trimmed_empty(s: Seq<char>) -> bool {
    forall|i: int| 0 <= i < s.len() ==> is_unicode_whitespace(#[trigger] s[i])
}

/// The number of extended grapheme clusters (user-perceived characters) of a
/// string, as segmented by the `unicode_segmentation` crate.
pub uninterp spec fn grapheme_count(s: Seq<char>) -> nat;

/// A well-formed subscriber name: non-empty after trimming, at most 256
/// grapheme clusters long, and free of the forbidden characters.
pub open spec fn valid_subscriber_name(s: Seq<char>) -> bool {
    &&& !trimmed_empty(s)
    &&& grapheme_count(s) <= 256
    &&& forall|i: int| 0 <= i < s.len() ==> !is_forbidden_char(#[trigger] s[i])
}

/// The message that name validation reports for a malformed name, matching
/// the order in which the checks run: emptiness first, then length, then the
/// forbidden characters.
pub open spec fn name_error_message(s: Seq<char>) -> Seq<char> {
    if trimmed_empty(s) {
        "Subscriber name cannot be empty."@
    } else if grapheme_count(s) > 256 {
        "Subscriber name cannot be longer than 256 characters."@
    } else {
        "Subscriber name cannot contain any of the following characters: /()\"<>\\. \\{\\}"@
    }
}

/// Relies on `char::is_whitespace` of std: true exactly for characters with
/// the Unicode `White_Space` property, a function of the character alone.
#[verifier::external_body]
fn char_is_whitespace(c: char) -> (r: bool)
    ensures
        r == is_unicode_whitespace(c),
{
    c.is_whitespace()
}

/// Relies on `UnicodeSegmentation::graphemes` of the `unicode_segmentation`
/// crate: the extended grapheme clusters of a string are a function of its
/// characters alone, and counting them cannot exceed `usize` since each
/// cluster spans at least one byte.
#[verifier::external_body]
fn count_graphemes(s: &str) -> (n: usize)
    ensures
        n == grapheme_count(s@),
{
    unicode_segmentation::UnicodeSegmentation::graphemes(s, true).count()
}

/// True iff every character of `s` is whitespace, i.e. `s` trims to "".
fn trims_to_empty(s: &str) -> (r: bool)
    ensures
        r == trimmed_empty(s@),
{
    let len = s.unicode_len();
    let mut i: usize = 0;
    while i < len
        invariant
            i <= len,
            len == s@.len(),
            forall|j: int| 0 <= j < i ==> is_unicode_whitespace(#[trigger] s@[j]),
        decreases len - i,
    {
        let c = s.get_char(i);
        if !char_is_whitespace(c) {
            assert(!trimmed_empty(s@));
            return false;
        }
        i += 1;
    }
    true
}

/// True iff some character of `s` is in the forbidden set.
fn contains_forbidden_char(s: &str) -> (r: bool)
    ensures
        r == exists|i: int| 0 <= i < s@.len() && is_forbidden_char(#[trigger] s@[i]),
{
    let len = s.unicode_len();
    let mut i: usize = 0;
    while i < len
        invariant
            i <= len,
            len == s@.len(),
            forall|j: int| 0 <= j < i ==> !is_forbidden_char(#[trigger] s@[j]),
        decreases len - i,
    {
        let c = s.get_char(i);
        if c == '/' || c == '(' || c == ')' || c == '"' || c == '<' || c == '>' || c == '\\'
            || c == '{' || c == '}' {
            assert(is_forbidden_char(s@[i as int]));
            return true;
        }
        i += 1;
    }
    false
}

/// A subscriber name that passed validation. The wrapped string is exactly
/// the raw input, and it can no longer be changed.
#[derive(Debug)]
pub struct SubscriberName(String);

impl View for SubscriberName {
    type V = Seq<char>;

    closed spec fn view(&self) -> Seq<char> {
        self.0@
    }
}

impl SubscriberName {
    /// Validates a raw name. The checks run in order and stop at the first
    /// failure: empty after trimming, then more than 256 grapheme clusters,
    /// then a forbidden character.
    pub fn parse(name: String) -> (r: Result<SubscriberName, String>)
        ensures
            r is Ok <==> valid_subscriber_name(name@),
            r matches Ok(n) ==> n@ == name@,
            r matches Err(e) ==> e@ == name_error_message(name@),
    {
        if trims_to_empty(name.as_str()) {
            return Err("Subscriber name cannot be empty.".to_owned());
        }

        if count_graphemes(name.as_str()) > 256 {
            return Err("Subscriber name cannot be longer than 256 characters.".to_owned());
        }

        if contains_forbidden_char(name.as_str()) {
            return Err(
                "Subscriber name cannot contain any of the following characters: /()\"<>\\. \\{\\}".to_owned(),
            );
        }

        Ok(SubscriberName(name))
    }

    /// Read-only access to the validated name.
    pub fn as_ref(&self) -> (r: &str)
        ensures
            r@ == self@,
    {
        self.0.as_str()
    }
}

/// Law: a name that is empty after trimming whitespace is never a valid
/// subscriber name, so validation fails on it.
pub proof fn law_trimmed_empty_name_rejected(s: Seq<char>)
    requires
        trimmed_empty(s),
    ensures
        !valid_subscriber_name(s),
{
}

/// Law: a name of more than 256 grapheme clusters is never a valid
/// subscriber name, so validation fails on it.
pub proof fn law_overlong_name_rejected(s: Seq<char>)
    requires
        grapheme_count(s) > 256,
    ensures
        !valid_subscriber_name(s),
{
}

} // verus!
