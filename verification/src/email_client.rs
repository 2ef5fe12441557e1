use vstd::prelude::*;
use vstd::string::StrSliceExecFns;
use vstd::string::StringExecFns;

use crate::domain::SubscriberEmail;

verus! {

/// A sensitive value, such as the email provider's authorization token:
/// readable only on purpose, and carrying a redacted rendering for anything
/// that might end up in a log.
pub struct SecretString(String);

impl View for SecretString {
    type V = Seq<char>;

    closed spec fn view(&self) -> Seq<char> {
        self.0@
    }
}

impl SecretString {
    pub fn new(value: String) -> (s: SecretString)
        ensures
            s@ == value@,
    {
        SecretString(value)
    }

    /// Deliberate access to the wrapped value.
    pub fn expose_secret(&self) -> (r: &str)
        ensures
            r@ == self@,
    {
        self.0.as_str()
    }

    /// The only rendering fit for display: the value itself never appears.
    pub fn redacted(&self) -> (r: &str)
        ensures
            r@ == "[REDACTED]"@,
    {
        "[REDACTED]"
    }
}

/// A failed dispatch. A non-2xx response, a timeout and a transport fault
/// are all folded into this one error; the caller cannot tell them apart.
#[derive(Debug, PartialEq, Eq, Structural)]
pub struct DispatchError;

/// Everything one transactional email dispatch needs: the exact URL to POST
/// to, and the five payload fields.
pub struct EmailRequest {
    pub url: String,
    pub from: String,
    pub to: String,
    pub subject: String,
    pub html_body: String,
    pub text_body: String,
}

/// The dispatcher configuration: the provider's base URL, the sender
/// address, the authorization token carried in the request header, and the
/// bound in milliseconds on one whole call.
pub struct EmailClient {
    sender: SubscriberEmail,
    base_url: String,
    authorization_token: SecretString,
    timeout_millis: u64,
}

impl EmailClient {
    /// The configured base URL.
    pub closed spec fn spec_base_url(&self) -> Seq<char> {
        self.base_url@
    }

    /// The configured sender address.
    pub closed spec fn spec_sender(&self) -> Seq<char> {
        self.sender@
    }

    /// The configured authorization token.
    pub closed spec fn spec_authorization_token(&self) -> Seq<char> {
        self.authorization_token@
    }

    /// The configured timeout in milliseconds.
    pub closed spec fn spec_timeout_millis(&self) -> u64 {
        self.timeout_millis
    }

    pub fn new(
        base_url: String,
        sender: SubscriberEmail,
        authorization_token: SecretString,
        timeout_millis: u64,
    ) -> (c: EmailClient)
        ensures
            c.spec_base_url() == base_url@,
            c.spec_sender() == sender@,
            c.spec_authorization_token() == authorization_token@,
            c.spec_timeout_millis() == timeout_millis,
    {
        EmailClient { sender, base_url, authorization_token, timeout_millis }
    }

    pub fn sender(&self) -> (r: &SubscriberEmail)
        ensures
            r@ == self.spec_sender(),
    {
        &self.sender
    }

    pub fn authorization_token(&self) -> (r: &SecretString)
        ensures
            r@ == self.spec_authorization_token(),
    {
        &self.authorization_token
    }

    pub fn timeout_millis(&self) -> (r: u64)
        ensures
            r == self.spec_timeout_millis(),
    {
        self.timeout_millis
    }

    /// Builds the one request that `send` would issue: a POST to the base
    /// URL plus the fixed `/email` path, from the configured sender to the
    /// given recipient. Sending itself is up to the HTTP edge; any of its
    /// failure modes folds into `DispatchError`, decided by
    /// `dispatch_outcome`.
    pub fn email_request(
        &self,
        recipient: &SubscriberEmail,
        subject: &str,
        html_body: &str,
        text_body: &str,
    ) -> (r: EmailRequest)
        ensures
            r.url@ == self.spec_base_url() + "/email"@,
            r.from@ == self.spec_sender(),
            r.to@ == recipient@,
            r.subject@ == subject@,
            r.html_body@ == html_body@,
            r.text_body@ == text_body@,
    {
        let mut url = String::from_str(self.base_url.as_str());
        url.append("/email");
        EmailRequest {
            url,
            from: String::from_str(self.sender.as_ref()),
            to: String::from_str(recipient.as_ref()),
            subject: String::from_str(subject),
            html_body: String::from_str(html_body),
            text_body: String::from_str(text_body),
        }
    }
}

/// The hexadecimal digit for a value below 16, lower case.
pub open spec fn hex_digit(n: int) -> char {
    if n == 0 {
        '0'
    } else if n == 1 {
        '1'
    } else if n == 2 {
        '2'
    } else if n == 3 {
        '3'
    } else if n == 4 {
        '4'
    } else if n == 5 {
        '5'
    } else if n == 6 {
        '6'
    } else if n == 7 {
        '7'
    } else if n == 8 {
        '8'
    } else if n == 9 {
        '9'
    } else if n == 10 {
        'a'
    } else if n == 11 {
        'b'
    } else if n == 12 {
        'c'
    } else if n == 13 {
        'd'
    } else if n == 14 {
        'e'
    } else {
        'f'
    }
}

/// One character as it stands inside a JSON string literal: the quote, the
/// backslash and the control characters are escaped as RFC 8259 asks, with
/// the named short escapes where they exist; every other character stands as
/// itself.
pub open spec fn json_escaped_char(c: char) -> Seq<char> {
    if c == '"' {
        seq!['\\', '"']
    } else if c == '\\' {
        seq!['\\', '\\']
    } else if c == '\u{8}' {
        seq!['\\', 'b']
    } else if c == '\u{c}' {
        seq!['\\', 'f']
    } else if c == '\n' {
        seq!['\\', 'n']
    } else if c == '\r' {
        seq!['\\', 'r']
    } else if c == '\t' {
        seq!['\\', 't']
    } else if (c as u32) < 32 {
        seq!['\\', 'u', '0', '0', hex_digit((c as u32 / 16) as int), hex_digit((c as u32 % 16) as int)]
    } else {
        seq![c]
    }
}

/// A string escaped for use inside a JSON string literal.
pub open spec fn json_escape(s: Seq<char>) -> Seq<char>
    decreases s.len(),
{
    if s.len() == 0 {
        Seq::empty()
    } else {
        json_escaped_char(s[0]) + json_escape(s.drop_first())
    }
}

/// The JSON payload of one dispatch, with the keys exactly as the provider
/// expects them: `From`, `To`, `Subject`, `HtmlBody`, `TextBody`.
pub open spec fn email_payload_json(
    from: Seq<char>,
    to: Seq<char>,
    subject: Seq<char>,
    html_body: Seq<char>,
    text_body: Seq<char>,
) -> Seq<char> {
    "{\"From\":\""@ + json_escape(from) + "\",\"To\":\""@ + json_escape(to) + "\",\"Subject\":\""@
        + json_escape(subject) + "\",\"HtmlBody\":\""@ + json_escape(html_body)
        + "\",\"TextBody\":\""@ + json_escape(text_body) + "\"}"@
}

proof fn lemma_json_escape_push(s: Seq<char>, c: char)
    ensures
        json_escape(s.push(c)) == json_escape(s) + json_escaped_char(c),
    decreases s.len(),
{
    let p = s.push(c);
    if s.len() == 0 {
        assert(p[0] == c);
        assert(p.drop_first() =~= Seq::<char>::empty());
        assert(json_escape(p.drop_first()) == Seq::<char>::empty());
        assert(json_escape(p) == json_escaped_char(c) + json_escape(p.drop_first()));
        assert(json_escape(s) == Seq::<char>::empty());
        assert(json_escape(p) =~= json_escape(s) + json_escaped_char(c));
    } else {
        assert(p[0] == s[0]);
        assert(p.drop_first() =~= s.drop_first().push(c));
        lemma_json_escape_push(s.drop_first(), c);
        assert(json_escape(p) == json_escaped_char(s[0]) + json_escape(p.drop_first()));
        assert(json_escape(p.drop_first()) == json_escape(s.drop_first()) + json_escaped_char(c));
        assert(json_escape(s) == json_escaped_char(s[0]) + json_escape(s.drop_first()));
        assert(json_escape(p) =~= json_escape(s) + json_escaped_char(c));
    }
}

/// The hexadecimal digit for a value below 16, lower case.
fn hex_digit_char(n: u32) -> (c: char)
    requires
        n < 16,
    ensures
        c == hex_digit(n as int),
{
    match n {
        0 => '0',
        1 => '1',
        2 => '2',
        3 => '3',
        4 => '4',
        5 => '5',
        6 => '6',
        7 => '7',
        8 => '8',
        9 => '9',
        10 => 'a',
        11 => 'b',
        12 => 'c',
        13 => 'd',
        14 => 'e',
        _ => 'f',
    }
}

/// Appends `s`, escaped for a JSON string literal, to `out`.
fn push_json_escaped(out: &mut String, s: &str)
    ensures
        final(out)@ == old(out)@ + json_escape(s@),
{
    let len = s.unicode_len();
    let mut i: usize = 0;
    proof {
        assert(s@.take(0) =~= Seq::<char>::empty());
        assert(out@ =~= old(out)@ + json_escape(s@.take(0)));
    }
    while i < len
        invariant
            i <= len,
            len == s@.len(),
            out@ == old(out)@ + json_escape(s@.take(i as int)),
        decreases len - i,
    {
        let c = s.get_char(i);
        if c == '"' {
            out.push('\\');
            out.push('"');
        } else if c == '\\' {
            out.push('\\');
            out.push('\\');
        } else if c == '\u{8}' {
            out.push('\\');
            out.push('b');
        } else if c == '\u{c}' {
            out.push('\\');
            out.push('f');
        } else if c == '\n' {
            out.push('\\');
            out.push('n');
        } else if c == '\r' {
            out.push('\\');
            out.push('r');
        } else if c == '\t' {
            out.push('\\');
            out.push('t');
        } else if (c as u32) < 32 {
            let code = c as u32;
            out.push('\\');
            out.push('u');
            out.push('0');
            out.push('0');
            out.push(hex_digit_char(code / 16));
            out.push(hex_digit_char(code % 16));
        } else {
            out.push(c);
        }
        proof {
            assert(out@ =~= old(out)@ + (json_escape(s@.take(i as int)) + json_escaped_char(
                s@[i as int],
            )));
            lemma_json_escape_push(s@.take(i as int), s@[i as int]);
            assert(s@.take(i as int).push(s@[i as int]) =~= s@.take(i + 1));
            assert(out@ =~= old(out)@ + json_escape(s@.take(i + 1)));
        }
        i += 1;
    }
    proof {
        assert(s@.take(len as int) =~= s@);
    }
}

impl EmailRequest {
    /// The JSON body of the request, byte for byte: the five keys in their
    /// fixed order and capitalization, each value escaped as RFC 8259
    /// requires. This shape is a compatibility contract with the provider.
    pub fn body_json(&self) -> (r: String)
        ensures
            r@ == email_payload_json(
                self.from@,
                self.to@,
                self.subject@,
                self.html_body@,
                self.text_body@,
            ),
    {
        let mut out = String::from_str("{\"From\":\"");
        push_json_escaped(&mut out, self.from.as_str());
        out.append("\",\"To\":\"");
        push_json_escaped(&mut out, self.to.as_str());
        out.append("\",\"Subject\":\"");
        push_json_escaped(&mut out, self.subject.as_str());
        out.append("\",\"HtmlBody\":\"");
        push_json_escaped(&mut out, self.html_body.as_str());
        out.append("\",\"TextBody\":\"");
        push_json_escaped(&mut out, self.text_body.as_str());
        out.append("\"}");
        proof {
            assert(out@ =~= email_payload_json(
                self.from@,
                self.to@,
                self.subject@,
                self.html_body@,
                self.text_body@,
            ));
        }
        out
    }
}

/// Folds what one HTTP dispatch attempt came back with into the single
/// dispatch error: `status` holds the response status when a response
/// arrived, and `None` stands for a timeout or a transport fault. Exactly a
/// 2xx response counts as delivered.
pub fn dispatch_outcome(status: Option<u16>) -> (r: Result<(), DispatchError>)
    ensures
        r is Ok <==> (status matches Some(s) && 200 <= s < 300),
{
    match status {
        Some(s) => {
            if 200 <= s && s < 300 {
                Ok(())
            } else {
                Err(DispatchError)
            }
        },
        None => Err(DispatchError),
    }
}

} // verus!
