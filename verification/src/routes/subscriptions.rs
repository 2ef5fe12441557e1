use vstd::prelude::*;
use vstd::string::StringExecFns;

use crate::domain::is_valid_email;
use crate::domain::name_error_message;
use crate::domain::valid_subscriber_name;
use crate::domain::NewSubscriber;
use crate::domain::SubscriberEmail;
use crate::domain::SubscriberName;
use crate::email_client::DispatchError;
use crate::email_client::EmailClient;
use crate::email_client::EmailRequest;
use crate::store::has_subscriber_id;
use crate::store::PersistenceError;
use crate::store::SubscriptionStatus;
use crate::store::SubscriptionStore;

verus! {

/// The raw form fields of an inbound subscribe request.
pub struct FormData {
    pub name: String,
    pub email: String,
}

/// The base URL that confirmation links are built from.
pub struct ApplicationBaseUrl(pub String);

/// The identity of a stored subscriber, held as the 128-bit value of its
/// UUID.
#[derive(Clone, Copy, Debug, PartialEq, Eq, Structural)]
pub struct SubscriberId(pub u128);

impl View for SubscriberId {
    type V = u128;

    open spec fn view(&self) -> u128 {
        self.0
    }
}

/// Relies on `Uuid::new_v4` and `Uuid::as_u128` of the `uuid` crate: a fresh
/// random identifier; nothing is promised of its value.
#[verifier::external_body]
fn random_uuid_value() -> u128 {
    uuid::Uuid::new_v4().as_u128()
}

impl SubscriberId {
    /// Draws a fresh random identifier. Identifiers are random, so nothing
    /// relates two calls; the store rejects a clash when the row is inserted.
    pub fn new() -> SubscriberId {
        SubscriberId(random_uuid_value())
    }
}

/// The characters a confirmation token is drawn from: ASCII letters and
/// digits.
pub open spec fn is_token_char(c: char) -> bool {
    ||| 'A' <= c && c <= 'Z'
    ||| 'a' <= c && c <= 'z'
    ||| '0' <= c && c <= '9'
}

/// A well-formed confirmation token: exactly 25 characters, each an ASCII
/// letter or digit.
pub open spec fn valid_token(s: Seq<char>) -> bool {
    &&& s.len() == 25
    &&& forall|i: int| 0 <= i < s.len() ==> is_token_char(#[trigger] s[i])
}

/// Relies on `String::push` of std: appends the character to the end of the
/// string.
pub assume_specification[ String::push ](s: &mut String, c: char)
    ensures
        final(s)@ == old(s)@.push(c),
;

#[verifier::external_type_specification]
#[verifier::external_body]
pub struct ExThreadRng(rand::rngs::ThreadRng);

/// Relies on `rand::thread_rng`: a handle to the thread-local generator.
#[verifier::external_body]
fn new_thread_rng() -> rand::rngs::ThreadRng {
    rand::thread_rng()
}

/// Relies on `rand`'s `Alphanumeric` distribution: sampling it yields a byte
/// drawn from the ASCII letters and digits, here converted to the character
/// it encodes. Nothing is promised about which one comes out.
#[verifier::external_body]
fn sample_alphanumeric_char(rng: &mut rand::rngs::ThreadRng) -> (c: char)
    ensures
        is_token_char(c),
{
    char::from(rand::Rng::sample(rng, rand::distributions::Alphanumeric))
}

/// A single-use confirmation token: a random 25-character string over the
/// ASCII letters and digits.
#[derive(Debug)]
pub struct SubscriptionToken(String);

impl View for SubscriptionToken {
    type V = Seq<char>;

    closed spec fn view(&self) -> Seq<char> {
        self.0@
    }
}

impl SubscriptionToken {
    /// Draws a fresh token: 25 characters, each sampled independently from
    /// the ASCII letters and digits. No check against already-issued tokens
    /// is made; a clash is negligible at this length but not guarded against.
    pub fn new() -> (t: SubscriptionToken)
        ensures
            valid_token(t@),
    {
        let mut rng = new_thread_rng();
        let mut token = String::new();
        let mut i: usize = 0;
        while i < 25
            invariant
                i <= 25,
                token@.len() == i,
                forall|j: int| 0 <= j < i ==> is_token_char(#[trigger] token@[j]),
            decreases 25 - i,
        {
            let c = sample_alphanumeric_char(&mut rng);
            token.push(c);
            i += 1;
        }
        SubscriptionToken(token)
    }

    /// Read-only access to the token string.
    pub fn as_ref(&self) -> (r: &str)
        ensures
            r@ == self@,
    {
        self.0.as_str()
    }
}

impl NewSubscriber {
    /// The fallible conversion from raw form fields: the name is validated
    /// first, then the email, and the first failure is returned, so a name
    /// failure masks an email failure.
    pub fn try_from(value: FormData) -> (r: Result<NewSubscriber, String>)
        ensures
            r is Ok <==> valid_subscriber_name(value.name@) && is_valid_email(value.email@),
            r matches Ok(s) ==> s.name@ == value.name@ && s.email@ == value.email@,
            !valid_subscriber_name(value.name@) ==> (r matches Err(e) && e@ == name_error_message(
                value.name@,
            )),
            valid_subscriber_name(value.name@) && !is_valid_email(value.email@) ==> (
            r matches Err(e) && e@ == "Invalid email."@),
    {
        let name = match SubscriberName::parse(value.name) {
            Ok(name) => name,
            Err(e) => {
                return Err(e);
            },
        };
        let email = match SubscriberEmail::parse(value.email) {
            Ok(email) => email,
            Err(e) => {
                return Err(e);
            },
        };
        Ok(NewSubscriber { name, email })
    }
}

/// The path and query prefix that a confirmation link appends to the
/// application base URL, followed by the token itself.
pub open spec fn confirmation_link(base_url: Seq<char>, token: Seq<char>) -> Seq<char> {
    base_url + "/subscriptions/confirm?token="@ + token
}

/// The one body the welcome email carries, in its HTML and its text form
/// alike: a greeting around the confirmation link.
pub open spec fn welcome_email_body(base_url: Seq<char>, token: Seq<char>) -> Seq<char> {
    "Welcome to our newsletter <a href=\""@ + confirmation_link(base_url, token) + "\">here</a>"@
}

/// Builds the welcome email for a new subscriber: subject `Welcome`, and the
/// confirmation link embedded identically in the HTML body and the text body.
pub fn welcome_email_request(
    email_client: &EmailClient,
    recipient: &SubscriberEmail,
    base_url: &ApplicationBaseUrl,
    subscription_token: &SubscriptionToken,
) -> (r: EmailRequest)
    ensures
        r.url@ == email_client.spec_base_url() + "/email"@,
        r.from@ == email_client.spec_sender(),
        r.to@ == recipient@,
        r.subject@ == "Welcome"@,
        r.html_body@ == welcome_email_body(base_url.0@, subscription_token@),
        r.text_body@ == welcome_email_body(base_url.0@, subscription_token@),
{
    let mut body = String::from_str("Welcome to our newsletter <a href=\"");
    body.append(base_url.0.as_str());
    body.append("/subscriptions/confirm?token=");
    body.append(subscription_token.as_ref());
    body.append("\">here</a>");
    proof {
        assert(body@ =~= welcome_email_body(base_url.0@, subscription_token@));
    }
    email_client.email_request(recipient, "Welcome", body.as_str(), body.as_str())
}

/// Everything that can go wrong in one subscribe call, each mapped by
/// `status_code` to the single status class its caller observes.
#[derive(Debug)]
pub enum SubscribeError {
    DatabaseError(PersistenceError),
    ValidationError(String),
    ConfirmationError(DispatchError),
}

impl SubscribeError {
    /// The response status for each failure: malformed input is the caller's
    /// fault, everything else is an internal error.
    pub fn status_code(&self) -> (s: u16)
        ensures
            self matches SubscribeError::ValidationError(_) ==> s == 400,
            !(self matches SubscribeError::ValidationError(_)) ==> s == 500,
    {
        match self {
            SubscribeError::ValidationError(_) => 400,
            _ => 500,
        }
    }
}

/// Relies on `chrono::Utc::now` and `DateTime::timestamp_millis`: the current
/// UTC time as milliseconds since the Unix epoch, read from the system clock;
/// nothing is promised of its value.
#[verifier::external_body]
fn now_utc_millis() -> i64 {
    chrono::Utc::now().timestamp_millis()
}

/// The subscribe workflow: validate the form, draw a fresh token, persist the
/// subscriber row and its token row in one atomic unit, then hand the welcome
/// email to the dispatcher.
///
/// The caller supplies the freshly drawn subscriber id and, being the HTTP
/// edge, the dispatcher's verdict on the one send this call makes; `dispatch`
/// stands for that verdict. On success the request that was dispatched is
/// returned. The stored row's timestamp is read from the clock, so nothing is
/// promised of it. Persistence commits strictly before the dispatch: when
/// only the dispatch fails, the two rows stay committed.
pub fn subscribe(
    store: &mut SubscriptionStore,
    email_client: &EmailClient,
    base_url: &ApplicationBaseUrl,
    form: FormData,
    id: SubscriberId,
    dispatch: Result<(), DispatchError>,
) -> (r: Result<EmailRequest, SubscribeError>)
    ensures
        old(store)@.wf() ==> final(store)@.wf(),
        !valid_subscriber_name(form.name@) ==> (r matches Err(SubscribeError::ValidationError(m))
            && m@ == name_error_message(form.name@) && final(store)@ == old(store)@),
        valid_subscriber_name(form.name@) && !is_valid_email(form.email@) ==> (
        r matches Err(SubscribeError::ValidationError(m)) && m@ == "Invalid email."@ && final(store)@ == old(store)@),
        valid_subscriber_name(form.name@) && is_valid_email(form.email@) && has_subscriber_id(
            old(store)@.subscriptions,
            id@,
        ) ==> (r matches Err(SubscribeError::DatabaseError(_)) && final(store)@ == old(store)@),
        valid_subscriber_name(form.name@) && is_valid_email(form.email@) && !has_subscriber_id(
            old(store)@.subscriptions,
            id@,
        ) ==> subscribe_persisted(old(store)@, final(store)@, form.name@, form.email@, id@)
            && subscribe_dispatched(
            final(store)@,
            email_client,
            base_url.0@,
            form.email@,
            dispatch,
            r,
        ),
{
    let subscriber = match NewSubscriber::try_from(form) {
        Ok(subscriber) => subscriber,
        Err(e) => {
            return Err(SubscribeError::ValidationError(e));
        },
    };
    let subscription_token = SubscriptionToken::new();
    let subscribed_at = now_utc_millis();
    match store.create_pending_subscription(&subscriber, id, &subscription_token, subscribed_at) {
        Ok(_) => (),
        Err(e) => {
            return Err(SubscribeError::DatabaseError(e));
        },
    }
    let request = welcome_email_request(
        email_client,
        &subscriber.email,
        base_url,
        &subscription_token,
    );
    proof {
        assert(store@.subscriptions.drop_last() =~= old(store)@.subscriptions);
        assert(store@.tokens.drop_last() =~= old(store)@.tokens);
    }
    match dispatch {
        Ok(_) => Ok(request),
        Err(e) => Err(SubscribeError::ConfirmationError(e)),
    }
}

/// After a successful subscribe: exactly one subscriber row was appended,
/// carrying the given id, name and email, status `PendingVerification` and a
/// clock-read timestamp, and exactly one token row was appended, linking a
/// well-formed fresh token to that id. Nothing else changed.
pub open spec fn subscribe_persisted(
    pre: crate::store::StoreView,
    post: crate::store::StoreView,
    name: Seq<char>,
    email: Seq<char>,
    id: u128,
) -> bool {
    &&& post.subscriptions.len() == pre.subscriptions.len() + 1
    &&& post.subscriptions.drop_last() == pre.subscriptions
    &&& post.subscriptions.last().id == id
    &&& post.subscriptions.last().name == name
    &&& post.subscriptions.last().email == email
    &&& post.subscriptions.last().status == SubscriptionStatus::PendingVerification
    &&& post.tokens.len() == pre.tokens.len() + 1
    &&& post.tokens.drop_last() == pre.tokens
    &&& post.tokens.last().subscription_id == id
    &&& valid_token(post.tokens.last().token)
}

/// After the dispatch step of a successful persist: the welcome email built
/// around the just-persisted token went to the dispatcher, and the result
/// follows its verdict — the request back on success, a `ConfirmationError`
/// otherwise, with the committed rows untouched either way.
pub open spec fn subscribe_dispatched(
    post: crate::store::StoreView,
    email_client: &EmailClient,
    base_url: Seq<char>,
    email: Seq<char>,
    dispatch: Result<(), DispatchError>,
    r: Result<EmailRequest, SubscribeError>,
) -> bool {
    &&& dispatch is Ok <==> r is Ok
    &&& (r matches Ok(req) ==> {
        &&& req.url@ == email_client.spec_base_url() + "/email"@
        &&& req.from@ == email_client.spec_sender()
        &&& req.to@ == email
        &&& req.subject@ == "Welcome"@
        &&& req.html_body@ == welcome_email_body(base_url, post.tokens.last().token)
        &&& req.text_body@ == req.html_body@
    })
    &&& (r is Err ==> r matches Err(SubscribeError::ConfirmationError(_)))
}

/// Law: the token issued by a successful subscribe is found by the lookup,
/// and confirming it leaves exactly that subscriber `Confirmed` — provided no
/// equal token was already stored, since the lookup answers with the earliest
/// match and an older equal token would win instead.
pub proof fn law_subscribe_then_confirm(
    pre: crate::store::StoreView,
    post: crate::store::StoreView,
    name: Seq<char>,
    email: Seq<char>,
    id: u128,
)
    requires
        subscribe_persisted(pre, post, name, email, id),
        !crate::store::has_token(pre.tokens, post.tokens.last().token),
    ensures
        crate::store::spec_find_token(post.tokens, post.tokens.last().token) == Some(id),
        crate::store::spec_mark_confirmed(post.subscriptions, id)[post.subscriptions.len()
            - 1].status == SubscriptionStatus::Confirmed,
{
    let tok = post.tokens.last().token;
    assert(post.tokens =~= pre.tokens.push(
        (crate::store::TokenRowView { subscription_id: id, token: tok }),
    ));
    crate::store::law_issued_token_is_found(pre.tokens, id, tok);
    crate::store::law_mark_confirmed_confirms(
        post.subscriptions,
        id,
        post.subscriptions.len() - 1,
    );
}

} // verus!
