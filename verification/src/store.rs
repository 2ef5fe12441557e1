use vstd::prelude::*;

use crate::domain::NewSubscriber;
use crate::routes::SubscriberId;
use crate::routes::SubscriptionToken;

verus! {

/// The lifecycle status of a subscriber. The only permitted transition is
/// `PendingVerification` to `Confirmed`; there is no way back.
#[derive(Clone, Copy, Debug, PartialEq, Eq, Structural)]
pub enum SubscriptionStatus {
    PendingVerification,
    Confirmed,
}

impl SubscriptionStatus {
    /// The status exactly as it is persisted.
    pub fn as_str(&self) -> (r: &str)
        ensures
            self is PendingVerification ==> r@ == "pending_verification"@,
            self is Confirmed ==> r@ == "confirmed"@,
    {
        match self {
            SubscriptionStatus::PendingVerification => "pending_verification",
            SubscriptionStatus::Confirmed => "confirmed",
        }
    }
}

/// A storage failure. The transaction it arose in was aborted, so none of
/// its writes are visible.
#[derive(Debug, PartialEq, Eq, Structural)]
pub struct PersistenceError;

/// A token lookup that matched no row. Distinct from a storage failure.
#[derive(Debug, PartialEq, Eq, Structural)]
pub struct NotFoundError;

/// One subscriber row, as persisted.
pub struct SubscriptionRecord {
    pub id: SubscriberId,
    pub name: String,
    pub email: String,
    pub subscribed_at: i64,
    pub status: SubscriptionStatus,
}

/// The mathematical value of a subscriber row.
pub struct SubscriptionRowView {
    pub id: u128,
    pub name: Seq<char>,
    pub email: Seq<char>,
    pub subscribed_at: i64,
    pub status: SubscriptionStatus,
}

impl View for SubscriptionRecord {
    type V = SubscriptionRowView;

    open spec fn view(&self) -> SubscriptionRowView {
        SubscriptionRowView {
            id: self.id@,
            name: self.name@,
            email: self.email@,
            subscribed_at: self.subscribed_at,
            status: self.status,
        }
    }
}

/// One token row: a token and the subscriber it activates.
pub struct TokenRecord {
    pub subscription_id: SubscriberId,
    pub token: String,
}

/// The mathematical value of a token row.
pub struct TokenRowView {
    pub subscription_id: u128,
    pub token: Seq<char>,
}

impl View for TokenRecord {
    type V = TokenRowView;

    open spec fn view(&self) -> TokenRowView {
        TokenRowView { subscription_id: self.subscription_id@, token: self.token@ }
    }
}

/// Some subscriber row carries the given id.
pub open spec fn has_subscriber_id(subs: Seq<SubscriptionRowView>, id: u128) -> bool {
    exists|i: int| 0 <= i < subs.len() && subs[i].id == id
}

/// Some token row carries the given token string.
pub open spec fn has_token(tokens: Seq<TokenRowView>, tok: Seq<char>) -> bool {
    exists|i: int| 0 <= i < tokens.len() && tokens[i].token == tok
}

/// Some token row activates the given subscriber.
pub open spec fn has_token_for(tokens: Seq<TokenRowView>, id: u128) -> bool {
    exists|i: int| 0 <= i < tokens.len() && tokens[i].subscription_id == id
}

/// The subscriber id of the first token row carrying the given token, or
/// `None` when no row does.
pub open spec fn spec_find_token(tokens: Seq<TokenRowView>, tok: Seq<char>) -> Option<u128>
    decreases tokens.len(),
{
    if tokens.len() == 0 {
        None
    } else if tokens[0].token == tok {
        Some(tokens[0].subscription_id)
    } else {
        spec_find_token(tokens.drop_first(), tok)
    }
}

/// The row with its status set to `Confirmed` when it carries the given id,
/// and unchanged otherwise.
pub open spec fn confirm_row(r: SubscriptionRowView, id: u128) -> SubscriptionRowView {
    if r.id == id {
        SubscriptionRowView {
            id: r.id,
            name: r.name,
            email: r.email,
            subscribed_at: r.subscribed_at,
            status: SubscriptionStatus::Confirmed,
        }
    } else {
        r
    }
}

/// The rows after an unconditional status update to `Confirmed` of every row
/// carrying the given id.
pub open spec fn spec_mark_confirmed(subs: Seq<SubscriptionRowView>, id: u128) -> Seq<
    SubscriptionRowView,
> {
    subs.map(|i: int, r: SubscriptionRowView| confirm_row(r, id))
}

/// The mathematical value of the whole store: the two tables.
pub struct StoreView {
    pub subscriptions: Seq<SubscriptionRowView>,
    pub tokens: Seq<TokenRowView>,
}

impl StoreView {
    /// Well-formedness of the persisted state: subscriber ids are unique,
    /// every token row points at an existing subscriber, and every subscriber
    /// has a token row — the two inserts being atomic, neither kind of orphan
    /// can arise.
    pub open spec fn wf(self) -> bool {
        &&& forall|i: int, j: int|
            0 <= i < j < self.subscriptions.len() ==> self.subscriptions[i].id
                != self.subscriptions[j].id
        &&& forall|i: int|
            0 <= i < self.tokens.len() ==> has_subscriber_id(
                self.subscriptions,
                #[trigger] self.tokens[i].subscription_id,
            )
        &&& forall|i: int|
            0 <= i < self.subscriptions.len() ==> has_token_for(
                self.tokens,
                #[trigger] self.subscriptions[i].id,
            )
    }
}

/// The persistence component: the subscriptions table and the token table,
/// written together atomically.
pub struct SubscriptionStore {
    subscriptions: Vec<SubscriptionRecord>,
    tokens: Vec<TokenRecord>,
}

impl View for SubscriptionStore {
    type V = StoreView;

    closed spec fn view(&self) -> StoreView {
        StoreView {
            subscriptions: self.subscriptions@.map(|i: int, r: SubscriptionRecord| r@),
            tokens: self.tokens@.map(|i: int, r: TokenRecord| r@),
        }
    }
}

impl SubscriptionStore {
    /// An empty store.
    pub fn new() -> (s: SubscriptionStore)
        ensures
            s@.subscriptions.len() == 0,
            s@.tokens.len() == 0,
            s@.wf(),
    {
        SubscriptionStore { subscriptions: Vec::new(), tokens: Vec::new() }
    }

    /// Whether some subscriber row carries the given id.
    pub fn has_subscriber(&self, id: SubscriberId) -> (r: bool)
        ensures
            r == has_subscriber_id(self@.subscriptions, id@),
    {
        let n = self.subscriptions.len();
        let mut i: usize = 0;
        while i < n
            invariant
                i <= n,
                n == self@.subscriptions.len(),
                forall|j: int| 0 <= j < i ==> #[trigger] self@.subscriptions[j].id != id@,
            decreases n - i,
        {
            if self.subscriptions[i].id.0 == id.0 {
                proof {
                    assert(self@.subscriptions[i as int].id == id@);
                }
                return true;
            }
            i += 1;
        }
        false
    }

    /// Inside one atomic unit, inserts the subscriber row (with the given id,
    /// status `PendingVerification` and the given UTC timestamp) and the
    /// token row referencing that id. Both become visible together, or, when
    /// the id collides with an existing row, neither does and the unit is
    /// aborted with a `PersistenceError`. The caller draws the id; the store
    /// enforces its uniqueness.
    pub fn create_pending_subscription(
        &mut self,
        subscriber: &NewSubscriber,
        id: SubscriberId,
        token: &SubscriptionToken,
        subscribed_at: i64,
    ) -> (r: Result<SubscriberId, PersistenceError>)
        ensures
            r is Ok <==> !has_subscriber_id(old(self)@.subscriptions, id@),
            r matches Ok(rid) ==> rid == id,
            r is Ok ==> final(self)@.subscriptions == old(self)@.subscriptions.push(
                (SubscriptionRowView {
                    id: id@,
                    name: subscriber.name@,
                    email: subscriber.email@,
                    subscribed_at: subscribed_at,
                    status: SubscriptionStatus::PendingVerification,
                }),
            ) && final(self)@.tokens == old(self)@.tokens.push(
                (TokenRowView { subscription_id: id@, token: token@ }),
            ),
            r is Err ==> final(self)@ == old(self)@,
            old(self)@.wf() ==> final(self)@.wf(),
    {
        if self.has_subscriber(id) {
            return Err(PersistenceError);
        }
        let row = SubscriptionRecord {
            id,
            name: clone_str(subscriber.name.as_ref()),
            email: clone_str(subscriber.email.as_ref()),
            subscribed_at,
            status: SubscriptionStatus::PendingVerification,
        };
        let token_row = TokenRecord { subscription_id: id, token: clone_str(token.as_ref()) };
        self.subscriptions.push(row);
        self.tokens.push(token_row);
        proof {
            if old(self)@.wf() {
                self.lemma_create_preserves_wf(old(self)@, id@);
            }
        }
        Ok(id)
    }

    proof fn lemma_create_preserves_wf(&self, pre: StoreView, id: u128)
        requires
            pre.wf(),
            !has_subscriber_id(pre.subscriptions, id),
            self@.subscriptions.len() == pre.subscriptions.len() + 1,
            self@.tokens.len() == pre.tokens.len() + 1,
            forall|i: int|
                0 <= i < pre.subscriptions.len() ==> self@.subscriptions[i]
                    == pre.subscriptions[i],
            forall|i: int| 0 <= i < pre.tokens.len() ==> self@.tokens[i] == pre.tokens[i],
            self@.subscriptions[pre.subscriptions.len() as int].id == id,
            self@.tokens[pre.tokens.len() as int].subscription_id == id,
        ensures
            self@.wf(),
    {
        let subs = self@.subscriptions;
        let toks = self@.tokens;
        assert forall|i: int, j: int| 0 <= i < j < subs.len() implies subs[i].id != subs[j].id by {
            if j < pre.subscriptions.len() {
                assert(pre.subscriptions[i].id != pre.subscriptions[j].id);
            } else {
                assert(!(pre.subscriptions[i].id == id));
            }
        }
        assert forall|i: int| 0 <= i < toks.len() implies has_subscriber_id(
            subs,
            #[trigger] toks[i].subscription_id,
        ) by {
            if i < pre.tokens.len() {
                let w = choose|w: int|
                    0 <= w < pre.subscriptions.len() && pre.subscriptions[w].id
                        == pre.tokens[i].subscription_id;
                assert(subs[w].id == toks[i].subscription_id);
            } else {
                assert(subs[pre.subscriptions.len() as int].id == toks[i].subscription_id);
            }
        }
        assert forall|i: int| 0 <= i < subs.len() implies has_token_for(
            toks,
            #[trigger] subs[i].id,
        ) by {
            if i < pre.subscriptions.len() {
                let w = choose|w: int|
                    0 <= w < pre.tokens.len() && pre.tokens[w].subscription_id
                        == pre.subscriptions[i].id;
                assert(toks[w].subscription_id == subs[i].id);
            } else {
                assert(toks[pre.tokens.len() as int].subscription_id == subs[i].id);
            }
        }
    }

    /// Exact-match lookup of a token. Zero matching rows is a
    /// `NotFoundError`, not a persistence failure; with several matching rows
    /// (tokens are not kept unique) the earliest inserted one answers.
    pub fn find_subscriber_id_by_token(&self, token: &str) -> (r: Result<
        SubscriberId,
        NotFoundError,
    >)
        ensures
            r matches Ok(id) ==> spec_find_token(self@.tokens, token@) == Some(id@),
            r is Err <==> spec_find_token(self@.tokens, token@) is None,
    {
        let n = self.tokens.len();
        let mut i: usize = 0;
        proof {
            assert(self@.tokens.skip(0) =~= self@.tokens);
        }
        while i < n
            invariant
                i <= n,
                n == self@.tokens.len(),
                spec_find_token(self@.tokens, token@) == spec_find_token(
                    self@.tokens.skip(i as int),
                    token@,
                ),
                forall|j: int| 0 <= j < i ==> #[trigger] self@.tokens[j].token != token@,
            decreases n - i,
        {
            proof {
                assert(self@.tokens.skip(i as int)[0] == self@.tokens[i as int]);
                assert(self@.tokens.skip(i as int).drop_first() =~= self@.tokens.skip(i + 1));
            }
            if str_eq(self.tokens[i].token.as_str(), token) {
                return Ok(self.tokens[i].subscription_id);
            }
            i += 1;
        }
        proof {
            assert(self@.tokens.skip(n as int) =~= Seq::<TokenRowView>::empty());
        }
        Err(NotFoundError)
    }

    /// Unconditional status update: every row carrying the id becomes
    /// `Confirmed`. Re-applying it to an already confirmed subscriber, or
    /// applying it to an unknown id, succeeds silently with no change — the
    /// update is idempotent by construction, not by an explicit guard.
    pub fn mark_confirmed(&mut self, id: SubscriberId) -> (r: Result<(), PersistenceError>)
        ensures
            r is Ok,
            final(self)@.subscriptions == spec_mark_confirmed(old(self)@.subscriptions, id@),
            final(self)@.tokens == old(self)@.tokens,
            old(self)@.wf() ==> final(self)@.wf(),
    {
        let n = self.subscriptions.len();
        let mut i: usize = 0;
        while i < n
            invariant
                i <= n,
                n == self@.subscriptions.len(),
                self@.subscriptions.len() == old(self)@.subscriptions.len(),
                self@.tokens == old(self)@.tokens,
                forall|j: int|
                    0 <= j < i ==> self@.subscriptions[j] == confirm_row(
                        #[trigger] old(self)@.subscriptions[j],
                        id@,
                    ),
                forall|j: int|
                    i <= j < n ==> self@.subscriptions[j] == #[trigger] old(
                        self,
                    )@.subscriptions[j],
            decreases n - i,
        {
            if self.subscriptions[i].id.0 == id.0 {
                self.subscriptions[i].status = SubscriptionStatus::Confirmed;
            }
            i += 1;
        }
        proof {
            assert(self@.subscriptions =~= spec_mark_confirmed(old(self)@.subscriptions, id@));
            if old(self)@.wf() {
                lemma_mark_confirmed_preserves_wf(old(self)@, self@, id@);
            }
        }
        Ok(())
    }

    /// The number of subscriber rows.
    pub fn subscription_count(&self) -> (n: usize)
        ensures
            n == self@.subscriptions.len(),
    {
        self.subscriptions.len()
    }

    /// The number of token rows.
    pub fn token_count(&self) -> (n: usize)
        ensures
            n == self@.tokens.len(),
    {
        self.tokens.len()
    }

    /// Read-only access to one subscriber row.
    pub fn subscription_at(&self, i: usize) -> (r: &SubscriptionRecord)
        requires
            i < self@.subscriptions.len(),
        ensures
            r@ == self@.subscriptions[i as int],
    {
        &self.subscriptions[i]
    }

    /// Read-only access to one token row.
    pub fn token_at(&self, i: usize) -> (r: &TokenRecord)
        requires
            i < self@.tokens.len(),
        ensures
            r@ == self@.tokens[i as int],
    {
        &self.tokens[i]
    }
}

/// `str::to_owned`, under a short name.
fn clone_str(s: &str) -> (r: String)
    ensures
        r@ == s@,
{
    s.to_owned()
}

/// `str` equality, with the result tied to the views.
fn str_eq(a: &str, b: &str) -> (r: bool)
    ensures
        r == (a@ == b@),
{
    let a_owned: String = a.to_owned();
    a_owned.eq(&b.to_owned())
}

proof fn lemma_mark_confirmed_preserves_wf(pre: StoreView, post: StoreView, id: u128)
    requires
        pre.wf(),
        post.subscriptions == spec_mark_confirmed(pre.subscriptions, id),
        post.tokens == pre.tokens,
    ensures
        post.wf(),
{
    assert(post.subscriptions.len() == pre.subscriptions.len());
    assert forall|i: int| 0 <= i < post.subscriptions.len() implies #[trigger] post.subscriptions[i].id
        == pre.subscriptions[i].id by {
        assert(post.subscriptions[i] == confirm_row(pre.subscriptions[i], id));
    }
    assert forall|i: int| 0 <= i < post.tokens.len() implies has_subscriber_id(
        post.subscriptions,
        #[trigger] post.tokens[i].subscription_id,
    ) by {
        let w = choose|w: int|
            0 <= w < pre.subscriptions.len() && pre.subscriptions[w].id
                == pre.tokens[i].subscription_id;
        assert(post.subscriptions[w].id == post.tokens[i].subscription_id);
    }
    assert forall|i: int| 0 <= i < post.subscriptions.len() implies has_token_for(
        post.tokens,
        #[trigger] post.subscriptions[i].id,
    ) by {
        assert(has_token_for(pre.tokens, pre.subscriptions[i].id));
    }
}

/// Law: the status update is monotone — a subscriber already `Confirmed`
/// stays `Confirmed` under any `mark_confirmed`, whatever id it targets;
/// there is no path back to `PendingVerification`.
pub proof fn law_confirm_is_monotone(subs: Seq<SubscriptionRowView>, id: u128, i: int)
    requires
        0 <= i < subs.len(),
        subs[i].status == SubscriptionStatus::Confirmed,
    ensures
        spec_mark_confirmed(subs, id)[i].status == SubscriptionStatus::Confirmed,
{
}

/// Law: a token row just issued for a subscriber is found by the lookup,
/// provided no equal token was already present — the lookup answers with the
/// earliest match, so an earlier equal token would win instead.
pub proof fn law_issued_token_is_found(tokens: Seq<TokenRowView>, id: u128, tok: Seq<char>)
    requires
        !has_token(tokens, tok),
    ensures
        spec_find_token(tokens.push((TokenRowView { subscription_id: id, token: tok })), tok)
            == Some(id),
    decreases tokens.len(),
{
    let pushed = tokens.push(TokenRowView { subscription_id: id, token: tok });
    if tokens.len() == 0 {
        assert(pushed[0].token == tok);
    } else {
        assert(tokens[0].token != tok);
        assert(!has_token(tokens.drop_first(), tok)) by {
            assert forall|i: int|
                0 <= i < tokens.drop_first().len() implies #[trigger] tokens.drop_first()[i].token
                != tok by {
                assert(tokens.drop_first()[i] == tokens[i + 1]);
            }
        }
        law_issued_token_is_found(tokens.drop_first(), id, tok);
        assert(tokens.drop_first().push(TokenRowView { subscription_id: id, token: tok })
            =~= pushed.drop_first());
    }
}

/// Law: marking a present subscriber confirmed indeed leaves its row
/// `Confirmed`.
pub proof fn law_mark_confirmed_confirms(subs: Seq<SubscriptionRowView>, id: u128, i: int)
    requires
        0 <= i < subs.len(),
        subs[i].id == id,
    ensures
        spec_mark_confirmed(subs, id)[i].status == SubscriptionStatus::Confirmed,
{
}

} // verus!
