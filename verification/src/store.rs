//! Model of the persistent state shared by the command processor and the
//! two background workers.
//!
//! The service keeps all coordination in one transactional store:
//! `subscriptions` (with their confirmation status), `subscription_tokens`,
//! `newsletter_issues`, the `issue_delivery_queue` outbox and the
//! `idempotency` records. This module models each table as a vector of rows
//! and states the uniqueness invariants the real schema enforces with
//! primary keys and unique indexes.

use vstd::prelude::*;

use crate::http_response::{HttpResponse, HttpResponseView};

verus! {

/// Confirmation status of a subscriber.
#[derive(Clone, Copy, Debug, PartialEq, Eq, Structural)]
pub enum SubscriberStatus {
    /// Subscribed but the confirmation link has not been followed yet.
    PendingConfirmation,
    /// Confirmed: included in every future fan-out.
    Confirmed,
}

/// One row of `subscriptions`.
#[derive(Debug)]
pub struct SubscriberRow {
    pub id: u128,
    pub email: String,
    pub name: String,
    pub subscribed_at: i64,
    pub status: SubscriberStatus,
}

/// Mathematical value of a subscriber row.
#[verifier::ext_equal]
pub struct SubscriberRowView {
    pub id: u128,
    pub email: Seq<char>,
    pub name: Seq<char>,
    pub subscribed_at: i64,
    pub status: SubscriberStatus,
}

impl View for SubscriberRow {
    type V = SubscriberRowView;

    open spec fn view(&self) -> SubscriberRowView {
        SubscriberRowView {
            id: self.id,
            email: self.email@,
            name: self.name@,
            subscribed_at: self.subscribed_at,
            status: self.status,
        }
    }
}

/// One row of `subscription_tokens`.
#[derive(Debug)]
pub struct TokenRow {
    pub subscription_token: String,
    pub subscriber_id: u128,
}

/// Mathematical value of a token row.
#[verifier::ext_equal]
pub struct TokenRowView {
    pub subscription_token: Seq<char>,
    pub subscriber_id: u128,
}

impl View for TokenRow {
    type V = TokenRowView;

    open spec fn view(&self) -> TokenRowView {
        TokenRowView {
            subscription_token: self.subscription_token@,
            subscriber_id: self.subscriber_id,
        }
    }
}

/// One row of `newsletter_issues`.
#[derive(Debug)]
pub struct IssueRow {
    pub newsletter_issue_id: u128,
    pub title: String,
    pub text_content: String,
    pub html_content: String,
    pub published_at: i64,
}

/// Mathematical value of an issue row.
#[verifier::ext_equal]
pub struct IssueRowView {
    pub newsletter_issue_id: u128,
    pub title: Seq<char>,
    pub text_content: Seq<char>,
    pub html_content: Seq<char>,
    pub published_at: i64,
}

impl View for IssueRow {
    type V = IssueRowView;

    open spec fn view(&self) -> IssueRowView {
        IssueRowView {
            newsletter_issue_id: self.newsletter_issue_id,
            title: self.title@,
            text_content: self.text_content@,
            html_content: self.html_content@,
            published_at: self.published_at,
        }
    }
}

impl IssueRow {
    /// A fresh row with the same content.
    pub fn duplicate(&self) -> (r: IssueRow)
        ensures
            r@ == self@,
    {
        IssueRow {
            newsletter_issue_id: self.newsletter_issue_id,
            title: self.title.clone(),
            text_content: self.text_content.clone(),
            html_content: self.html_content.clone(),
            published_at: self.published_at,
        }
    }
}

/// One row of `issue_delivery_queue`: the obligation to deliver one issue
/// to one subscriber.
#[derive(Debug)]
pub struct TaskRow {
    pub newsletter_issue_id: u128,
    pub subscriber_email: String,
}

/// Mathematical value of a delivery task.
#[verifier::ext_equal]
pub struct TaskRowView {
    pub newsletter_issue_id: u128,
    pub subscriber_email: Seq<char>,
}

impl View for TaskRow {
    type V = TaskRowView;

    open spec fn view(&self) -> TaskRowView {
        TaskRowView {
            newsletter_issue_id: self.newsletter_issue_id,
            subscriber_email: self.subscriber_email@,
        }
    }
}

impl TaskRow {
    /// A fresh row with the same content.
    pub fn duplicate(&self) -> (r: TaskRow)
        ensures
            r@ == self@,
    {
        TaskRow {
            newsletter_issue_id: self.newsletter_issue_id,
            subscriber_email: self.subscriber_email.clone(),
        }
    }
}

/// One row of `idempotency`: created when a command starts executing and
/// committed together with its outcome; the composite key is
/// `(user_id, idempotency_key)`.
#[derive(Debug)]
pub struct IdempotencyRow {
    pub user_id: u128,
    pub idempotency_key: String,
    pub created_at: i64,
    pub response: Option<HttpResponse>,
}

/// Mathematical value of an idempotency record.
#[verifier::ext_equal]
pub struct IdempotencyRowView {
    pub user_id: u128,
    pub idempotency_key: Seq<char>,
    pub created_at: i64,
    pub response: Option<HttpResponseView>,
}

impl View for IdempotencyRow {
    type V = IdempotencyRowView;

    open spec fn view(&self) -> IdempotencyRowView {
        IdempotencyRowView {
            user_id: self.user_id,
            idempotency_key: self.idempotency_key@,
            created_at: self.created_at,
            response: match self.response {
                Some(ref r) => Some(r@),
                None => None,
            },
        }
    }
}

impl IdempotencyRow {
    /// A fresh row with the same content.
    pub fn duplicate(&self) -> (r: IdempotencyRow)
        ensures
            r@ =~= self@,
    {
        IdempotencyRow {
            user_id: self.user_id,
            idempotency_key: self.idempotency_key.clone(),
            created_at: self.created_at,
            response: match self.response {
                Some(ref resp) => Some(resp.duplicate()),
                None => None,
            },
        }
    }
}

/// The whole persistent state.
#[derive(Debug)]
pub struct Store {
    pub subscriptions: Vec<SubscriberRow>,
    pub subscription_tokens: Vec<TokenRow>,
    pub newsletter_issues: Vec<IssueRow>,
    pub issue_delivery_queue: Vec<TaskRow>,
    pub idempotency: Vec<IdempotencyRow>,
}

/// Mathematical value of the store.
#[verifier::ext_equal]
pub struct StoreView {
    pub subscriptions: Seq<SubscriberRowView>,
    pub subscription_tokens: Seq<TokenRowView>,
    pub newsletter_issues: Seq<IssueRowView>,
    pub issue_delivery_queue: Seq<TaskRowView>,
    pub idempotency: Seq<IdempotencyRowView>,
}

impl View for Store {
    type V = StoreView;

    open spec fn view(&self) -> StoreView {
        StoreView {
            subscriptions: self.subscriptions@.map_values(|r: SubscriberRow| r@),
            subscription_tokens: self.subscription_tokens@.map_values(|r: TokenRow| r@),
            newsletter_issues: self.newsletter_issues@.map_values(|r: IssueRow| r@),
            issue_delivery_queue: self.issue_delivery_queue@.map_values(|r: TaskRow| r@),
            idempotency: self.idempotency@.map_values(|r: IdempotencyRow| r@),
        }
    }
}

/// Whether an idempotency record belongs to `(user_id, key)`.
pub open spec fn idem_matches(r: IdempotencyRowView, user_id: u128, key: Seq<char>) -> bool {
    r.user_id == user_id && r.idempotency_key == key
}

/// The first idempotency record of `(user_id, key)`, if any. Under
/// [`StoreView::wf`] there is at most one.
pub open spec fn idem_lookup(
    rows: Seq<IdempotencyRowView>,
    user_id: u128,
    key: Seq<char>,
) -> Option<IdempotencyRowView>
    decreases rows.len(),
{
    if rows.len() == 0 {
        None
    } else if idem_matches(rows.first(), user_id, key) {
        Some(rows.first())
    } else {
        idem_lookup(rows.drop_first(), user_id, key)
    }
}

/// The first issue row with the given id, if any. Under [`StoreView::wf`]
/// there is at most one.
pub open spec fn issue_lookup(rows: Seq<IssueRowView>, issue_id: u128) -> Option<IssueRowView>
    decreases rows.len(),
{
    if rows.len() == 0 {
        None
    } else if rows.first().newsletter_issue_id == issue_id {
        Some(rows.first())
    } else {
        issue_lookup(rows.drop_first(), issue_id)
    }
}

/// Whether some issue row carries the given id.
pub open spec fn has_issue(rows: Seq<IssueRowView>, issue_id: u128) -> bool {
    issue_lookup(rows, issue_id) is Some
}

/// Whether some subscriber row carries the given email.
pub open spec fn has_subscriber_email(rows: Seq<SubscriberRowView>, email: Seq<char>) -> bool {
    exists|i: int| 0 <= i < rows.len() && rows[i].email == email
}

/// Whether some subscriber row carries the given id.
pub open spec fn has_subscriber_id(rows: Seq<SubscriberRowView>, id: u128) -> bool {
    exists|i: int| 0 <= i < rows.len() && rows[i].id == id
}

/// The first token row with the given token, if any.
pub open spec fn token_lookup(rows: Seq<TokenRowView>, token: Seq<char>) -> Option<TokenRowView>
    decreases rows.len(),
{
    if rows.len() == 0 {
        None
    } else if rows.first().subscription_token == token {
        Some(rows.first())
    } else {
        token_lookup(rows.drop_first(), token)
    }
}

impl StoreView {
    /// The uniqueness invariants of the schema: primary keys on
    /// subscriptions, issues and tokens, a unique index on subscriber
    /// emails and the composite unique index on `(user_id,
    /// idempotency_key)`.
    pub open spec fn wf(self) -> bool {
        &&& forall|i: int, j: int|
            0 <= i < j < self.idempotency.len() ==> !idem_matches(
                #[trigger] self.idempotency[j],
                (#[trigger] self.idempotency[i]).user_id,
                self.idempotency[i].idempotency_key,
            )
        &&& forall|i: int, j: int|
            0 <= i < j < self.newsletter_issues.len()
                ==> (#[trigger] self.newsletter_issues[i]).newsletter_issue_id != (
            #[trigger] self.newsletter_issues[j]).newsletter_issue_id
        &&& forall|i: int, j: int|
            0 <= i < j < self.subscriptions.len() ==> (#[trigger] self.subscriptions[i]).id != (
            #[trigger] self.subscriptions[j]).id && self.subscriptions[i].email
                != self.subscriptions[j].email
        &&& forall|i: int, j: int|
            0 <= i < j < self.subscription_tokens.len()
                ==> (#[trigger] self.subscription_tokens[i]).subscription_token != (
            #[trigger] self.subscription_tokens[j]).subscription_token
    }
}

impl Store {
    /// An empty store.
    pub fn new() -> (r: Store)
        ensures
            r@ =~= (StoreView {
                subscriptions: Seq::empty(),
                subscription_tokens: Seq::empty(),
                newsletter_issues: Seq::empty(),
                issue_delivery_queue: Seq::empty(),
                idempotency: Seq::empty(),
            }),
            r@.wf(),
    {
        let r = Store {
            subscriptions: Vec::new(),
            subscription_tokens: Vec::new(),
            newsletter_issues: Vec::new(),
            issue_delivery_queue: Vec::new(),
            idempotency: Vec::new(),
        };
        proof {
            assert(r@.subscriptions =~= Seq::<SubscriberRowView>::empty());
            assert(r@.subscription_tokens =~= Seq::<TokenRowView>::empty());
            assert(r@.newsletter_issues =~= Seq::<IssueRowView>::empty());
            assert(r@.issue_delivery_queue =~= Seq::<TaskRowView>::empty());
            assert(r@.idempotency =~= Seq::<IdempotencyRowView>::empty());
        }
        r
    }
}

/// The emails of the confirmed subscribers, in store order: the fan-out
/// set of a publish.
pub open spec fn confirmed_emails(subs: Seq<SubscriberRowView>) -> Seq<Seq<char>>
    decreases subs.len(),
{
    if subs.len() == 0 {
        Seq::empty()
    } else {
        let rest = confirmed_emails(subs.drop_last());
        if subs.last().status == SubscriberStatus::Confirmed {
            rest + seq![subs.last().email]
        } else {
            rest
        }
    }
}

/// The delivery tasks a publish of `issue_id` enqueues: one per confirmed
/// subscriber, in store order.
pub open spec fn delivery_tasks_for(subs: Seq<SubscriberRowView>, issue_id: u128) -> Seq<
    TaskRowView,
> {
    confirmed_emails(subs).map_values(
        |e: Seq<char>| TaskRowView { newsletter_issue_id: issue_id, subscriber_email: e },
    )
}

/// How appending a subscriber changes the fan-out set.
pub proof fn lemma_confirmed_emails_push(subs: Seq<SubscriberRowView>, x: SubscriberRowView)
    ensures
        confirmed_emails(subs.push(x)) =~~= confirmed_emails(subs) + (
        if x.status == SubscriberStatus::Confirmed {
            seq![x.email]
        } else {
            Seq::empty()
        }),
{
    assert(subs.push(x).drop_last() =~= subs);
}

/// Whether `e` is the email of some confirmed subscriber.
pub open spec fn email_of_confirmed(subs: Seq<SubscriberRowView>, e: Seq<char>) -> bool {
    exists|j: int|
        0 <= j < subs.len() && (#[trigger] subs[j]).status == SubscriberStatus::Confirmed
            && subs[j].email == e
}

/// Every email in the fan-out set belongs to a confirmed subscriber.
pub proof fn lemma_confirmed_emails_sound(subs: Seq<SubscriberRowView>)
    ensures
        forall|k: int|
            0 <= k < confirmed_emails(subs).len() ==> email_of_confirmed(
                subs,
                #[trigger] confirmed_emails(subs)[k],
            ),
    decreases subs.len(),
{
    if subs.len() > 0 {
        lemma_confirmed_emails_sound(subs.drop_last());
        let head = subs.drop_last();
        let rest = confirmed_emails(head);
        assert forall|k: int| 0 <= k < confirmed_emails(subs).len() implies email_of_confirmed(
            subs,
            #[trigger] confirmed_emails(subs)[k],
        ) by {
            if k < rest.len() {
                assert(confirmed_emails(subs)[k] == rest[k]);
                assert(email_of_confirmed(head, rest[k]));
                let j0 = choose|j: int|
                    0 <= j < head.len() && (#[trigger] head[j]).status
                        == SubscriberStatus::Confirmed && head[j].email == rest[k];
                assert(subs[j0] == head[j0]);
                assert(subs[j0].status == SubscriberStatus::Confirmed && subs[j0].email
                    == confirmed_emails(subs)[k]);
            } else {
                let j1 = subs.len() - 1;
                assert(subs[j1].status == SubscriberStatus::Confirmed && subs[j1].email
                    == confirmed_emails(subs)[k]);
            }
        }
    }
}

/// Every confirmed subscriber's email is in the fan-out set.
pub proof fn lemma_confirmed_emails_complete(subs: Seq<SubscriberRowView>)
    ensures
        forall|j: int|
            0 <= j < subs.len() && (#[trigger] subs[j]).status == SubscriberStatus::Confirmed
                ==> confirmed_emails(subs).contains(subs[j].email),
    decreases subs.len(),
{
    if subs.len() > 0 {
        lemma_confirmed_emails_complete(subs.drop_last());
        let head = subs.drop_last();
        let rest = confirmed_emails(head);
        assert forall|j: int|
            0 <= j < subs.len() && (#[trigger] subs[j]).status
                == SubscriberStatus::Confirmed implies confirmed_emails(subs).contains(
            subs[j].email,
        ) by {
            if j < subs.len() - 1 {
                assert(head[j] == subs[j]);
                assert(rest.contains(subs[j].email));
                let k0 = choose|k: int| 0 <= k < rest.len() && rest[k] == subs[j].email;
                assert(confirmed_emails(subs)[k0] == subs[j].email);
            } else {
                assert(confirmed_emails(subs)[confirmed_emails(subs).len() - 1] == subs[j].email);
            }
        }
    }
}

/// Whether some committed issue row carries `issue_id`.
pub fn contains_issue_id(rows: &Vec<IssueRow>, issue_id: u128) -> (r: bool)
    ensures
        r == has_issue(rows@.map_values(|x: IssueRow| x@), issue_id),
{
    let ghost rows_view = rows@.map_values(|x: IssueRow| x@);
    let n = rows.len();
    let mut i: usize = 0;
    while i < n
        invariant
            i <= n,
            n == rows@.len(),
            rows_view == rows@.map_values(|x: IssueRow| x@),
            forall|j: int| 0 <= j < i ==> (#[trigger] rows_view[j]).newsletter_issue_id != issue_id,
        decreases n - i,
    {
        if rows[i].newsletter_issue_id == issue_id {
            proof {
                lemma_issue_lookup_at(rows_view, issue_id, i as int);
            }
            return true;
        }
        i = i + 1;
    }
    proof {
        lemma_issue_lookup_none(rows_view, issue_id);
    }
    false
}

/// If the first `i` rows miss `(user_id, key)` and row `i` matches, the
/// lookup returns row `i`.
pub proof fn lemma_idem_lookup_at(
    rows: Seq<IdempotencyRowView>,
    user_id: u128,
    key: Seq<char>,
    i: int,
)
    requires
        0 <= i < rows.len(),
        forall|j: int| 0 <= j < i ==> !idem_matches(#[trigger] rows[j], user_id, key),
        idem_matches(rows[i], user_id, key),
    ensures
        idem_lookup(rows, user_id, key) == Some(rows[i]),
    decreases i,
{
    if i > 0 {
        lemma_idem_lookup_at(rows.drop_first(), user_id, key, i - 1);
    }
}

/// If no row matches `(user_id, key)`, the lookup returns `None`.
pub proof fn lemma_idem_lookup_none(rows: Seq<IdempotencyRowView>, user_id: u128, key: Seq<char>)
    requires
        forall|j: int| 0 <= j < rows.len() ==> !idem_matches(#[trigger] rows[j], user_id, key),
    ensures
        idem_lookup(rows, user_id, key) is None,
    decreases rows.len(),
{
    if rows.len() > 0 {
        lemma_idem_lookup_none(rows.drop_first(), user_id, key);
    }
}

/// A `None` lookup means that no row carries `token`.
pub proof fn lemma_token_lookup_absent(rows: Seq<TokenRowView>, token: Seq<char>)
    requires
        token_lookup(rows, token) is None,
    ensures
        forall|j: int| 0 <= j < rows.len() ==> (#[trigger] rows[j]).subscription_token != token,
    decreases rows.len(),
{
    if rows.len() > 0 {
        lemma_token_lookup_absent(rows.drop_first(), token);
        assert forall|j: int| 0 <= j < rows.len() implies (#[trigger] rows[j]).subscription_token
            != token by {
            if j > 0 {
                assert(rows[j] == rows.drop_first()[j - 1]);
            }
        }
    }
}

/// A `None` lookup means that no row carries `issue_id`.
pub proof fn lemma_issue_lookup_absent(rows: Seq<IssueRowView>, issue_id: u128)
    requires
        issue_lookup(rows, issue_id) is None,
    ensures
        forall|j: int| 0 <= j < rows.len() ==> (#[trigger] rows[j]).newsletter_issue_id != issue_id,
    decreases rows.len(),
{
    if rows.len() > 0 {
        lemma_issue_lookup_absent(rows.drop_first(), issue_id);
        assert forall|j: int| 0 <= j < rows.len() implies (#[trigger] rows[j]).newsletter_issue_id
            != issue_id by {
            if j > 0 {
                assert(rows[j] == rows.drop_first()[j - 1]);
            }
        }
    }
}

/// How appending a row changes the lookup: an earlier match wins; otherwise
/// the new row is found exactly when it matches.
pub proof fn lemma_idem_lookup_push(
    rows: Seq<IdempotencyRowView>,
    user_id: u128,
    key: Seq<char>,
    row: IdempotencyRowView,
)
    ensures
        idem_lookup(rows.push(row), user_id, key) == (if idem_lookup(rows, user_id, key) is Some {
            idem_lookup(rows, user_id, key)
        } else if idem_matches(row, user_id, key) {
            Some(row)
        } else {
            None
        }),
    decreases rows.len(),
{
    if rows.len() == 0 {
        assert(rows.push(row).first() == row);
        assert(rows.push(row).drop_first() =~= Seq::<IdempotencyRowView>::empty());
    } else {
        assert(rows.push(row).first() == rows.first());
        assert(rows.push(row).drop_first() =~= rows.drop_first().push(row));
        lemma_idem_lookup_push(rows.drop_first(), user_id, key, row);
    }
}

/// If the first `i` rows miss `issue_id` and row `i` carries it, the lookup
/// returns row `i`.
pub proof fn lemma_issue_lookup_at(rows: Seq<IssueRowView>, issue_id: u128, i: int)
    requires
        0 <= i < rows.len(),
        forall|j: int| 0 <= j < i ==> (#[trigger] rows[j]).newsletter_issue_id != issue_id,
        rows[i].newsletter_issue_id == issue_id,
    ensures
        issue_lookup(rows, issue_id) == Some(rows[i]),
    decreases i,
{
    if i > 0 {
        lemma_issue_lookup_at(rows.drop_first(), issue_id, i - 1);
    }
}

/// If no row carries `issue_id`, the lookup returns `None`.
pub proof fn lemma_issue_lookup_none(rows: Seq<IssueRowView>, issue_id: u128)
    requires
        forall|j: int| 0 <= j < rows.len() ==> (#[trigger] rows[j]).newsletter_issue_id != issue_id,
    ensures
        issue_lookup(rows, issue_id) is None,
    decreases rows.len(),
{
    if rows.len() > 0 {
        lemma_issue_lookup_none(rows.drop_first(), issue_id);
    }
}

/// If the first `i` rows miss `token` and row `i` carries it, the lookup
/// returns row `i`.
pub proof fn lemma_token_lookup_at(rows: Seq<TokenRowView>, token: Seq<char>, i: int)
    requires
        0 <= i < rows.len(),
        forall|j: int| 0 <= j < i ==> (#[trigger] rows[j]).subscription_token != token,
        rows[i].subscription_token == token,
    ensures
        token_lookup(rows, token) == Some(rows[i]),
    decreases i,
{
    if i > 0 {
        lemma_token_lookup_at(rows.drop_first(), token, i - 1);
    }
}

/// If no row carries `token`, the lookup returns `None`.
pub proof fn lemma_token_lookup_none(rows: Seq<TokenRowView>, token: Seq<char>)
    requires
        forall|j: int| 0 <= j < rows.len() ==> (#[trigger] rows[j]).subscription_token != token,
    ensures
        token_lookup(rows, token) is None,
    decreases rows.len(),
{
    if rows.len() > 0 {
        lemma_token_lookup_none(rows.drop_first(), token);
    }
}

} // verus!
