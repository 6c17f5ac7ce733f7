//! The publish-newsletter command.
//!
//! One call turns a validated form into a committed newsletter issue plus
//! one delivery task per confirmed subscriber, or replays the cached
//! outcome of an earlier execution with the same idempotency key. The
//! side-effecting body runs at most once per `(user, key)`: all writes go
//! through one [`CommandTransaction`] and become durable only at its
//! single commit point.

use vstd::prelude::*;

use crate::errors::{e400, e500, ResponseError};
use crate::http_response::{HttpResponse, HttpResponseView, redirect_view};
use crate::idempotency::{
    save_response, try_processing, CommandTransaction, CommandTransactionView, IdempotencyError,
    NextAction, TransactionError,
};
use crate::idempotency_key::{valid_key, IdempotencyKey, IdempotencyKeyError};
use crate::ids::generate_row_id;
use crate::store::{
    contains_issue_id, delivery_tasks_for, has_issue, idem_lookup, lemma_confirmed_emails_push,
    IdempotencyRowView, IssueRow, IssueRowView, Store, StoreView, SubscriberStatus, TaskRow,
    TaskRowView,
};

verus! {

/// Form fields shorter than this many characters are rejected.
pub const MIN_CONTENT_LEN: usize = 5;

/// The publish form: title, both content renderings, and the client's
/// idempotency key.
#[derive(Debug, Clone)]
pub struct NewsletterData {
    pub title: String,
    pub text_content: String,
    pub html_content: String,
    pub idempotency_key: String,
}

/// Mathematical value of the publish form.
#[verifier::ext_equal]
pub struct NewsletterDataView {
    pub title: Seq<char>,
    pub text_content: Seq<char>,
    pub html_content: Seq<char>,
    pub idempotency_key: Seq<char>,
}

impl View for NewsletterData {
    type V = NewsletterDataView;

    open spec fn view(&self) -> NewsletterDataView {
        NewsletterDataView {
            title: self.title@,
            text_content: self.text_content@,
            html_content: self.html_content@,
            idempotency_key: self.idempotency_key@,
        }
    }
}

/// Whether the content fields of the form are long enough. The idempotency
/// key is validated separately, by [`IdempotencyKey::try_from`].
pub open spec fn valid_newsletter_data(d: NewsletterDataView) -> bool {
    d.title.len() >= MIN_CONTENT_LEN && d.text_content.len() >= MIN_CONTENT_LEN
        && d.html_content.len() >= MIN_CONTENT_LEN
}

impl NewsletterData {
    pub fn new(title: String, text_content: String, html_content: String, idempotency_key: String) -> (r:
        NewsletterData)
        ensures
            r@ == (NewsletterDataView {
                title: title@,
                text_content: text_content@,
                html_content: html_content@,
                idempotency_key: idempotency_key@,
            }),
    {
        NewsletterData { title, text_content, html_content, idempotency_key }
    }

    /// Whether the content fields pass the length check.
    pub fn validate(&self) -> (r: bool)
        ensures
            r == valid_newsletter_data(self@),
    {
        self.title.as_str().unicode_len() >= MIN_CONTENT_LEN
            && self.text_content.as_str().unicode_len() >= MIN_CONTENT_LEN
            && self.html_content.as_str().unicode_len() >= MIN_CONTENT_LEN
    }
}

/// The outcome every successful publish returns and caches: back to the
/// form, with the acceptance notice.
pub open spec fn publish_success_view() -> HttpResponseView {
    redirect_view(
        "/admin/newsletter"@,
        "flash-info"@,
        "The newsletter issue has been accepted - emails will go out shortly."@,
    )
}

/// The store after a fresh publish committed: the issue row, its fan-out
/// into the delivery queue, and the idempotency record carrying the cached
/// outcome, all appended together.
pub open spec fn published_state(
    pre: StoreView,
    user_id: u128,
    d: NewsletterDataView,
    issue_id: u128,
    now: i64,
    outcome: HttpResponseView,
) -> StoreView {
    StoreView {
        subscriptions: pre.subscriptions,
        subscription_tokens: pre.subscription_tokens,
        newsletter_issues: pre.newsletter_issues.push(
            IssueRowView {
                newsletter_issue_id: issue_id,
                title: d.title,
                text_content: d.text_content,
                html_content: d.html_content,
                published_at: now,
            },
        ),
        issue_delivery_queue: pre.issue_delivery_queue + delivery_tasks_for(
            pre.subscriptions,
            issue_id,
        ),
        idempotency: pre.idempotency.push(
            IdempotencyRowView {
                user_id,
                idempotency_key: d.idempotency_key,
                created_at: now,
                response: Some(outcome),
            },
        ),
    }
}

/// Buffers the newsletter issue row under the given fresh id.
///
/// Succeeds exactly when no committed issue carries `issue_id`; a
/// collision fails the transaction, as the primary key of the real table
/// would.
pub fn insert_newsletter_issue_with_id(
    txn: &mut CommandTransaction,
    store: &Store,
    issue_id: u128,
    title: &str,
    text_content: &str,
    html_content: &str,
    now: i64,
) -> (r: Result<(), TransactionError>)
    requires
        old(txn)@.issue is None,
    ensures
        match r {
            Ok(()) => {
                &&& !has_issue(store@.newsletter_issues, issue_id)
                &&& final(txn)@ =~= (CommandTransactionView {
                    issue: Some(
                        IssueRowView {
                            newsletter_issue_id: issue_id,
                            title: title@,
                            text_content: text_content@,
                            html_content: html_content@,
                            published_at: now,
                        },
                    ),
                    ..old(txn)@
                })
            },
            Err(TransactionError::DuplicateIssueId) => {
                &&& has_issue(store@.newsletter_issues, issue_id)
                &&& *final(txn) == *old(txn)
            },
            Err(TransactionError::DuplicateIdempotencyKey) => false,
        },
{
    if contains_issue_id(&store.newsletter_issues, issue_id) {
        return Err(TransactionError::DuplicateIssueId);
    }
    txn.issue = Some(
        IssueRow {
            newsletter_issue_id: issue_id,
            title: title.to_owned(),
            text_content: text_content.to_owned(),
            html_content: html_content.to_owned(),
            published_at: now,
        },
    );
    Ok(())
}

/// Buffers the newsletter issue row under a freshly generated id and
/// returns it.
///
/// The id is random: on the off chance that it collides with a committed
/// issue the transaction fails, and the store — which the buffered row has
/// not touched — shows at least one issue.
pub fn insert_newsletter_issue(
    txn: &mut CommandTransaction,
    store: &Store,
    title: &str,
    text_content: &str,
    html_content: &str,
    now: i64,
) -> (r: Result<u128, TransactionError>)
    requires
        old(txn)@.issue is None,
    ensures
        match r {
            Ok(issue_id) => {
                &&& !has_issue(store@.newsletter_issues, issue_id)
                &&& final(txn)@ =~= (CommandTransactionView {
                    issue: Some(
                        IssueRowView {
                            newsletter_issue_id: issue_id,
                            title: title@,
                            text_content: text_content@,
                            html_content: html_content@,
                            published_at: now,
                        },
                    ),
                    ..old(txn)@
                })
            },
            Err(_) => {
                &&& *final(txn) == *old(txn)
                &&& store@.newsletter_issues.len() > 0
            },
        },
{
    let issue_id = generate_row_id();
    match insert_newsletter_issue_with_id(txn, store, issue_id, title, text_content, html_content, now) {
        Ok(()) => Ok(issue_id),
        Err(e) => Err(e),
    }
}

/// Buffers one delivery task per confirmed subscriber for the buffered
/// issue — the set-based insert of the outbox pattern.
pub fn enqueue_delivery_tasks(txn: &mut CommandTransaction, store: &Store, newsletter_issue_id: u128)
    requires
        old(txn)@.issue matches Some(i) && i.newsletter_issue_id == newsletter_issue_id,
        old(txn)@.tasks.len() == 0,
    ensures
        final(txn)@ =~= (CommandTransactionView {
            tasks: delivery_tasks_for(store@.subscriptions, newsletter_issue_id),
            ..old(txn)@
        }),
        final(txn)@.wf(),
{
    let ghost subs = store@.subscriptions;
    let n = store.subscriptions.len();
    let mut i: usize = 0;
    proof {
        assert(txn@.tasks =~= delivery_tasks_for(subs.take(0), newsletter_issue_id));
    }
    while i < n
        invariant
            i <= n,
            n == subs.len(),
            subs == store@.subscriptions,
            txn@.tasks =~= delivery_tasks_for(subs.take(i as int), newsletter_issue_id),
            txn@.user_id == old(txn)@.user_id,
            txn@.idempotency_key == old(txn)@.idempotency_key,
            txn@.created_at == old(txn)@.created_at,
            txn@.issue == old(txn)@.issue,
        decreases n - i,
    {
        let sub = &store.subscriptions[i];
        let ghost tasks_before = txn@.tasks;
        match sub.status {
            SubscriberStatus::Confirmed => {
                txn.tasks.push(
                    TaskRow {
                        newsletter_issue_id,
                        subscriber_email: sub.email.clone(),
                    },
                );
                proof {
                    assert(txn@.tasks =~= tasks_before.push(
                        TaskRowView {
                            newsletter_issue_id,
                            subscriber_email: subs[i as int].email,
                        },
                    ));
                }
            },
            SubscriberStatus::PendingConfirmation => {},
        }
        proof {
            assert(subs.take(i as int + 1) =~= subs.take(i as int).push(subs[i as int]));
            lemma_confirmed_emails_push(subs.take(i as int), subs[i as int]);
            assert(txn@.tasks =~= delivery_tasks_for(
                subs.take(i as int + 1),
                newsletter_issue_id,
            ));
        }
        i = i + 1;
    }
    proof {
        assert(subs.take(n as int) =~= subs);
    }
}

/// The publish command, fully determined by the issue id the caller
/// supplies.
///
/// In one atomic step against the store: rejects a form whose content
/// fields are too short with `400`, before any transaction work;
/// rejects a malformed idempotency key with `400`; replays the cached
/// outcome of a committed execution of the same `(user, key)` unchanged;
/// otherwise — given a fresh `issue_id` — commits the issue, its fan-out
/// and the cached outcome together and returns that outcome. A taken
/// `issue_id`, or a record missing its outcome, fails with `500` and
/// leaves the store untouched.
pub fn publish_newsletter_with_id(
    store: &mut Store,
    user_id: u128,
    data: &NewsletterData,
    issue_id: u128,
    now: i64,
) -> (r: Result<HttpResponse, ResponseError>)
    ensures
        ({
            let pre = old(store)@;
            let found = idem_lookup(pre.idempotency, user_id, data@.idempotency_key);
            match r {
                Ok(resp) => {
                    ||| {
                        &&& valid_newsletter_data(data@)
                        &&& valid_key(data@.idempotency_key)
                        &&& found matches Some(row)
                        &&& row.response matches Some(saved)
                        &&& resp@ =~= saved
                        &&& *final(store) == *old(store)
                    }
                    ||| {
                        &&& valid_newsletter_data(data@)
                        &&& valid_key(data@.idempotency_key)
                        &&& found is None
                        &&& !has_issue(pre.newsletter_issues, issue_id)
                        &&& final(store)@ =~= published_state(
                            pre,
                            user_id,
                            data@,
                            issue_id,
                            now,
                            publish_success_view(),
                        )
                        &&& resp@ =~= publish_success_view()
                        &&& pre.wf() ==> final(store)@.wf()
                    }
                },
                Err(e) => {
                    &&& *final(store) == *old(store)
                    &&& {
                        ||| {
                            &&& !valid_newsletter_data(data@)
                            &&& e@.status_code == 400
                            &&& e@.internal_error
                                == "Part of the form body has less than 5 characters"@
                        }
                        ||| {
                            &&& valid_newsletter_data(data@)
                            &&& !valid_key(data@.idempotency_key)
                            &&& e@.status_code == 400
                        }
                        ||| {
                            &&& valid_newsletter_data(data@)
                            &&& valid_key(data@.idempotency_key)
                            &&& found matches Some(row)
                            &&& row.response is None
                            &&& e@.status_code == 500
                        }
                        ||| {
                            &&& valid_newsletter_data(data@)
                            &&& valid_key(data@.idempotency_key)
                            &&& found is None
                            &&& has_issue(pre.newsletter_issues, issue_id)
                            &&& e@.status_code == 500
                        }
                    }
                },
            }
        }),
{
    if !data.validate() {
        return Err(e400(String::from_str("Part of the form body has less than 5 characters")));
    }

    let idempotency_key = match IdempotencyKey::try_from(data.idempotency_key.clone()) {
        Ok(k) => k,
        Err(IdempotencyKeyError::Empty) => {
            return Err(e400(String::from_str("The idempotency key cannot be empty")));
        },
        Err(IdempotencyKeyError::TooLong) => {
            return Err(
                e400(String::from_str("The idempotency key must be shorter than 50 characters")),
            );
        },
    };

    let mut txn = match try_processing(store, &idempotency_key, user_id, now) {
        Err(IdempotencyError::MissingSavedResponse) => {
            return Err(e500(String::from_str("We expected a saved response, we didn't find it")));
        },
        Ok(NextAction::ReturnSavedResponse(saved)) => {
            return Ok(saved);
        },
        Ok(NextAction::StartProcessing(txn)) => txn,
    };

    match insert_newsletter_issue_with_id(
        &mut txn,
        store,
        issue_id,
        data.title.as_str(),
        data.text_content.as_str(),
        data.html_content.as_str(),
        now,
    ) {
        Err(_) => {
            return Err(e500(String::from_str("Failed to store newsletter issue details")));
        },
        Ok(()) => {},
    }

    enqueue_delivery_tasks(&mut txn, store, issue_id);

    let response = HttpResponse::redirect_with_flash(
        "/admin/newsletter",
        "flash-info",
        "The newsletter issue has been accepted - emails will go out shortly.",
    );

    match save_response(store, txn, response) {
        Ok(resp) => {
            proof {
                assert(final(store)@ =~= published_state(
                    old(store)@,
                    user_id,
                    data@,
                    issue_id,
                    now,
                    publish_success_view(),
                ));
            }
            Ok(resp)
        },
        Err(_) => {
            proof {
                assert(false);
            }
            Err(e500(String::new()))
        },
    }
}

/// The publish command: [`publish_newsletter_with_id`] under a freshly
/// generated issue id.
///
/// Success is owed on a valid form with an unclaimed valid key unless the
/// generated id collides with a committed issue — which requires the issue
/// table to be non-empty and fails with `500`, leaving the store
/// untouched, so a retry is safe.
pub fn publish_newsletter(store: &mut Store, user_id: u128, data: &NewsletterData, now: i64) -> (r:
    Result<HttpResponse, ResponseError>)
    ensures
        ({
            let pre = old(store)@;
            let found = idem_lookup(pre.idempotency, user_id, data@.idempotency_key);
            match r {
                Ok(resp) => {
                    ||| {
                        &&& valid_newsletter_data(data@)
                        &&& valid_key(data@.idempotency_key)
                        &&& found matches Some(row)
                        &&& row.response matches Some(saved)
                        &&& resp@ =~= saved
                        &&& *final(store) == *old(store)
                    }
                    ||| {
                        &&& valid_newsletter_data(data@)
                        &&& valid_key(data@.idempotency_key)
                        &&& found is None
                        &&& exists|issue_id: u128|
                            !has_issue(pre.newsletter_issues, issue_id) && final(store)@
                                =~= #[trigger] published_state(
                                pre,
                                user_id,
                                data@,
                                issue_id,
                                now,
                                publish_success_view(),
                            )
                        &&& resp@ =~= publish_success_view()
                        &&& pre.wf() ==> final(store)@.wf()
                    }
                },
                Err(e) => {
                    &&& *final(store) == *old(store)
                    &&& {
                        ||| {
                            &&& !valid_newsletter_data(data@)
                            &&& e@.status_code == 400
                            &&& e@.internal_error
                                == "Part of the form body has less than 5 characters"@
                        }
                        ||| {
                            &&& valid_newsletter_data(data@)
                            &&& !valid_key(data@.idempotency_key)
                            &&& e@.status_code == 400
                        }
                        ||| {
                            &&& valid_newsletter_data(data@)
                            &&& valid_key(data@.idempotency_key)
                            &&& found matches Some(row)
                            &&& row.response is None
                            &&& e@.status_code == 500
                        }
                        ||| {
                            &&& valid_newsletter_data(data@)
                            &&& valid_key(data@.idempotency_key)
                            &&& found is None
                            &&& pre.newsletter_issues.len() > 0
                            &&& e@.status_code == 500
                        }
                    }
                },
            }
        }),
{
    let issue_id = generate_row_id();
    publish_newsletter_with_id(store, user_id, data, issue_id, now)
}

} // verus!
