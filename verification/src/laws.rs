//! The guarantees of the pipeline, stated and proved over the store model.
//!
//! Each law here is phrased over the spec-level states that the verified
//! operations promise in their contracts, so it composes with them: what
//! `publish_newsletter` says about one call, these lemmas extend to what a
//! duplicate or a later worker pass observes.

use vstd::prelude::*;

use crate::cleanup_worker::{
    lemma_retained_records_complete, lemma_retained_records_sound, record_expired,
    retained_records,
};
use crate::delivery_worker::{remaining_after_pass, task_deliverable};
use crate::newsletter::{published_state, publish_success_view, NewsletterDataView};
use crate::store::{
    confirmed_emails, delivery_tasks_for, email_of_confirmed, idem_lookup, idem_matches,
    lemma_confirmed_emails_complete, lemma_confirmed_emails_sound, lemma_idem_lookup_push,
    IdempotencyRowView, StoreView, SubscriberStatus,
};

verus! {

/// After a fresh publish of `(user_id, key)` commits, the store holds its
/// record with the cached outcome attached.
///
/// Together with the contracts of `publish_newsletter` this carries the
/// duplicate-submission guarantee: a second identical request finds this
/// record, returns exactly the same outcome, and changes nothing — so for
/// one `(user, key)` at most one newsletter issue and one fan-out are ever
/// created, and every caller receives the identical response.
pub proof fn lemma_duplicate_publish_replays(
    pre: StoreView,
    user_id: u128,
    d: NewsletterDataView,
    issue_id: u128,
    now: i64,
)
    requires
        idem_lookup(pre.idempotency, user_id, d.idempotency_key) is None,
    ensures
        idem_lookup(
            published_state(pre, user_id, d, issue_id, now, publish_success_view()).idempotency,
            user_id,
            d.idempotency_key,
        ) == Some(
            IdempotencyRowView {
                user_id,
                idempotency_key: d.idempotency_key,
                created_at: now,
                response: Some(publish_success_view()),
            },
        ),
{
    let row = IdempotencyRowView {
        user_id,
        idempotency_key: d.idempotency_key,
        created_at: now,
        response: Some(publish_success_view()),
    };
    lemma_idem_lookup_push(pre.idempotency, user_id, d.idempotency_key, row);
    assert(idem_matches(row, user_id, d.idempotency_key));
}

/// Whether every idempotency record carries its outcome — true of every
/// reachable store, because the record and the outcome commit together:
/// an execution that fails before its commit point leaves no record at
/// all, and a retry with its key starts fresh.
pub open spec fn all_records_completed(rows: Seq<IdempotencyRowView>) -> bool {
    forall|i: int| 0 <= i < rows.len() ==> (#[trigger] rows[i]).response is Some
}

/// A committed publish preserves the completed-records invariant: it can
/// only add a record that carries its outcome.
pub proof fn lemma_publish_leaves_records_completed(
    pre: StoreView,
    user_id: u128,
    d: NewsletterDataView,
    issue_id: u128,
    now: i64,
    outcome: crate::http_response::HttpResponseView,
)
    requires
        all_records_completed(pre.idempotency),
    ensures
        all_records_completed(published_state(pre, user_id, d, issue_id, now, outcome).idempotency),
{
    let post = published_state(pre, user_id, d, issue_id, now, outcome).idempotency;
    assert forall|i: int| 0 <= i < post.len() implies (#[trigger] post[i]).response is Some by {
        if i < pre.idempotency.len() {
            assert(post[i] == pre.idempotency[i]);
        }
    }
}

/// A cleanup pass preserves the completed-records invariant: it only
/// removes records.
pub proof fn lemma_cleanup_leaves_records_completed(rows: Seq<IdempotencyRowView>, now: i64)
    requires
        all_records_completed(rows),
    ensures
        all_records_completed(retained_records(rows, now)),
{
    lemma_retained_records_sound(rows, now);
    let post = retained_records(rows, now);
    assert forall|i: int| 0 <= i < post.len() implies (#[trigger] post[i]).response is Some by {
        let j = choose|j: int|
            0 <= j < rows.len() && post[i] == rows[j] && !crate::cleanup_worker::record_expired(
                rows[j],
                now,
            );
        assert(rows[j].response is Some);
    }
}

/// The fan-out of a publish is exactly one task per confirmed subscriber:
/// as many tasks as confirmed subscribers, every task for the published
/// issue, and every task's address that of a confirmed subscriber — none
/// of an unconfirmed one.
pub proof fn lemma_fanout_exactly_confirmed(
    subs: Seq<crate::store::SubscriberRowView>,
    issue_id: u128,
)
    ensures
        delivery_tasks_for(subs, issue_id).len() == confirmed_emails(subs).len(),
        forall|k: int|
            0 <= k < delivery_tasks_for(subs, issue_id).len() ==> (#[trigger] delivery_tasks_for(
                subs,
                issue_id,
            )[k]).newsletter_issue_id == issue_id && email_of_confirmed(
                subs,
                delivery_tasks_for(subs, issue_id)[k].subscriber_email,
            ),
        forall|j: int|
            0 <= j < subs.len() && (#[trigger] subs[j]).status == SubscriberStatus::Confirmed
                ==> exists|k: int|
                0 <= k < delivery_tasks_for(subs, issue_id).len() && (
                #[trigger] delivery_tasks_for(subs, issue_id)[k]).subscriber_email
                    == subs[j].email,
{
    lemma_confirmed_emails_sound(subs);
    lemma_confirmed_emails_complete(subs);
    assert forall|k: int| 0 <= k < delivery_tasks_for(subs, issue_id).len() implies (
    #[trigger] delivery_tasks_for(subs, issue_id)[k]).newsletter_issue_id == issue_id
        && email_of_confirmed(subs, delivery_tasks_for(subs, issue_id)[k].subscriber_email) by {
        assert(delivery_tasks_for(subs, issue_id)[k].subscriber_email == confirmed_emails(subs)[k]);
    }
    assert forall|j: int|
        0 <= j < subs.len() && (#[trigger] subs[j]).status
            == SubscriberStatus::Confirmed implies exists|k: int|
        0 <= k < delivery_tasks_for(subs, issue_id).len() && (#[trigger] delivery_tasks_for(
            subs,
            issue_id,
        )[k]).subscriber_email == subs[j].email by {
        let k0 = choose|k: int|
            0 <= k < confirmed_emails(subs).len() && confirmed_emails(subs)[k] == subs[j].email;
        assert(delivery_tasks_for(subs, issue_id)[k0].subscriber_email == subs[j].email);
    }
}

/// A purge keeps exactly the unexpired records: every record it keeps was
/// an unexpired record, and every unexpired record is kept — newer rows
/// are left untouched.
pub proof fn lemma_purge_keeps_exactly_unexpired(rows: Seq<IdempotencyRowView>, now: i64)
    ensures
        forall|k: int|
            0 <= k < retained_records(rows, now).len() ==> exists|j: int|
                0 <= j < rows.len() && #[trigger] retained_records(rows, now)[k] == rows[j]
                    && !record_expired(rows[j], now),
        forall|j: int|
            0 <= j < rows.len() && !record_expired(#[trigger] rows[j], now) ==> retained_records(
                rows,
                now,
            ).contains(rows[j]),
{
    lemma_retained_records_sound(rows, now);
    lemma_retained_records_complete(rows, now);
}

/// Every row a worker pass leaves behind is still deliverable: only a
/// transient send failure keeps a row, so what remains is claimable by the
/// next pass.
pub proof fn lemma_pass_keeps_only_deliverable(
    rows: Seq<crate::store::TaskRowView>,
    ok: Seq<bool>,
    issues: Seq<crate::store::IssueRowView>,
)
    ensures
        forall|k: int|
            0 <= k < remaining_after_pass(rows, ok, issues).len() ==> task_deliverable(
                issues,
                #[trigger] remaining_after_pass(rows, ok, issues)[k],
            ),
    decreases rows.len(),
{
    if rows.len() > 0 {
        lemma_pass_keeps_only_deliverable(rows.drop_last(), ok.drop_last(), issues);
        let rest = remaining_after_pass(rows.drop_last(), ok.drop_last(), issues);
        assert forall|k: int|
            0 <= k < remaining_after_pass(rows, ok, issues).len() implies task_deliverable(
            issues,
            #[trigger] remaining_after_pass(rows, ok, issues)[k],
        ) by {
            if k < rest.len() {
                assert(remaining_after_pass(rows, ok, issues)[k] == rest[k]);
            } else {
                assert(remaining_after_pass(rows, ok, issues)[k] == rows.last());
            }
        }
    }
}

/// Once the fault clears — every send succeeds — one pass drains the
/// queue completely: with `lemma_pass_keeps_only_deliverable`, the rows a
/// faulty pass left behind are eventually delivered.
pub proof fn lemma_pass_with_no_faults_drains(
    rows: Seq<crate::store::TaskRowView>,
    issues: Seq<crate::store::IssueRowView>,
)
    ensures
        remaining_after_pass(rows, Seq::new(rows.len(), |i: int| true), issues) =~~= Seq::<
            crate::store::TaskRowView,
        >::empty(),
    decreases rows.len(),
{
    if rows.len() > 0 {
        let ok = Seq::new(rows.len(), |i: int| true);
        assert(ok.drop_last() =~= Seq::new(rows.drop_last().len(), |i: int| true));
        lemma_pass_with_no_faults_drains(rows.drop_last(), issues);
    }
}

} // verus!
