//! The delivery worker: drains the `issue_delivery_queue` outbox.
//!
//! The worker claims one task at a time, looks up the issue content,
//! validates the stored address, and attempts the send. A task row is
//! deleted exactly when the send succeeded or the row can never succeed —
//! the issue is gone or the stored address is invalid (a poison row);
//! after a transient send failure the row stays in place for a later
//! pass. The send itself is outside work: the process runner performs it
//! and reports the outcome back.

use vstd::prelude::*;

use crate::store::{
    contains_issue_id, has_issue, issue_lookup, lemma_issue_lookup_at, lemma_issue_lookup_none,
    IssueRow, IssueRowView, Store, TaskRow, TaskRowView,
};
use crate::subscriber_email::{check_email, is_valid_email, SubscriberEmail};

verus! {

/// How long the worker sleeps when it observes an empty queue.
pub const WORKER_IDLE_SECONDS: u64 = 10;

/// Why a claimed task can never be delivered, regardless of retries.
#[derive(Clone, Copy, Debug, PartialEq, Eq, Structural)]
pub enum PoisonReason {
    /// No committed issue carries the task's issue id.
    MissingIssue,
    /// The stored subscriber address is not a valid address at send time.
    InvalidEmail,
}

/// Whether a task can in principle be delivered against this store: its
/// issue exists and its stored address is valid.
pub open spec fn task_deliverable(
    issues: Seq<IssueRowView>,
    t: TaskRowView,
) -> bool {
    has_issue(issues, t.newsletter_issue_id) && is_valid_email(t.subscriber_email)
}

/// Claims one pending task: the row at the head of the queue. `None`
/// reports an empty queue, after which the worker backs off.
pub fn claim_delivery_task(store: &Store) -> (r: Option<TaskRow>)
    ensures
        match r {
            Some(t) => store@.issue_delivery_queue.len() > 0 && t@
                == store@.issue_delivery_queue[0],
            None => store@.issue_delivery_queue.len() == 0,
        },
{
    if store.issue_delivery_queue.len() == 0 {
        None
    } else {
        Some(store.issue_delivery_queue[0].duplicate())
    }
}

/// Gathers what a send needs: the issue content and the validated
/// address. An error classifies the task as poison.
pub fn prepare_delivery(store: &Store, task: &TaskRow) -> (r: Result<
    (IssueRow, SubscriberEmail),
    PoisonReason,
>)
    ensures
        match r {
            Ok((issue, email)) => {
                &&& issue_lookup(store@.newsletter_issues, task@.newsletter_issue_id) == Some(
                    issue@,
                )
                &&& is_valid_email(task@.subscriber_email)
                &&& email@ == task@.subscriber_email
            },
            Err(PoisonReason::MissingIssue) => issue_lookup(
                store@.newsletter_issues,
                task@.newsletter_issue_id,
            ) is None,
            Err(PoisonReason::InvalidEmail) => {
                &&& issue_lookup(store@.newsletter_issues, task@.newsletter_issue_id) is Some
                &&& !is_valid_email(task@.subscriber_email)
            },
        },
{
    let n = store.newsletter_issues.len();
    let mut i: usize = 0;
    while i < n
        invariant
            i <= n,
            n == store@.newsletter_issues.len(),
            forall|j: int|
                0 <= j < i ==> (#[trigger] store@.newsletter_issues[j]).newsletter_issue_id
                    != task@.newsletter_issue_id,
        decreases n - i,
    {
        if store.newsletter_issues[i].newsletter_issue_id == task.newsletter_issue_id {
            proof {
                lemma_issue_lookup_at(
                    store@.newsletter_issues,
                    task@.newsletter_issue_id,
                    i as int,
                );
            }
            if check_email(&task.subscriber_email) {
                let email = SubscriberEmail::parse(task.subscriber_email.clone());
                match email {
                    Ok(email) => {
                        return Ok((store.newsletter_issues[i].duplicate(), email));
                    },
                    Err(_) => {
                        return Err(PoisonReason::InvalidEmail);
                    },
                }
            } else {
                return Err(PoisonReason::InvalidEmail);
            }
        }
        i = i + 1;
    }
    proof {
        lemma_issue_lookup_none(store@.newsletter_issues, task@.newsletter_issue_id);
    }
    Err(PoisonReason::MissingIssue)
}

/// The queue without the rows of one task's `(issue_id, email)` pair —
/// what the completing delete leaves behind.
pub open spec fn tasks_without(rows: Seq<TaskRowView>, t: TaskRowView) -> Seq<TaskRowView>
    decreases rows.len(),
{
    if rows.len() == 0 {
        Seq::empty()
    } else {
        let rest = tasks_without(rows.drop_last(), t);
        if rows.last().newsletter_issue_id == t.newsletter_issue_id && rows.last().subscriber_email
            == t.subscriber_email {
            rest
        } else {
            rest + seq![rows.last()]
        }
    }
}

/// How appending a row changes the deletion's result.
pub proof fn lemma_tasks_without_push(rows: Seq<TaskRowView>, x: TaskRowView, t: TaskRowView)
    ensures
        tasks_without(rows.push(x), t) =~~= tasks_without(rows, t) + (
        if x.newsletter_issue_id == t.newsletter_issue_id && x.subscriber_email
            == t.subscriber_email {
            Seq::empty()
        } else {
            seq![x]
        }),
{
    assert(rows.push(x).drop_last() =~= rows);
}

/// Finishes one delivery attempt of a claimed task.
///
/// `completed` reports that the task is done with: the send succeeded, or
/// the task was classified poison. The task's rows are then deleted — the
/// task's commit point. After a transient failure (`completed == false`)
/// the store is untouched and the rows stay claimable for a later pass.
pub fn complete_delivery_attempt(store: &mut Store, task: &TaskRow, completed: bool)
    ensures
        completed ==> final(store)@.issue_delivery_queue =~~= tasks_without(
            old(store)@.issue_delivery_queue,
            task@,
        ),
        !completed ==> *final(store) == *old(store),
        final(store)@.subscriptions == old(store)@.subscriptions,
        final(store)@.subscription_tokens == old(store)@.subscription_tokens,
        final(store)@.newsletter_issues == old(store)@.newsletter_issues,
        final(store)@.idempotency == old(store)@.idempotency,
{
    if !completed {
        return ;
    }
    let ghost rows = store@.issue_delivery_queue;
    let mut kept: Vec<TaskRow> = Vec::new();
    let n = store.issue_delivery_queue.len();
    let mut i: usize = 0;
    proof {
        assert(kept@.map_values(|r: TaskRow| r@) =~= tasks_without(rows.take(0), task@));
    }
    while i < n
        invariant
            i <= n,
            n == rows.len(),
            rows == store@.issue_delivery_queue,
            kept@.map_values(|r: TaskRow| r@) =~~= tasks_without(rows.take(i as int), task@),
        decreases n - i,
    {
        let row = &store.issue_delivery_queue[i];
        let ghost kept_before = kept@.map_values(|r: TaskRow| r@);
        if !(row.newsletter_issue_id == task.newsletter_issue_id && row.subscriber_email
            == task.subscriber_email) {
            kept.push(row.duplicate());
            proof {
                assert(kept@.map_values(|r: TaskRow| r@) =~= kept_before.push(rows[i as int]));
            }
        }
        proof {
            assert(rows.take(i as int + 1) =~= rows.take(i as int).push(rows[i as int]));
            lemma_tasks_without_push(rows.take(i as int), rows[i as int], task@);
        }
        i = i + 1;
    }
    proof {
        assert(rows.take(n as int) =~= rows);
    }
    store.issue_delivery_queue = kept;
}

/// The rows a full pass over the queue leaves behind, when the send of
/// the row at index `i` reports `ok[i]`: exactly the deliverable rows
/// whose send failed this pass.
pub open spec fn remaining_after_pass(
    rows: Seq<TaskRowView>,
    ok: Seq<bool>,
    issues: Seq<IssueRowView>,
) -> Seq<TaskRowView>
    decreases rows.len(),
{
    if rows.len() == 0 {
        Seq::empty()
    } else {
        let rest = remaining_after_pass(rows.drop_last(), ok.drop_last(), issues);
        if task_deliverable(issues, rows.last()) && !(ok.len() > 0 && ok.last()) {
            rest + seq![rows.last()]
        } else {
            rest
        }
    }
}

/// One full pass of the delivery worker over a fixed queue, with the send
/// outcomes given as a fault schedule: `send_ok[i]` is what the send of
/// row `i` would report.
///
/// A row is deleted exactly when its send succeeded or it is poison; the
/// rows left are the deliverable ones whose send failed, still claimable
/// by the next pass.
pub fn drain_queue_once(store: &mut Store, send_ok: &Vec<bool>)
    requires
        send_ok@.len() == old(store)@.issue_delivery_queue.len(),
    ensures
        final(store)@.issue_delivery_queue =~~= remaining_after_pass(
            old(store)@.issue_delivery_queue,
            send_ok@,
            old(store)@.newsletter_issues,
        ),
        final(store)@.subscriptions == old(store)@.subscriptions,
        final(store)@.subscription_tokens == old(store)@.subscription_tokens,
        final(store)@.newsletter_issues == old(store)@.newsletter_issues,
        final(store)@.idempotency == old(store)@.idempotency,
{
    let ghost rows = store@.issue_delivery_queue;
    let ghost issues = store@.newsletter_issues;
    let mut kept: Vec<TaskRow> = Vec::new();
    let n = store.issue_delivery_queue.len();
    let mut i: usize = 0;
    proof {
        assert(kept@.map_values(|r: TaskRow| r@) =~= remaining_after_pass(
            rows.take(0),
            send_ok@.take(0),
            issues,
        ));
    }
    while i < n
        invariant
            i <= n,
            n == rows.len(),
            n == send_ok@.len(),
            rows == store@.issue_delivery_queue,
            issues == store@.newsletter_issues,
            kept@.map_values(|r: TaskRow| r@) =~~= remaining_after_pass(
                rows.take(i as int),
                send_ok@.take(i as int),
                issues,
            ),
        decreases n - i,
    {
        let row = &store.issue_delivery_queue[i];
        let ghost kept_before = kept@.map_values(|r: TaskRow| r@);
        let deliverable = contains_issue_id(&store.newsletter_issues, row.newsletter_issue_id)
            && check_email(&row.subscriber_email);
        if deliverable && !send_ok[i] {
            kept.push(row.duplicate());
            proof {
                assert(kept@.map_values(|r: TaskRow| r@) =~= kept_before.push(rows[i as int]));
            }
        }
        proof {
            assert(rows.take(i as int + 1) =~= rows.take(i as int).push(rows[i as int]));
            assert(send_ok@.take(i as int + 1) =~= send_ok@.take(i as int).push(
                send_ok@[i as int],
            ));
            assert(rows.take(i as int + 1).drop_last() =~= rows.take(i as int));
            assert(send_ok@.take(i as int + 1).drop_last() =~= send_ok@.take(i as int));
        }
        i = i + 1;
    }
    proof {
        assert(rows.take(n as int) =~= rows);
        assert(send_ok@.take(n as int) =~= send_ok@);
    }
    store.issue_delivery_queue = kept;
}

} // verus!
