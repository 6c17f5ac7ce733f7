//! The idempotency-store / command-processor protocol.
//!
//! `try_processing` decides whether a publish command does new work or
//! replays a cached outcome; `save_response` is the single commit point
//! that makes the command's rows and its cached outcome durable together.
//! A [`CommandTransaction`] buffers every write of one command: dropping
//! it without calling `save_response` is the rollback, after which the
//! store holds no trace of the attempt and a retry with the same key is a
//! fresh execution.

use vstd::prelude::*;

use crate::http_response::{HttpResponse, HttpResponseView};
use crate::idempotency_key::IdempotencyKey;
use crate::store::{
    IdempotencyRow, IdempotencyRowView, IssueRow, IssueRowView, Store, TaskRow, TaskRowView,
    idem_lookup, idem_matches, has_issue, contains_issue_id,
    lemma_idem_lookup_at, lemma_idem_lookup_none,
};

verus! {

/// The buffered writes of one executing command, keyed by
/// `(user_id, idempotency_key)`. Nothing in it reaches the store before
/// [`save_response`] commits it.
#[derive(Debug)]
pub struct CommandTransaction {
    pub user_id: u128,
    pub idempotency_key: String,
    pub created_at: i64,
    pub issue: Option<IssueRow>,
    pub tasks: Vec<TaskRow>,
}

/// Mathematical value of a command transaction.
#[verifier::ext_equal]
pub struct CommandTransactionView {
    pub user_id: u128,
    pub idempotency_key: Seq<char>,
    pub created_at: i64,
    pub issue: Option<IssueRowView>,
    pub tasks: Seq<TaskRowView>,
}

impl View for CommandTransaction {
    type V = CommandTransactionView;

    open spec fn view(&self) -> CommandTransactionView {
        CommandTransactionView {
            user_id: self.user_id,
            idempotency_key: self.idempotency_key@,
            created_at: self.created_at,
            issue: match self.issue {
                Some(ref i) => Some(i@),
                None => None,
            },
            tasks: self.tasks@.map_values(|t: TaskRow| t@),
        }
    }
}

impl CommandTransactionView {
    /// Buffered delivery tasks always belong to the buffered issue — the
    /// foreign key of the delivery queue.
    pub open spec fn wf(self) -> bool {
        forall|i: int|
            0 <= i < self.tasks.len() ==> self.issue is Some
                && (#[trigger] self.tasks[i]).newsletter_issue_id
                == self.issue->0.newsletter_issue_id
    }

    /// The idempotency record this transaction commits, given the cached
    /// outcome.
    pub open spec fn committed_record(self, response: HttpResponseView) -> IdempotencyRowView {
        IdempotencyRowView {
            user_id: self.user_id,
            idempotency_key: self.idempotency_key,
            created_at: self.created_at,
            response: Some(response),
        }
    }
}

/// What the command processor must do next for a given key.
#[derive(Debug)]
pub enum NextAction {
    /// The key is unclaimed: the caller owns the transaction and must run
    /// the command body inside it, then commit with [`save_response`].
    StartProcessing(CommandTransaction),
    /// A previous execution of the same key committed: replay its outcome.
    ReturnSavedResponse(HttpResponse),
}

/// A duplicate submission found a record whose outcome was never attached;
/// committed records always carry one, so a well-formed store never
/// produces this.
#[derive(Clone, Copy, Debug, PartialEq, Eq, Structural)]
pub enum IdempotencyError {
    MissingSavedResponse,
}

/// Commit failure: a unique index of the store refused the transaction's
/// rows.
#[derive(Clone, Copy, Debug, PartialEq, Eq, Structural)]
pub enum TransactionError {
    /// Another execution of the same `(user_id, idempotency_key)` committed
    /// first.
    DuplicateIdempotencyKey,
    /// The generated newsletter issue id is already taken.
    DuplicateIssueId,
}

/// Index of the first idempotency row of `(user_id, key)`, if any.
fn find_idem_index(rows: &Vec<IdempotencyRow>, user_id: u128, key: &String) -> (r: Option<usize>)
    ensures
        match r {
            Some(i) => i < rows@.len() && idem_matches(rows@[i as int]@, user_id, key@) && forall|
                j: int,
            | 0 <= j < i ==> !idem_matches(#[trigger] rows@[j]@, user_id, key@),
            None => forall|j: int|
                0 <= j < rows@.len() ==> !idem_matches(#[trigger] rows@[j]@, user_id, key@),
        },
{
    let n = rows.len();
    let mut i: usize = 0;
    while i < n
        invariant
            i <= n,
            n == rows@.len(),
            forall|j: int| 0 <= j < i ==> !idem_matches(#[trigger] rows@[j]@, user_id, key@),
        decreases n - i,
    {
        let row = &rows[i];
        if row.user_id == user_id && row.idempotency_key == *key {
            return Some(i);
        }
        i = i + 1;
    }
    None
}

/// Begins a publish command for `(user_id, key)` against the committed
/// state, at time `now`.
///
/// If no record of the key exists, the caller becomes the executor and
/// receives a fresh transaction whose record will carry `created_at ==
/// now`. If a committed record exists, its cached outcome is replayed. The
/// store itself is never changed: the in-progress record lives inside the
/// uncommitted transaction, so an execution that fails before committing
/// leaves nothing behind.
pub fn try_processing(store: &Store, idempotency_key: &IdempotencyKey, user_id: u128, now: i64) -> (r:
    Result<NextAction, IdempotencyError>)
    ensures
        match r {
            Ok(NextAction::StartProcessing(txn)) => {
                &&& idem_lookup(store@.idempotency, user_id, idempotency_key@) is None
                &&& txn@ =~= (CommandTransactionView {
                    user_id,
                    idempotency_key: idempotency_key@,
                    created_at: now,
                    issue: None,
                    tasks: Seq::empty(),
                })
            },
            Ok(NextAction::ReturnSavedResponse(resp)) => {
                &&& idem_lookup(store@.idempotency, user_id, idempotency_key@) matches Some(row)
                &&& row.response matches Some(saved)
                &&& resp@ =~= saved
            },
            Err(IdempotencyError::MissingSavedResponse) => {
                &&& idem_lookup(store@.idempotency, user_id, idempotency_key@) matches Some(row)
                &&& row.response is None
            },
        },
{
    match find_idem_index(&store.idempotency, user_id, idempotency_key.as_string()) {
        None => {
            proof {
                lemma_idem_lookup_none(store@.idempotency, user_id, idempotency_key@);
            }
            let txn = CommandTransaction {
                user_id,
                idempotency_key: idempotency_key.as_string().clone(),
                created_at: now,
                issue: None,
                tasks: Vec::new(),
            };
            proof {
                assert(txn@.tasks =~= Seq::<TaskRowView>::empty());
            }
            Ok(NextAction::StartProcessing(txn))
        },
        Some(i) => {
            proof {
                lemma_idem_lookup_at(store@.idempotency, user_id, idempotency_key@, i as int);
            }
            match store.idempotency[i].response {
                Some(ref saved) => Ok(NextAction::ReturnSavedResponse(saved.duplicate())),
                None => Err(IdempotencyError::MissingSavedResponse),
            }
        },
    }
}

/// The cached outcome of a committed execution of `(user_id, key)`, if
/// one exists.
pub fn get_saved_response(store: &Store, idempotency_key: &IdempotencyKey, user_id: u128) -> (r:
    Option<HttpResponse>)
    ensures
        match r {
            Some(resp) => {
                &&& idem_lookup(store@.idempotency, user_id, idempotency_key@) matches Some(row)
                &&& row.response matches Some(saved)
                &&& resp@ =~= saved
            },
            None => match idem_lookup(store@.idempotency, user_id, idempotency_key@) {
                Some(row) => row.response is None,
                None => true,
            },
        },
{
    match find_idem_index(&store.idempotency, user_id, idempotency_key.as_string()) {
        None => {
            proof {
                lemma_idem_lookup_none(store@.idempotency, user_id, idempotency_key@);
            }
            None
        },
        Some(i) => {
            proof {
                lemma_idem_lookup_at(store@.idempotency, user_id, idempotency_key@, i as int);
            }
            match store.idempotency[i].response {
                Some(ref saved) => Some(saved.duplicate()),
                None => None,
            }
        },
    }
}

/// Commits one command: attaches the outcome to the idempotency record and
/// makes the record, the buffered issue and the buffered delivery tasks
/// durable together. Returns the outcome so the caller can hand it to the
/// client.
///
/// The commit fails — leaving the store untouched, the rollback — exactly
/// when a unique index refuses it: the key was committed by another
/// execution in the meantime, or the generated issue id is taken.
pub fn save_response(store: &mut Store, txn: CommandTransaction, http_response: HttpResponse) -> (r:
    Result<HttpResponse, TransactionError>)
    requires
        txn@.wf(),
    ensures
        match r {
            Ok(resp) => {
                &&& idem_lookup(old(store)@.idempotency, txn@.user_id, txn@.idempotency_key)
                    is None
                &&& (txn@.issue matches Some(i) ==> !has_issue(old(store)@.newsletter_issues, i.newsletter_issue_id))
                &&& final(store)@.idempotency =~= old(store)@.idempotency.push(
                    txn@.committed_record(http_response@),
                )
                &&& final(store)@.newsletter_issues =~= old(store)@.newsletter_issues + (
                match txn@.issue {
                    Some(i) => seq![i],
                    None => Seq::empty(),
                })
                &&& final(store)@.issue_delivery_queue =~= old(store)@.issue_delivery_queue
                    + txn@.tasks
                &&& final(store)@.subscriptions =~= old(store)@.subscriptions
                &&& final(store)@.subscription_tokens =~= old(store)@.subscription_tokens
                &&& resp@ =~= http_response@
                &&& old(store)@.wf() ==> final(store)@.wf()
            },
            Err(TransactionError::DuplicateIdempotencyKey) => {
                &&& idem_lookup(old(store)@.idempotency, txn@.user_id, txn@.idempotency_key)
                    is Some
                &&& *final(store) == *old(store)
            },
            Err(TransactionError::DuplicateIssueId) => {
                &&& idem_lookup(old(store)@.idempotency, txn@.user_id, txn@.idempotency_key)
                    is None
                &&& txn@.issue matches Some(i)
                &&& has_issue(old(store)@.newsletter_issues, i.newsletter_issue_id)
                &&& *final(store) == *old(store)
            },
        },
{
    let CommandTransaction { user_id, idempotency_key, created_at, issue, tasks } = txn;

    let probe = find_idem_index(&store.idempotency, user_id, &idempotency_key);
    match probe {
        Some(i) => {
            proof {
                lemma_idem_lookup_at(store@.idempotency, user_id, idempotency_key@, i as int);
            }
            return Err(TransactionError::DuplicateIdempotencyKey);
        },
        None => {
            proof {
                lemma_idem_lookup_none(store@.idempotency, user_id, idempotency_key@);
            }
        },
    }

    let ghost old_view = store@;

    match issue {
        Some(issue_row) => {
            if contains_issue_id(&store.newsletter_issues, issue_row.newsletter_issue_id) {
                return Err(TransactionError::DuplicateIssueId);
            }
            proof {
                crate::store::lemma_issue_lookup_absent(
                    store@.newsletter_issues,
                    issue_row@.newsletter_issue_id,
                );
            }
            commit_rows(
                store,
                IdempotencyRow {
                    user_id,
                    idempotency_key,
                    created_at,
                    response: Some(http_response.duplicate()),
                },
                Some(issue_row),
                tasks,
            );
            proof {
                if old_view.wf() {
                    lemma_commit_preserves_wf(old_view, store@);
                }
            }
            Ok(http_response)
        },
        None => {
            commit_rows(
                store,
                IdempotencyRow {
                    user_id,
                    idempotency_key,
                    created_at,
                    response: Some(http_response.duplicate()),
                },
                None,
                tasks,
            );
            proof {
                if old_view.wf() {
                    lemma_commit_preserves_wf(old_view, store@);
                }
            }
            Ok(http_response)
        },
    }
}

/// Appends the committed rows of one transaction.
fn commit_rows(store: &mut Store, record: IdempotencyRow, issue: Option<IssueRow>, tasks: Vec<TaskRow>)
    ensures
        final(store)@.idempotency =~= old(store)@.idempotency.push(record@),
        final(store)@.newsletter_issues =~= old(store)@.newsletter_issues + (match issue {
            Some(i) => seq![i@],
            None => Seq::empty(),
        }),
        final(store)@.issue_delivery_queue =~= old(store)@.issue_delivery_queue + tasks@.map_values(
            |t: TaskRow| t@,
        ),
        final(store)@.subscriptions =~= old(store)@.subscriptions,
        final(store)@.subscription_tokens =~= old(store)@.subscription_tokens,
{
    let ghost record_view = record@;
    let ghost issues_after = old(store)@.newsletter_issues + (match issue {
        Some(ref i) => seq![i@],
        None => Seq::<IssueRowView>::empty(),
    });
    store.idempotency.push(record);
    match issue {
        Some(i) => store.newsletter_issues.push(i),
        None => (),
    }
    proof {
        assert(store@.idempotency =~= old(store)@.idempotency.push(record_view));
        assert(store@.newsletter_issues =~= issues_after);
    }
    let ghost old_queue = store@.issue_delivery_queue;
    let ghost old_idem = store@.idempotency;
    let ghost old_issues = store@.newsletter_issues;
    let ghost old_subs = store@.subscriptions;
    let ghost old_tokens = store@.subscription_tokens;
    let ghost tasks_view = tasks@.map_values(|t: TaskRow| t@);
    let n = tasks.len();
    let mut i: usize = 0;
    proof {
        assert(store@.issue_delivery_queue =~= old_queue + tasks_view.take(0));
    }
    while i < n
        invariant
            i <= n,
            n == tasks@.len(),
            tasks_view == tasks@.map_values(|t: TaskRow| t@),
            store@.issue_delivery_queue =~= old_queue + tasks_view.take(i as int),
            store@.idempotency == old_idem,
            store@.newsletter_issues == old_issues,
            store@.subscriptions == old_subs,
            store@.subscription_tokens == old_tokens,
        decreases n - i,
    {
        let t = tasks[i].duplicate();
        let ghost q_before = store@.issue_delivery_queue;
        proof {
            assert(t@ == tasks_view[i as int]);
        }
        store.issue_delivery_queue.push(t);
        proof {
            assert(store@.issue_delivery_queue =~= q_before.push(t@));
            assert(q_before.push(t@) =~= old_queue + tasks_view.take(i as int + 1));
        }
        i = i + 1;
    }
    proof {
        assert(tasks_view.take(n as int) =~= tasks_view);
    }
}

/// Committing a transaction whose key and issue id were fresh keeps the
/// store's uniqueness invariants.
proof fn lemma_commit_preserves_wf(pre: crate::store::StoreView, post: crate::store::StoreView)
    requires
        post.idempotency.len() == pre.idempotency.len() + 1,
        forall|i: int| 0 <= i < pre.idempotency.len() ==> post.idempotency[i] == pre.idempotency[i],
        forall|i: int|
            0 <= i < pre.idempotency.len() ==> !idem_matches(
                #[trigger] pre.idempotency[i],
                post.idempotency[pre.idempotency.len() as int].user_id,
                post.idempotency[pre.idempotency.len() as int].idempotency_key,
            ),
        post.newsletter_issues.len() >= pre.newsletter_issues.len(),
        post.newsletter_issues.len() <= pre.newsletter_issues.len() + 1,
        forall|i: int|
            0 <= i < pre.newsletter_issues.len() ==> post.newsletter_issues[i]
                == pre.newsletter_issues[i],
        post.newsletter_issues.len() == pre.newsletter_issues.len() + 1 ==> forall|i: int|
            0 <= i < pre.newsletter_issues.len()
                ==> (#[trigger] pre.newsletter_issues[i]).newsletter_issue_id
                != post.newsletter_issues[pre.newsletter_issues.len() as int].newsletter_issue_id,
        post.subscriptions == pre.subscriptions,
        post.subscription_tokens == pre.subscription_tokens,
        pre.wf(),
    ensures
        post.wf(),
{
    assert forall|i: int, j: int|
        0 <= i < j < post.idempotency.len() implies !idem_matches(
        #[trigger] post.idempotency[j],
        (#[trigger] post.idempotency[i]).user_id,
        post.idempotency[i].idempotency_key,
    ) by {
        if j < pre.idempotency.len() {
        } else {
            assert(post.idempotency[i] == pre.idempotency[i]);
        }
    }
}

} // verus!
