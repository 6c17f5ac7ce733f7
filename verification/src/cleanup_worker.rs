//! The idempotency cleanup worker.
//!
//! Idempotency records are kept for a fixed retention window after
//! creation and then purged, so duplicate submissions are recognised for
//! as long as a client could plausibly retry, without the table growing
//! forever. The surrounding loop — purge, sleep a day, repeat — belongs to
//! the process runner; the purge itself is here.

use vstd::prelude::*;

use crate::store::{IdempotencyRow, IdempotencyRowView, Store, idem_matches};

verus! {

/// How long a record is kept, measured from its creation: five days.
pub const RETENTION_SECONDS: i64 = 432000;

/// How long the worker sleeps between purges: one day.
pub const CLEANUP_INTERVAL_SECONDS: u64 = 86400;

/// Whether a record is past its retention window at time `now`.
pub open spec fn record_expired(r: IdempotencyRowView, now: i64) -> bool {
    r.created_at < now - RETENTION_SECONDS
}

/// The records that survive a purge at time `now`, in store order.
pub open spec fn retained_records(rows: Seq<IdempotencyRowView>, now: i64) -> Seq<
    IdempotencyRowView,
>
    decreases rows.len(),
{
    if rows.len() == 0 {
        Seq::empty()
    } else {
        let rest = retained_records(rows.drop_last(), now);
        if record_expired(rows.last(), now) {
            rest
        } else {
            rest + seq![rows.last()]
        }
    }
}

/// How appending a record changes the retained set.
pub proof fn lemma_retained_records_push(rows: Seq<IdempotencyRowView>, x: IdempotencyRowView, now: i64)
    ensures
        retained_records(rows.push(x), now) =~~= retained_records(rows, now) + (
        if record_expired(x, now) {
            Seq::empty()
        } else {
            seq![x]
        }),
{
    assert(rows.push(x).drop_last() =~= rows);
}

/// Every retained record is an unexpired record of the store before the purge.
pub proof fn lemma_retained_records_sound(rows: Seq<IdempotencyRowView>, now: i64)
    ensures
        forall|k: int|
            0 <= k < retained_records(rows, now).len() ==> exists|j: int|
                0 <= j < rows.len() && #[trigger] retained_records(rows, now)[k] == rows[j]
                    && !record_expired(rows[j], now),
    decreases rows.len(),
{
    if rows.len() > 0 {
        lemma_retained_records_sound(rows.drop_last(), now);
        let head = rows.drop_last();
        let rest = retained_records(head, now);
        assert forall|k: int| 0 <= k < retained_records(rows, now).len() implies exists|j: int|
            0 <= j < rows.len() && #[trigger] retained_records(rows, now)[k] == rows[j]
                && !record_expired(rows[j], now) by {
            if k < rest.len() {
                assert(retained_records(rows, now)[k] == rest[k]);
                let j0 = choose|j: int|
                    0 <= j < head.len() && #[trigger] rest[k] == head[j] && !record_expired(
                        head[j],
                        now,
                    );
                assert(rows[j0] == head[j0]);
            } else {
                assert(retained_records(rows, now)[k] == rows[rows.len() - 1]);
            }
        }
    }
}

/// Every unexpired record of the store before the purge is retained.
pub proof fn lemma_retained_records_complete(rows: Seq<IdempotencyRowView>, now: i64)
    ensures
        forall|j: int|
            0 <= j < rows.len() && !record_expired(#[trigger] rows[j], now) ==> retained_records(
                rows,
                now,
            ).contains(rows[j]),
    decreases rows.len(),
{
    if rows.len() > 0 {
        lemma_retained_records_complete(rows.drop_last(), now);
        let head = rows.drop_last();
        let rest = retained_records(head, now);
        assert forall|j: int|
            0 <= j < rows.len() && !record_expired(#[trigger] rows[j], now) implies retained_records(
            rows,
            now,
        ).contains(rows[j]) by {
            if j < rows.len() - 1 {
                assert(head[j] == rows[j]);
                assert(rest.contains(rows[j]));
                let k0 = choose|k: int| 0 <= k < rest.len() && rest[k] == rows[j];
                assert(retained_records(rows, now)[k0] == rows[j]);
            } else {
                assert(retained_records(rows, now)[retained_records(rows, now).len() - 1]
                    == rows[j]);
            }
        }
    }
}

/// A purge keeps the keys pairwise distinct.
pub proof fn lemma_retained_records_unique(rows: Seq<IdempotencyRowView>, now: i64)
    requires
        forall|i: int, j: int|
            0 <= i < j < rows.len() ==> !idem_matches(
                #[trigger] rows[j],
                (#[trigger] rows[i]).user_id,
                rows[i].idempotency_key,
            ),
    ensures
        forall|i: int, j: int|
            0 <= i < j < retained_records(rows, now).len() ==> !idem_matches(
                #[trigger] retained_records(rows, now)[j],
                (#[trigger] retained_records(rows, now)[i]).user_id,
                retained_records(rows, now)[i].idempotency_key,
            ),
    decreases rows.len(),
{
    if rows.len() > 0 {
        let head = rows.drop_last();
        let rest = retained_records(head, now);
        lemma_retained_records_unique(head, now);
        lemma_retained_records_sound(head, now);
        assert forall|i: int, j: int|
            0 <= i < j < retained_records(rows, now).len() implies !idem_matches(
            #[trigger] retained_records(rows, now)[j],
            (#[trigger] retained_records(rows, now)[i]).user_id,
            retained_records(rows, now)[i].idempotency_key,
        ) by {
            if j < rest.len() {
                assert(retained_records(rows, now)[i] == rest[i]);
                assert(retained_records(rows, now)[j] == rest[j]);
            } else {
                // The last element of `rows` was appended; `i` indexes a
                // retained record of the head, whose key differs from the
                // last row's key by the uniqueness of `rows`.
                assert(retained_records(rows, now)[i] == rest[i]);
                assert(retained_records(rows, now)[j] == rows[rows.len() - 1]);
                let j0 = choose|m: int|
                    0 <= m < head.len() && #[trigger] rest[i] == head[m] && !record_expired(
                        head[m],
                        now,
                    );
                assert(rows[j0] == head[j0]);
            }
        }
    }
}

/// One purge pass: deletes every idempotency record whose `created_at`
/// lies more than the retention window before `now`, and nothing else.
pub fn remove_old_idempotency_keys(store: &mut Store, now: i64)
    ensures
        final(store)@.idempotency =~~= retained_records(old(store)@.idempotency, now),
        final(store)@.subscriptions == old(store)@.subscriptions,
        final(store)@.subscription_tokens == old(store)@.subscription_tokens,
        final(store)@.newsletter_issues == old(store)@.newsletter_issues,
        final(store)@.issue_delivery_queue == old(store)@.issue_delivery_queue,
        old(store)@.wf() ==> final(store)@.wf(),
{
    let ghost rows = store@.idempotency;
    let mut kept: Vec<IdempotencyRow> = Vec::new();
    let n = store.idempotency.len();
    let mut i: usize = 0;
    proof {
        assert(kept@.map_values(|r: IdempotencyRow| r@) =~= retained_records(rows.take(0), now));
    }
    while i < n
        invariant
            i <= n,
            n == rows.len(),
            rows == store@.idempotency,
            kept@.map_values(|r: IdempotencyRow| r@) =~~= retained_records(rows.take(i as int), now),
        decreases n - i,
    {
        let row = &store.idempotency[i];
        let ghost kept_before = kept@.map_values(|r: IdempotencyRow| r@);
        if !((row.created_at as i128) < (now as i128) - (RETENTION_SECONDS as i128)) {
            kept.push(row.duplicate());
            proof {
                assert(kept@.map_values(|r: IdempotencyRow| r@) =~= kept_before.push(
                    rows[i as int],
                ));
            }
        }
        proof {
            assert(rows.take(i as int + 1) =~= rows.take(i as int).push(rows[i as int]));
            lemma_retained_records_push(rows.take(i as int), rows[i as int], now);
        }
        i = i + 1;
    }
    proof {
        assert(rows.take(n as int) =~= rows);
    }
    store.idempotency = kept;
    proof {
        if old(store)@.wf() {
            lemma_retained_records_unique(rows, now);
        }
    }
}

} // verus!
