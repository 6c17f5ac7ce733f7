use cr_api::cleanup_worker::{remove_old_idempotency_keys, RETENTION_SECONDS};
use cr_api::http_response::HttpResponse;
use cr_api::store::{IdempotencyRow, Store};

fn record(key: &str, created_at: i64) -> IdempotencyRow {
    IdempotencyRow {
        user_id: 7,
        idempotency_key: key.to_string(),
        created_at,
        response: Some(HttpResponse::text(200, "ok")),
    }
}

#[test]
fn purge_deletes_only_records_past_the_retention_window() {
    // A fabricated clock: "now" is ten days, in seconds.
    let now: i64 = 10 * 86_400;
    let mut store = Store::new();
    store.idempotency.push(record("ancient", 0));
    store.idempotency.push(record("just-expired", now - RETENTION_SECONDS - 1));
    store.idempotency.push(record("on-the-boundary", now - RETENTION_SECONDS));
    store.idempotency.push(record("fresh", now - 60));

    remove_old_idempotency_keys(&mut store, now);

    let keys: Vec<&str> = store
        .idempotency
        .iter()
        .map(|r| r.idempotency_key.as_str())
        .collect();
    assert_eq!(keys, vec!["on-the-boundary", "fresh"]);
}

#[test]
fn purge_leaves_every_other_table_untouched() {
    let now: i64 = 10 * 86_400;
    let mut store = Store::new();
    store.idempotency.push(record("ancient", 0));
    store.issue_delivery_queue.push(cr_api::store::TaskRow {
        newsletter_issue_id: 1,
        subscriber_email: "a@example.com".to_string(),
    });

    remove_old_idempotency_keys(&mut store, now);

    assert_eq!(store.idempotency.len(), 0);
    assert_eq!(store.issue_delivery_queue.len(), 1);
}

#[test]
fn purge_of_an_empty_store_is_a_no_op() {
    let mut store = Store::new();
    remove_old_idempotency_keys(&mut store, 0);
    assert_eq!(store.idempotency.len(), 0);
}
