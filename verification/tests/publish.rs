use cr_api::http_response::HttpResponse;
use cr_api::idempotency::{save_response, try_processing, NextAction, TransactionError};
use cr_api::idempotency_key::IdempotencyKey;
use cr_api::newsletter::{
    enqueue_delivery_tasks, insert_newsletter_issue, publish_newsletter, NewsletterData,
};
use cr_api::store::{Store, SubscriberRow, SubscriberStatus};

fn subscriber(id: u128, email: &str, status: SubscriberStatus) -> SubscriberRow {
    SubscriberRow {
        id,
        email: email.to_string(),
        name: "Ursula".to_string(),
        subscribed_at: 0,
        status,
    }
}

fn valid_form(key: &str) -> NewsletterData {
    NewsletterData::new(
        "Newsletter title".to_string(),
        "Newsletter body as plain text".to_string(),
        "<p>Newsletter body as HTML</p>".to_string(),
        key.to_string(),
    )
}

#[test]
fn publish_enqueues_one_task_per_confirmed_subscriber() {
    let mut store = Store::new();
    store.subscriptions.push(subscriber(1, "a@example.com", SubscriberStatus::Confirmed));
    store.subscriptions.push(subscriber(2, "b@example.com", SubscriberStatus::PendingConfirmation));
    store.subscriptions.push(subscriber(3, "c@example.com", SubscriberStatus::Confirmed));
    store.subscriptions.push(subscriber(4, "d@example.com", SubscriberStatus::Confirmed));

    let outcome = publish_newsletter(&mut store, 7, &valid_form("key-1"), 1_000);
    assert!(outcome.is_ok());

    assert_eq!(store.newsletter_issues.len(), 1);
    assert_eq!(store.newsletter_issues[0].title, "Newsletter title");
    assert_eq!(store.newsletter_issues[0].published_at, 1_000);

    assert_eq!(store.issue_delivery_queue.len(), 3);
    for task in &store.issue_delivery_queue {
        assert_eq!(
            task.newsletter_issue_id,
            store.newsletter_issues[0].newsletter_issue_id
        );
        assert_ne!(task.subscriber_email, "b@example.com");
    }
    let emails: Vec<&str> = store
        .issue_delivery_queue
        .iter()
        .map(|t| t.subscriber_email.as_str())
        .collect();
    assert_eq!(emails, vec!["a@example.com", "c@example.com", "d@example.com"]);

    assert_eq!(store.idempotency.len(), 1);
    assert!(store.idempotency[0].response.is_some());
}

#[test]
fn duplicate_publish_replays_the_cached_outcome() {
    let mut store = Store::new();
    store.subscriptions.push(subscriber(1, "a@example.com", SubscriberStatus::Confirmed));

    let first = publish_newsletter(&mut store, 7, &valid_form("key-1"), 1_000).unwrap();
    let issues = store.newsletter_issues.len();
    let tasks = store.issue_delivery_queue.len();
    let records = store.idempotency.len();

    let second = publish_newsletter(&mut store, 7, &valid_form("key-1"), 9_999).unwrap();
    assert!(first.same_as(&second));
    assert_eq!(store.newsletter_issues.len(), issues);
    assert_eq!(store.issue_delivery_queue.len(), tasks);
    assert_eq!(store.idempotency.len(), records);
}

#[test]
fn same_key_for_another_user_executes_fresh() {
    let mut store = Store::new();
    publish_newsletter(&mut store, 7, &valid_form("key-1"), 1_000).unwrap();
    publish_newsletter(&mut store, 8, &valid_form("key-1"), 1_000).unwrap();
    assert_eq!(store.newsletter_issues.len(), 2);
    assert_eq!(store.idempotency.len(), 2);
}

#[test]
fn interleaved_duplicate_commits_only_once() {
    let mut store = Store::new();
    let key = IdempotencyKey::try_from("key-1".to_string()).unwrap();

    // Two executions of the same key begin before either commits.
    let txn1 = match try_processing(&store, &key, 7, 1_000).unwrap() {
        NextAction::StartProcessing(t) => t,
        NextAction::ReturnSavedResponse(_) => panic!("expected a fresh transaction"),
    };
    let txn2 = match try_processing(&store, &key, 7, 1_001).unwrap() {
        NextAction::StartProcessing(t) => t,
        NextAction::ReturnSavedResponse(_) => panic!("expected a fresh transaction"),
    };

    let committed =
        save_response(&mut store, txn1, HttpResponse::text(200, "first")).unwrap();
    assert_eq!(committed.status, 200);

    // The unique index refuses the second commit; the store is untouched.
    let refused = save_response(&mut store, txn2, HttpResponse::text(200, "second"));
    assert!(matches!(
        refused,
        Err(TransactionError::DuplicateIdempotencyKey)
    ));
    assert_eq!(store.idempotency.len(), 1);

    // The duplicate caller now observes the committed outcome.
    match try_processing(&store, &key, 7, 1_002).unwrap() {
        NextAction::ReturnSavedResponse(saved) => {
            assert!(saved.same_as(&HttpResponse::text(200, "first")));
        }
        NextAction::StartProcessing(_) => panic!("expected the saved response"),
    }
}

#[test]
fn abandoned_transaction_leaves_no_trace() {
    let mut store = Store::new();
    store.subscriptions.push(subscriber(1, "a@example.com", SubscriberStatus::Confirmed));
    let key = IdempotencyKey::try_from("key-1".to_string()).unwrap();

    {
        let mut txn = match try_processing(&store, &key, 7, 1_000).unwrap() {
            NextAction::StartProcessing(t) => t,
            NextAction::ReturnSavedResponse(_) => panic!("expected a fresh transaction"),
        };
        let issue_id =
            insert_newsletter_issue(&mut txn, &store, "Title", "text body", "<p>html</p>", 1_000)
                .unwrap();
        enqueue_delivery_tasks(&mut txn, &store, issue_id);
        assert!(txn.issue.is_some());
        assert_eq!(txn.tasks.len(), 1);
        // The transaction is dropped here: the rollback.
    }

    assert_eq!(store.newsletter_issues.len(), 0);
    assert_eq!(store.issue_delivery_queue.len(), 0);
    assert_eq!(store.idempotency.len(), 0);

    // A retry with the same key is treated as a fresh execution.
    assert!(matches!(
        try_processing(&store, &key, 7, 2_000).unwrap(),
        NextAction::StartProcessing(_)
    ));
}

#[test]
fn too_short_content_is_rejected_without_side_effects() {
    let mut store = Store::new();
    store.subscriptions.push(subscriber(1, "a@example.com", SubscriberStatus::Confirmed));
    let form = NewsletterData::new(
        "Hi".to_string(),
        "Newsletter body as plain text".to_string(),
        "<p>Newsletter body as HTML</p>".to_string(),
        "key-1".to_string(),
    );

    let err = publish_newsletter(&mut store, 7, &form, 1_000).unwrap_err();
    assert_eq!(err.status_code(), 400);
    assert_eq!(err.message(), "Part of the form body has less than 5 characters");
    assert_eq!(store.newsletter_issues.len(), 0);
    assert_eq!(store.issue_delivery_queue.len(), 0);
    assert_eq!(store.idempotency.len(), 0);
}

#[test]
fn invalid_idempotency_key_is_a_bad_request() {
    let mut store = Store::new();
    let form = valid_form("");
    let err = publish_newsletter(&mut store, 7, &form, 1_000).unwrap_err();
    assert_eq!(err.status_code(), 400);
    assert_eq!(store.idempotency.len(), 0);

    let form = valid_form(&"x".repeat(50));
    let err = publish_newsletter(&mut store, 7, &form, 1_000).unwrap_err();
    assert_eq!(err.status_code(), 400);
}

#[test]
fn end_to_end_publish_and_resubmit() {
    let mut store = Store::new();
    store.subscriptions.push(subscriber(1, "a@example.com", SubscriberStatus::Confirmed));
    store.subscriptions.push(subscriber(2, "b@example.com", SubscriberStatus::Confirmed));

    let form = NewsletterData::new(
        "Hello".to_string(),
        "Hello world".to_string(),
        "<p>Hello world</p>".to_string(),
        "abc123".to_string(),
    );

    let first = publish_newsletter(&mut store, 7, &form, 1_000).unwrap();
    assert_eq!(first.status, 303);
    assert_eq!(store.newsletter_issues.len(), 1);
    assert_eq!(store.issue_delivery_queue.len(), 2);
    assert_eq!(store.idempotency.len(), 1);
    assert!(store.idempotency[0].response.is_some());

    let second = publish_newsletter(&mut store, 7, &form, 2_000).unwrap();
    assert!(first.same_as(&second));
    assert_eq!(store.newsletter_issues.len(), 1);
    assert_eq!(store.issue_delivery_queue.len(), 2);
    assert_eq!(store.idempotency.len(), 1);
}

#[test]
fn a_taken_issue_id_fails_the_transaction() {
    let mut store = Store::new();
    store.newsletter_issues.push(cr_api::store::IssueRow {
        newsletter_issue_id: 42,
        title: "Old".to_string(),
        text_content: "Old body".to_string(),
        html_content: "<p>Old body</p>".to_string(),
        published_at: 0,
    });
    let key = IdempotencyKey::try_from("key-1".to_string()).unwrap();
    let mut txn = match try_processing(&store, &key, 7, 1_000).unwrap() {
        NextAction::StartProcessing(t) => t,
        NextAction::ReturnSavedResponse(_) => panic!("expected a fresh transaction"),
    };
    let refused = cr_api::newsletter::insert_newsletter_issue_with_id(
        &mut txn,
        &store,
        42,
        "Title",
        "text body",
        "<p>html</p>",
        1_000,
    );
    assert!(matches!(refused, Err(TransactionError::DuplicateIssueId)));
    assert!(txn.issue.is_none());
}

#[test]
fn a_record_without_an_outcome_is_reported() {
    let mut store = Store::new();
    store.idempotency.push(cr_api::store::IdempotencyRow {
        user_id: 7,
        idempotency_key: "key-1".to_string(),
        created_at: 0,
        response: None,
    });
    let key = IdempotencyKey::try_from("key-1".to_string()).unwrap();
    let err = try_processing(&store, &key, 7, 1_000).unwrap_err();
    assert!(matches!(
        err,
        cr_api::idempotency::IdempotencyError::MissingSavedResponse
    ));
}
