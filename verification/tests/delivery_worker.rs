use cr_api::delivery_worker::{
    claim_delivery_task, complete_delivery_attempt, drain_queue_once, prepare_delivery,
    PoisonReason,
};
use cr_api::store::{IssueRow, Store, TaskRow};

fn issue(id: u128) -> IssueRow {
    IssueRow {
        newsletter_issue_id: id,
        title: "Hello".to_string(),
        text_content: "Hello world".to_string(),
        html_content: "<p>Hello world</p>".to_string(),
        published_at: 0,
    }
}

fn task(issue_id: u128, email: &str) -> TaskRow {
    TaskRow {
        newsletter_issue_id: issue_id,
        subscriber_email: email.to_string(),
    }
}

#[test]
fn claim_returns_the_head_of_the_queue() {
    let mut store = Store::new();
    assert!(claim_delivery_task(&store).is_none());
    store.issue_delivery_queue.push(task(1, "a@example.com"));
    store.issue_delivery_queue.push(task(1, "b@example.com"));
    let claimed = claim_delivery_task(&store).unwrap();
    assert_eq!(claimed.subscriber_email, "a@example.com");
}

#[test]
fn prepare_supplies_issue_content_and_validated_address() {
    let mut store = Store::new();
    store.newsletter_issues.push(issue(1));
    let t = task(1, "a@example.com");
    let (found, email) = prepare_delivery(&store, &t).unwrap();
    assert_eq!(found.title, "Hello");
    assert_eq!(found.text_content, "Hello world");
    assert_eq!(email.as_ref(), "a@example.com");
}

#[test]
fn prepare_classifies_poison_rows() {
    let mut store = Store::new();
    store.newsletter_issues.push(issue(1));
    assert_eq!(
        prepare_delivery(&store, &task(2, "a@example.com")).unwrap_err(),
        PoisonReason::MissingIssue
    );
    assert_eq!(
        prepare_delivery(&store, &task(1, "not-an-address")).unwrap_err(),
        PoisonReason::InvalidEmail
    );
}

#[test]
fn completion_deletes_the_row_and_transient_failure_keeps_it() {
    let mut store = Store::new();
    store.newsletter_issues.push(issue(1));
    store.issue_delivery_queue.push(task(1, "a@example.com"));
    store.issue_delivery_queue.push(task(1, "b@example.com"));

    let claimed = claim_delivery_task(&store).unwrap();

    // A transient send failure leaves the row claimable.
    complete_delivery_attempt(&mut store, &claimed, false);
    assert_eq!(store.issue_delivery_queue.len(), 2);

    // A confirmed send deletes exactly that task's row.
    complete_delivery_attempt(&mut store, &claimed, true);
    assert_eq!(store.issue_delivery_queue.len(), 1);
    assert_eq!(store.issue_delivery_queue[0].subscriber_email, "b@example.com");
}

#[test]
fn a_pass_deletes_exactly_sent_and_poison_rows() {
    let mut store = Store::new();
    store.newsletter_issues.push(issue(1));
    store.issue_delivery_queue.push(task(1, "sent@example.com"));
    store.issue_delivery_queue.push(task(1, "kept@example.com"));
    store.issue_delivery_queue.push(task(1, "not-an-address"));
    store.issue_delivery_queue.push(task(99, "orphaned@example.com"));

    // Send succeeds for the first row and fails transiently for the rest.
    let send_ok = vec![true, false, false, false];
    drain_queue_once(&mut store, &send_ok);

    // Deleted if and only if sent or poison: only the transiently failed
    // deliverable row remains.
    assert_eq!(store.issue_delivery_queue.len(), 1);
    assert_eq!(store.issue_delivery_queue[0].subscriber_email, "kept@example.com");

    // Once the fault clears, a later pass drains it.
    let send_ok = vec![true];
    drain_queue_once(&mut store, &send_ok);
    assert_eq!(store.issue_delivery_queue.len(), 0);
}
