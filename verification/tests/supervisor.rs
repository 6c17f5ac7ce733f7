use cr_api::supervisor::{report_exit, TaskOutcome};

#[test]
fn each_outcome_reports_its_own_line() {
    assert_eq!(report_exit("API", &TaskOutcome::Completed), "API has exited");
    assert_eq!(
        report_exit("Email delivery worker", &TaskOutcome::Failed("boom".to_string())),
        "Email delivery worker failed"
    );
    assert_eq!(
        report_exit(
            "Idempotency cleanup worker",
            &TaskOutcome::Aborted("cancelled".to_string())
        ),
        "Idempotency cleanup worker' task failed to complete"
    );
}

#[test]
fn the_error_message_is_kept_for_the_log() {
    assert!(TaskOutcome::Completed.error_message().is_none());
    assert_eq!(
        TaskOutcome::Failed("boom".to_string()).error_message().unwrap(),
        "boom"
    );
}
