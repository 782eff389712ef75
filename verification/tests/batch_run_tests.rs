use impressy::batch_run::{BatchRun, PublishResult};
use impressy::ui_message::{BatchItemOutcome, ErrorKind, UiMessage};

#[test]
fn batch_failures_keep_each_item_reason() {
    let mut run = BatchRun::new(3);
    run.record_output("a".to_string(), 10, 20, 300, Some(PublishResult::Written));
    run.record_failed_item("b".to_string(), ErrorKind::Encode);
    run.record_output("c".to_string(), 10, 20, 300, Some(PublishResult::Failed(ErrorKind::DiskFull)));
    assert!(run.is_finished());
    let lines = run.lines();
    assert_eq!(lines[0].outcome, BatchItemOutcome::Success);
    assert_eq!(lines[0].width, Some(10));
    assert_eq!(lines[1].outcome, BatchItemOutcome::Failure(ErrorKind::Encode));
    assert_eq!(lines[1].bytes, None);
    assert_eq!(lines[2].outcome, BatchItemOutcome::Failure(ErrorKind::DiskFull));
    assert_eq!(run.retry_indices(), &vec![1, 2]);
    assert_eq!(
        run.status(),
        UiMessage::BatchComplete { successes: 1, failures: 2, total: 3 }
    );
}

#[test]
fn cancelled_batch_reports_unstarted_items_without_writing_them() {
    let names = vec!["first".to_string(), "second".to_string(), String::new()];
    let mut run = BatchRun::new(3);
    run.record_output("first".to_string(), 4, 4, 10, Some(PublishResult::Written));
    run.cancel_rest(&names);
    let lines = run.lines();
    assert_eq!(lines.len(), 3);
    assert_eq!(lines[1].name, "second");
    assert_eq!(lines[1].outcome, BatchItemOutcome::Cancelled);
    assert_eq!(lines[2].name, "#3");
    assert_eq!(lines[2].width, None);
    assert_eq!(run.status(), UiMessage::BatchCancelled { successes: 1, total: 3 });
}

#[test]
fn skipped_outputs_are_failures_but_not_retried() {
    let mut run = BatchRun::new(2);
    run.record_output("a".to_string(), 1, 1, 1, Some(PublishResult::Skipped));
    run.record_output("b".to_string(), 1, 1, 1, None);
    assert_eq!(run.lines()[0].outcome, BatchItemOutcome::Failure(ErrorKind::Skipped));
    assert_eq!(run.lines()[1].outcome, BatchItemOutcome::Failure(ErrorKind::Skipped));
    assert!(run.retry_indices().is_empty());
    assert_eq!(run.next_index(), 2);
}
