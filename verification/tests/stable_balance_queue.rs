use breez_cross_chain::models::{SdkEvent, StableBalanceConversionKind};
use breez_cross_chain::stable_balance::queue::{
    backoff_secs, ConversionQueue, ConversionTask, PendingConversion, PendingState, TaskOutcome,
};

#[test]
fn backoff_doubles_from_thirty_seconds_and_caps_at_an_hour() {
    assert_eq!(backoff_secs(1), 30);
    assert_eq!(backoff_secs(2), 60);
    assert_eq!(backoff_secs(3), 120);
    assert_eq!(backoff_secs(7), 1_920);
    assert_eq!(backoff_secs(8), 3_600);
    assert_eq!(backoff_secs(9), 3_600);
    // No overflow however long the outage.
    assert_eq!(backoff_secs(u32::MAX), 3_600);
}

#[test]
fn a_failed_auto_convert_stays_queued_but_is_not_due_until_the_backoff_elapses() {
    let mut queue = ConversionQueue::new();
    let now = 1_000_000;
    queue.push_auto_convert();
    assert!(matches!(queue.next_task(now), Some(ConversionTask::AutoConvert)));
    assert_eq!(queue.retry_delay(now), None);

    let (delay, failures) = queue.retry_later(&ConversionTask::AutoConvert, now);
    assert_eq!((delay, failures), (30, 1));
    // Still queued, so a fresh trigger collapses into it rather than
    // starting a parallel attempt...
    queue.push_auto_convert();
    // ...but it is not handed out until it is due.
    assert!(queue.next_task(now + 2).is_none());
    let remaining = queue.retry_delay(now + 2).expect("under backoff");
    assert!(remaining <= 30 && remaining > 25);

    // Each further failure doubles the wait.
    assert_eq!(queue.retry_later(&ConversionTask::AutoConvert, now), (60, 2));
    assert_eq!(queue.retry_later(&ConversionTask::AutoConvert, now), (120, 3));

    // Success clears everything.
    queue.complete_task(&ConversionTask::AutoConvert);
    assert_eq!(queue.retry_delay(now), None);
    queue.push_auto_convert();
    assert!(queue.next_task(now).is_some());
    assert_eq!(queue.retry_later(&ConversionTask::AutoConvert, now), (30, 1));
}

#[test]
fn a_deactivation_runs_now_and_is_persisted_until_it_succeeds() {
    let mut queue = ConversionQueue::new();
    let now = 2_000_000;
    let token = "btkn1usdb".to_string();

    // An auto-convert under backoff does not delay the user's deactivation.
    queue.push_auto_convert();
    let _ = queue.retry_later(&ConversionTask::AutoConvert, now);
    let effects = queue.push_deactivation(token.clone());
    assert!(matches!(
        queue.next_task(now),
        Some(ConversionTask::Deactivation(ref t)) if *t == token
    ));
    assert_eq!(queue.retry_delay(now), None);
    assert_eq!(effects.save_deactivation.as_deref(), Some("btkn1usdb"));

    // A failure keeps it queued, backed off, and still persisted.
    let task = ConversionTask::Deactivation(token.clone());
    assert_eq!(queue.retry_later(&task, now), (30, 1));
    assert!(queue.next_task(now).is_none());

    // Success forgets it.
    let effects = queue.complete_task(&task);
    assert!(effects.forget_deactivation);
    assert_eq!(queue.retry_delay(now), None);
}

#[test]
fn clearing_the_queue_drops_the_persisted_deactivation_and_backoff() {
    let mut queue = ConversionQueue::new();
    let now = 3_000_000;
    queue.push_deactivation("btkn1usdb".to_string());
    let _ = queue.retry_later(&ConversionTask::Deactivation("btkn1usdb".to_string()), now);

    let (_cleared, effects) = queue.clear_queue();
    assert!(effects.forget_deactivation);
    assert_eq!(queue.retry_delay(now), None);
    assert!(queue.next_task(now).is_none());
}

#[test]
fn a_failure_reported_for_a_replaced_task_does_not_back_off_the_new_one() {
    let mut queue = ConversionQueue::new();
    let now = 4_000_000;
    queue.push_auto_convert();
    // The deactivation arrived while the auto-convert was running...
    queue.push_deactivation("btkn1usdb".to_string());
    // ...and the auto-convert then failed.
    assert_eq!(queue.retry_later(&ConversionTask::AutoConvert, now), (0, 0));
    assert!(queue.next_task(now).is_some(), "deactivation is due now");
    assert_eq!(queue.retry_delay(now), None);
}

#[test]
fn per_receive_tasks_run_before_the_auto_convert_and_are_deduplicated() {
    let mut queue = ConversionQueue::new();
    queue.push_auto_convert();
    let first = queue.push_per_receive("pay1".to_string(), 10);
    assert!(first.persist_pending && first.notify);
    let again = queue.push_per_receive("pay1".to_string(), 20);
    assert!(!again.persist_pending);
    assert_eq!(queue.pending().len(), 1);
    assert!(matches!(queue.next_task(30), Some(ConversionTask::PerReceive(ref id)) if id == "pay1"));
}

#[test]
fn a_deferred_per_receive_task_blocks_the_auto_convert_until_resolved() {
    let mut queue = ConversionQueue::new();
    queue.push_auto_convert();
    queue.push_per_receive("pay1".to_string(), 10);
    assert!(queue.defer_task("pay1"));
    assert!(queue.next_task(20).is_none());
    assert!(!queue.defer_task("unknown"));
    queue.complete_task(&ConversionTask::PerReceive("pay1".to_string()));
    assert!(matches!(queue.next_task(20), Some(ConversionTask::AutoConvert)));
}

#[test]
fn recovered_conversions_skip_those_already_queued() {
    let mut queue = ConversionQueue::new();
    queue.push_per_receive("pay1".to_string(), 10);
    let persist = queue.recover_pending(vec![
        PendingConversion { payment_id: "pay1".to_string(), state: PendingState::Deferred, created_at: 5 },
        PendingConversion { payment_id: "pay2".to_string(), state: PendingState::Ready, created_at: 6 },
    ]);
    assert!(persist);
    let ids: Vec<&str> = queue.pending().iter().map(|p| p.payment_id.as_str()).collect();
    assert_eq!(ids, vec!["pay1", "pay2"]);
    assert_eq!(queue.pending()[0].state, PendingState::Ready);
}

#[test]
fn a_converted_per_receive_task_also_drops_the_stale_auto_convert() {
    let mut queue = ConversionQueue::new();
    queue.push_auto_convert();
    queue.push_per_receive("pay1".to_string(), 10);
    let task = ConversionTask::PerReceive("pay1".to_string());
    let follow = queue.finish_task(&task, TaskOutcome::Converted(true), 11);
    assert!(follow.mark_completed && follow.emit_completed);
    assert!(follow.effects.persist_pending);
    assert!(queue.next_task(12).is_none());
}

#[test]
fn a_failed_per_receive_task_is_deferred_unless_already_handled() {
    let mut queue = ConversionQueue::new();
    queue.push_per_receive("pay1".to_string(), 10);
    queue.push_per_receive("pay2".to_string(), 10);
    let follow = queue.finish_task(
        &ConversionTask::PerReceive("pay1".to_string()),
        TaskOutcome::Failed { error: "boom".to_string(), duplicate_transfer: false },
        11,
    );
    assert!(follow.effects.persist_pending && !follow.emit_completed);
    assert_eq!(queue.pending()[0].state, PendingState::Deferred);

    let follow = queue.finish_task(
        &ConversionTask::PerReceive("pay2".to_string()),
        TaskOutcome::Failed { error: "dup".to_string(), duplicate_transfer: true },
        12,
    );
    assert!(!follow.mark_completed);
    assert_eq!(queue.pending().len(), 1);
}

#[test]
fn a_failed_auto_convert_is_reported_with_its_retry_delay() {
    let mut queue = ConversionQueue::new();
    queue.push_auto_convert();
    let follow = queue.finish_task(
        &ConversionTask::AutoConvert,
        TaskOutcome::Failed { error: "pool offline".to_string(), duplicate_transfer: false },
        100,
    );
    match follow.failure {
        Some(SdkEvent::StableBalanceConversionFailed { conversion, error, retry_in_secs }) => {
            assert_eq!(conversion, StableBalanceConversionKind::AutoConvert);
            assert_eq!(error, "pool offline");
            assert_eq!(retry_in_secs, 30);
        }
        other => panic!("unexpected follow-up: {other:?}"),
    }
    assert_eq!(queue.retry_delay(110), Some(20));
}

#[test]
fn expired_deferred_tasks_are_swept() {
    let mut queue = ConversionQueue::new();
    queue.push_per_receive("old".to_string(), 1);
    queue.push_per_receive("new".to_string(), 1_000_000);
    queue.defer_task("old");
    queue.defer_task("new");
    let (expired, effects) = queue.clear_expired_tasks(1_000_100);
    assert_eq!(expired, vec!["old".to_string()]);
    assert!(effects.persist_pending);
    assert_eq!(queue.pending().len(), 1);
}
