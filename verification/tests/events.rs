use breez_cross_chain::events::{listener_id, new_listener_id, InternalSyncedEvent, ListenerKind, SyncedEventGate};
use breez_cross_chain::models::{
    AutoOptimizationEvent, Payment, PaymentMethod, PaymentStatus, PaymentType, SdkEvent,
    StableBalanceConversionKind,
};

fn ev(wallet: bool, wallet_state: bool, deposits: bool, lnurl: bool, storage: Option<u32>) -> InternalSyncedEvent {
    InternalSyncedEvent { wallet, wallet_state, deposits, lnurl_metadata: lnurl, storage_incoming: storage }
}

#[test]
fn synced_is_only_emitted_once_the_wallet_synced() {
    let mut gate = SyncedEventGate::new(false);
    assert!(!gate.on_synced(&ev(false, true, true, true, None)));
    assert!(gate.on_synced(&ev(true, false, false, false, Some(1))));
}

#[test]
fn with_real_time_sync_the_first_synced_waits_for_storage_then_wallet() {
    let mut gate = SyncedEventGate::new(true);
    assert!(!gate.on_synced(&ev(false, false, false, false, Some(0))));
    assert!(gate.on_synced(&ev(true, false, false, false, None)));
}

#[test]
fn with_real_time_sync_the_first_synced_waits_for_wallet_then_storage() {
    let mut gate = SyncedEventGate::new(true);
    assert!(!gate.on_synced(&ev(true, false, false, false, None)));
    assert!(gate.on_synced(&ev(false, false, false, false, Some(0))));
}

#[test]
fn a_real_time_sync_failure_releases_a_buffered_wallet_sync() {
    let mut gate = SyncedEventGate::new(true);
    assert!(!gate.on_synced(&ev(true, false, false, false, None)));
    assert!(gate.notify_rtsync_failed());
}

#[test]
fn after_a_real_time_sync_failure_the_wallet_sync_alone_is_enough() {
    let mut gate = SyncedEventGate::new(true);
    assert!(!gate.notify_rtsync_failed());
    assert!(gate.on_synced(&ev(true, false, false, false, None)));
}

#[test]
fn partial_syncs_are_buffered_until_the_wallet_synced() {
    let mut gate = SyncedEventGate::new(false);
    assert!(!gate.on_synced(&ev(false, true, false, false, None)));
    assert!(!gate.on_synced(&ev(false, false, true, false, None)));
    assert!(!gate.on_synced(&ev(false, false, false, true, None)));
    assert!(!gate.on_synced(&ev(false, false, false, false, None)));
    assert!(gate.on_synced(&ev(true, false, false, false, None)));
}

#[test]
fn a_full_sync_is_emitted_at_once_and_an_empty_one_never() {
    let mut gate = SyncedEventGate::new(false);
    assert!(!gate.on_synced(&ev(false, false, false, false, None)));
    assert!(gate.on_synced(&ev(true, true, true, true, Some(1))));
}

#[test]
fn later_syncs_are_emitted_when_they_bring_something() {
    let mut gate = SyncedEventGate::new(true);
    let mut count = 0;
    let reports = [
        ev(true, false, false, false, Some(0)),
        ev(false, true, false, false, None),
        ev(false, false, true, false, None),
        ev(false, false, false, true, None),
        ev(false, false, false, false, Some(1)),
        ev(false, false, false, false, Some(0)),
        ev(true, false, false, false, None),
    ];
    let expected = [1, 2, 3, 4, 5, 5, 6];
    for (report, want) in reports.iter().zip(expected.iter()) {
        if gate.on_synced(report) {
            count += 1;
        }
        assert_eq!(count, *want);
    }
}

#[test]
fn an_empty_sync_after_the_wallet_synced_is_not_emitted() {
    let mut gate = SyncedEventGate::new(false);
    assert!(gate.on_synced(&ev(true, false, false, false, None)));
    assert!(!gate.on_synced(&ev(false, false, false, false, None)));
    assert!(gate.on_synced(&ev(false, true, false, false, None)));
}

#[test]
fn merging_reports_keeps_every_flag_and_sums_storage() {
    let a = ev(true, false, false, false, Some(3));
    let b = ev(false, true, false, false, Some(4));
    let m = a.merge(&b);
    assert_eq!(m, ev(true, true, false, false, Some(7)));
    assert_eq!(m, b.merge(&a));
    assert_eq!(ev(false, false, false, false, Some(u32::MAX)).merge(&ev(false, false, false, false, Some(5))).storage_incoming, Some(u32::MAX));
    assert_eq!(InternalSyncedEvent::default().merge(&a), a);
    assert_eq!(ev(false, false, false, false, None).merge(&ev(false, false, false, false, Some(2))).storage_incoming, Some(2));
}

#[test]
fn any_counts_an_empty_storage_pull_but_any_non_zero_does_not() {
    let e = ev(false, false, false, false, Some(0));
    assert!(e.any());
    assert!(!e.any_non_zero());
    assert!(!InternalSyncedEvent::default().any());
}

fn payment(status: PaymentStatus) -> Payment {
    Payment {
        id: "pay_1".to_string(),
        payment_type: PaymentType::Send,
        status,
        amount: 1_000,
        fees: 5,
        timestamp: 1_700_000_000,
        method: PaymentMethod::Spark,
        details: None,
        conversion_details: None,
    }
}

#[test]
fn a_payment_event_follows_the_payment_status() {
    assert!(matches!(SdkEvent::from_payment(payment(PaymentStatus::Completed)), SdkEvent::PaymentSucceeded { .. }));
    assert!(matches!(SdkEvent::from_payment(payment(PaymentStatus::Pending)), SdkEvent::PaymentPending { .. }));
    assert!(matches!(SdkEvent::from_payment(payment(PaymentStatus::Failed)), SdkEvent::PaymentFailed { .. }));
}

#[test]
fn events_describe_themselves_in_one_line() {
    assert_eq!(SdkEvent::Synced.describe(), "Synced");
    assert_eq!(SdkEvent::NewDeposits { new_deposits: Vec::new() }.describe(), "NewDeposits[0]");
    assert_eq!(
        SdkEvent::PaymentSucceeded { payment: payment(PaymentStatus::Completed) }.describe(),
        "PaymentSucceeded(pay_1)"
    );
    assert_eq!(
        SdkEvent::AutoOptimization {
            optimization_event: AutoOptimizationEvent::RoundCompleted { current_round: 1, total_rounds: 3 }
        }
        .describe(),
        "AutoOptimization: RoundCompleted { current_round: 1, total_rounds: 3 }"
    );
    assert_eq!(
        SdkEvent::AutoOptimization {
            optimization_event: AutoOptimizationEvent::Failed { error: "no \"leaves\"".to_string() }
        }
        .describe(),
        "AutoOptimization: Failed { error: \"no \\\"leaves\\\"\" }"
    );
    assert_eq!(
        SdkEvent::StableBalanceConversionFailed {
            conversion: StableBalanceConversionKind::AutoConvert,
            error: "x".to_string(),
            retry_in_secs: 30,
        }
        .describe(),
        "StableBalanceConversionFailed(AutoConvert, retry in 30s)"
    );
}

#[test]
fn listener_ids_carry_the_registry_counter_and_a_uuid() {
    assert_eq!(
        listener_id(ListenerKind::External, 7, "00000000-0000-4000-8000-000000000001"),
        "listener_7-00000000-0000-4000-8000-000000000001"
    );
    let id = new_listener_id(ListenerKind::Internal, 3);
    assert!(id.starts_with("internal_3-"));
    assert_eq!(id.len(), "internal_3-".len() + 36);
    assert_ne!(id, new_listener_id(ListenerKind::Internal, 3));
}

#[test]
fn listener_ids_differ_across_counters_and_registries() {
    let uuid = "00000000-0000-4000-8000-000000000001";
    assert_ne!(listener_id(ListenerKind::External, 1, uuid), listener_id(ListenerKind::External, 11, uuid));
    assert_ne!(listener_id(ListenerKind::External, 1, uuid), listener_id(ListenerKind::Internal, 1, uuid));
    assert_ne!(listener_id(ListenerKind::External, 1, "1-x"), listener_id(ListenerKind::External, 11, "x"));
}
