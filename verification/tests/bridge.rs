//! End-to-end tests of the watcher/reporter bridge, run over the real relay.

use toplevel_watcher::relay::create_relay;
use toplevel_watcher::reporter::DeliveryOutcome;
use toplevel_watcher::reporter::IterationError;
use toplevel_watcher::reporter::WindowWatcher;
use toplevel_watcher::tracker::require_toplevel_capability;
use toplevel_watcher::tracker::DispatchStep;
use toplevel_watcher::tracker::StartupError;
use toplevel_watcher::tracker::ToplevelTracker;
use toplevel_watcher::tracker::UpdateOutcome;
use toplevel_watcher::DELIVERY_TIMEOUT_MILLIS;

#[test]
fn coalescing_emits_once() {
    let (sender, receiver) = create_relay();
    let mut tracker = ToplevelTracker::new(sender);
    let mut watcher = WindowWatcher::new(receiver);

    let first = tracker.handle_update(
        &"surface-1".to_string(),
        &"editor".to_string(),
        &"notes.txt".to_string(),
        true,
    );
    assert!(matches!(first, UpdateOutcome::Emitted(_)));

    // Repeated notifications for the same activated surface, even with a new
    // title, are coalesced into no further emission.
    let second = tracker.handle_update(
        &"surface-1".to_string(),
        &"editor".to_string(),
        &"notes.txt (modified)".to_string(),
        true,
    );
    assert!(matches!(second, UpdateOutcome::NoEmission));
    let third = tracker.handle_update(
        &"surface-1".to_string(),
        &"editor".to_string(),
        &"notes.txt (modified)".to_string(),
        true,
    );
    assert!(matches!(third, UpdateOutcome::NoEmission));

    let drained = watcher.drain();
    assert_eq!(drained.len(), 1);
    assert_eq!(drained[0].app_id, "editor");
    assert_eq!(drained[0].title, "notes.txt");
}

#[test]
fn not_activated_produces_no_emission() {
    let (sender, receiver) = create_relay();
    let mut tracker = ToplevelTracker::new(sender);
    let mut watcher = WindowWatcher::new(receiver);

    let outcome = tracker.handle_update(
        &"surface-1".to_string(),
        &"editor".to_string(),
        &"notes.txt".to_string(),
        false,
    );
    assert!(matches!(outcome, UpdateOutcome::NoEmission));
    assert_eq!(watcher.drain().len(), 0);
    assert!(watcher.current().is_none());
}

#[test]
fn transition_detection_emits_three() {
    let (sender, receiver) = create_relay();
    let mut tracker = ToplevelTracker::new(sender);
    let mut watcher = WindowWatcher::new(receiver);

    let a1 = tracker.handle_update(
        &"surface-a".to_string(),
        &"editor".to_string(),
        &"draft".to_string(),
        true,
    );
    let b = tracker.handle_update(
        &"surface-b".to_string(),
        &"browser".to_string(),
        &"docs".to_string(),
        true,
    );
    let a2 = tracker.handle_update(
        &"surface-a".to_string(),
        &"editor".to_string(),
        &"draft (edited)".to_string(),
        true,
    );

    match a1 {
        UpdateOutcome::Emitted(snapshot) => {
            assert_eq!(snapshot.app_id, "editor");
            assert_eq!(snapshot.title, "draft");
        },
        _ => panic!("expected an emission for the first activation"),
    }
    match b {
        UpdateOutcome::Emitted(snapshot) => {
            assert_eq!(snapshot.app_id, "browser");
            assert_eq!(snapshot.title, "docs");
        },
        _ => panic!("expected an emission for the switch to the second surface"),
    }
    match a2 {
        UpdateOutcome::Emitted(snapshot) => {
            assert_eq!(snapshot.app_id, "editor");
            assert_eq!(snapshot.title, "draft (edited)");
        },
        _ => panic!("expected an emission for the switch back"),
    }

    let drained = watcher.drain();
    assert_eq!(drained.len(), 3);
    assert_eq!(drained[0].title, "draft");
    assert_eq!(drained[1].title, "docs");
    assert_eq!(drained[2].title, "draft (edited)");
}

#[test]
fn bulk_drain_keeps_latest() {
    let (sender, receiver) = create_relay();
    let mut tracker = ToplevelTracker::new(sender);
    let mut watcher = WindowWatcher::new(receiver);

    for i in 0..5 {
        let outcome = tracker.handle_update(
            &format!("surface-{i}"),
            &format!("app-{i}"),
            &format!("title-{i}"),
            true,
        );
        assert!(matches!(outcome, UpdateOutcome::Emitted(_)));
    }

    let drained = watcher.drain();
    assert_eq!(drained.len(), 5);
    let current = watcher.current().expect("a snapshot must be retained");
    assert_eq!(current.app_id, "app-4");
    assert_eq!(current.title, "title-4");
}

#[test]
fn no_emission_tick_is_success() {
    let (_sender, receiver) = create_relay();
    let mut watcher = WindowWatcher::new(receiver);

    let drained = watcher.drain();
    assert_eq!(drained.len(), 0);
    // Nothing to deliver, so the tick makes no sink call and closes with no
    // outcome; that is a success.
    assert!(watcher.current().is_none());
    assert!(watcher.finish_tick(None).is_ok());
}

#[test]
fn timeout_does_not_drop_state() {
    let (sender, receiver) = create_relay();
    let mut tracker = ToplevelTracker::new(sender);
    let mut watcher = WindowWatcher::new(receiver);

    tracker.handle_update(
        &"surface-1".to_string(),
        &"editor".to_string(),
        &"notes.txt".to_string(),
        true,
    );
    watcher.drain();

    // A delivery that never resolves within the budget: the runtime maps it
    // to a timed-out outcome, exactly as the surrounding loop would.
    let runtime = tokio::runtime::Builder::new_current_thread()
        .enable_time()
        .build()
        .expect("runtime");
    let outcome = runtime.block_on(async {
        let never = std::future::pending::<Result<(), String>>();
        match tokio::time::timeout(
            std::time::Duration::from_millis(DELIVERY_TIMEOUT_MILLIS),
            never,
        )
        .await
        {
            Ok(Ok(())) => DeliveryOutcome::Delivered,
            Ok(Err(message)) => DeliveryOutcome::Rejected(message),
            Err(_) => DeliveryOutcome::TimedOut,
        }
    });
    assert!(matches!(outcome, DeliveryOutcome::TimedOut));

    // The tick still succeeds and the snapshot is retained for the next one.
    assert!(watcher.finish_tick(Some(outcome)).is_ok());
    let kept = watcher.current().expect("the snapshot must be retained");
    assert_eq!(kept.app_id, "editor");
    assert_eq!(kept.title, "notes.txt");
}

#[test]
fn rejection_is_propagated_and_state_kept() {
    let (sender, receiver) = create_relay();
    let mut tracker = ToplevelTracker::new(sender);
    let mut watcher = WindowWatcher::new(receiver);

    tracker.handle_update(
        &"surface-1".to_string(),
        &"editor".to_string(),
        &"notes.txt".to_string(),
        true,
    );
    watcher.drain();

    let result = watcher.finish_tick(Some(DeliveryOutcome::Rejected("sink refused".to_string())));
    match result {
        Err(IterationError::SinkRejected(message)) => assert_eq!(message, "sink refused"),
        Ok(()) => panic!("a sink rejection must fail the tick"),
    }
    let kept = watcher.current().expect("the snapshot must be retained");
    assert_eq!(kept.title, "notes.txt");
}

#[test]
fn shutdown_propagates_from_dropped_receiver() {
    let (sender, receiver) = create_relay();
    let mut tracker = ToplevelTracker::new(sender);

    // Before shutdown the loop goes round, and a protocol failure is fatal.
    assert!(matches!(tracker.next_dispatch_step(true), DispatchStep::Continue));
    assert!(matches!(
        tracker.next_dispatch_step(false),
        DispatchStep::StopProtocolFailure
    ));

    // The consumer goes away; the very next push attempt observes it and the
    // loop ends as a quiet shutdown, not an error.
    drop(receiver);
    let outcome = tracker.handle_update(
        &"surface-1".to_string(),
        &"editor".to_string(),
        &"notes.txt".to_string(),
        true,
    );
    assert!(matches!(outcome, UpdateOutcome::RelayClosed));
    assert!(matches!(tracker.next_dispatch_step(true), DispatchStep::StopShutdown));
}

#[test]
fn startup_capability_check() {
    assert!(require_toplevel_capability(true).is_ok());
    assert!(matches!(
        require_toplevel_capability(false),
        Err(StartupError::CapabilityMissing)
    ));
}

#[test]
fn surface_closed_changes_nothing() {
    let (sender, receiver) = create_relay();
    let mut tracker = ToplevelTracker::new(sender);
    let mut watcher = WindowWatcher::new(receiver);

    let first = tracker.handle_new(
        &"surface-1".to_string(),
        &"editor".to_string(),
        &"notes.txt".to_string(),
        true,
    );
    assert!(matches!(first, UpdateOutcome::Emitted(_)));

    // Closing the active surface deliberately leaves the state untouched, so
    // a later notification for the same surface is still coalesced.
    tracker.handle_closed(&"surface-1".to_string());
    let after = tracker.handle_update(
        &"surface-1".to_string(),
        &"editor".to_string(),
        &"notes.txt".to_string(),
        true,
    );
    assert!(matches!(after, UpdateOutcome::NoEmission));
    assert_eq!(watcher.drain().len(), 1);
}
