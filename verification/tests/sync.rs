use player_core::drift_skip;
use player_core::drift_sleep;
use player_core::presentation_instant;
use player_core::take_latest;
use player_core::ConverterSetup;
use player_core::SyncAction;
use player_core::SyncClock;

#[test]
fn anchor_established_once() {
    let mut clock = SyncClock::new();
    assert!(!clock.is_established());

    // A chunk with no timestamp cannot establish anything.
    let action = clock.on_chunk(None, 1_000_000);
    assert_eq!(action, SyncAction::NoTimestamp);
    assert!(!clock.is_established());

    // The first timestamped chunk anchors the clock: now - elapsed stream time.
    let action = clock.on_chunk(Some(2_000_000), 5_000_000);
    assert_eq!(action, SyncAction::Anchored);
    assert!(clock.is_established());
    assert_eq!(clock.anchor_value(), Some(3_000_000));

    // Later chunks never move the anchor.
    let _ = clock.on_chunk(Some(2_500_000), 5_600_000);
    assert_eq!(clock.anchor_value(), Some(3_000_000));
    let _ = clock.on_chunk(None, 9_000_000);
    assert_eq!(clock.anchor_value(), Some(3_000_000));
}

#[test]
fn drift_measured_against_anchor() {
    let mut clock = SyncClock::new();
    let _ = clock.on_chunk(Some(0), 1_000_000);
    assert_eq!(clock.anchor_value(), Some(1_000_000));

    // Stream time 2 s, wall time 1.5 s past the anchor: 0.5 s ahead.
    let action = clock.on_chunk(Some(2_000_000), 2_500_000);
    assert_eq!(action, SyncAction::Ahead { surplus: 500_000 });

    // Stream time 2 s, wall time 2.25 s past the anchor: 0.25 s behind.
    let action = clock.on_chunk(Some(2_000_000), 3_250_000);
    assert_eq!(action, SyncAction::Behind { deficit: 250_000 });

    // Exactly in step counts as a zero deficit.
    let action = clock.on_chunk(Some(2_000_000), 3_000_000);
    assert_eq!(action, SyncAction::Behind { deficit: 0 });
}

#[test]
fn reset_clears_anchor() {
    let mut clock = SyncClock::new();
    let _ = clock.on_chunk(Some(0), 42);
    assert!(clock.is_established());
    clock.reset();
    assert!(!clock.is_established());
    // Resetting an unestablished clock is harmless.
    clock.reset();
    assert!(!clock.is_established());
}

#[test]
fn drift_sleep_leaves_slack() {
    // Within the slack: not worth sleeping.
    assert_eq!(drift_sleep(0), None);
    assert_eq!(drift_sleep(1000), None);
    // Beyond it: sleep the surplus minus the slack, to avoid oversleeping.
    assert_eq!(drift_sleep(1001), Some(1));
    assert_eq!(drift_sleep(500_000), Some(499_000));
}

#[test]
fn drift_skip_threshold() {
    assert_eq!(drift_skip(1000), None);
    assert_eq!(drift_skip(2500), Some(2500));
}

#[test]
fn presentation_instant_needs_anchor_and_timestamp() {
    assert_eq!(presentation_instant(None, Some(5)), None);
    assert_eq!(presentation_instant(Some(5), None), None);
    assert_eq!(presentation_instant(None, None), None);
    assert_eq!(
        presentation_instant(Some(3_000_000), Some(40_000)),
        Some(3_040_000)
    );
    // A sum past the clock's range is not a usable instant.
    assert_eq!(presentation_instant(Some(i64::MAX), Some(1)), None);
}

#[test]
fn take_latest_keeps_freshest() {
    let (got, skipped) = take_latest(vec![10u32, 20, 30]);
    assert_eq!(got, Some(30));
    assert_eq!(skipped, 2);
    let (got, skipped) = take_latest(vec![7u32]);
    assert_eq!(got, Some(7));
    assert_eq!(skipped, 0);
    let (got, skipped) = take_latest(Vec::<u32>::new());
    assert_eq!(got, None);
    assert_eq!(skipped, 0);
}

#[test]
fn converter_rebuilt_only_on_change() {
    let mut setup = ConverterSetup { format: 0, width: 1920, height: 1080 };
    assert!(setup.matches_input(0, 1920, 1080));
    // Same parameters: the cached converter is kept.
    assert!(!setup.rebuild_for(0, 1920, 1080));
    // A new pixel format forces a rebuild.
    assert!(setup.rebuild_for(23, 1920, 1080));
    assert!(setup.matches_input(23, 1920, 1080));
    // A new size forces a rebuild.
    assert!(setup.rebuild_for(23, 1280, 720));
    assert_eq!(setup.width, 1280);
    assert_eq!(setup.height, 720);
}
