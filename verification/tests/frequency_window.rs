use rosrust_async::frequency::{HistoryEntry, Tracker, WindowReport};

#[test]
fn fresh_tracker_counts_nothing() {
    let tracker = Tracker::new(5, 1_000);
    assert_eq!(tracker.total(), 0);
    assert_eq!(tracker.window_size(), 5);
    assert_eq!(tracker.latest_stamp_nanos(), 1_000);
}

#[test]
fn window_reports_events_and_duration() {
    let mut tracker = Tracker::new(2, 0);
    tracker.tick();
    tracker.tick();
    tracker.tick();
    let report = tracker.advance_window(1_000_000_000);
    assert_eq!(
        report,
        WindowReport { events: 3, window_nanos: 1_000_000_000, events_total: 3 }
    );
    tracker.tick();
    tracker.tick();
    // the second initial slot leaves: all five events fall in this window
    let report = tracker.advance_window(3_000_000_000);
    assert_eq!(
        report,
        WindowReport { events: 5, window_nanos: 3_000_000_000, events_total: 5 }
    );
    // now the slot rotated in at the first advance leaves
    let report = tracker.advance_window(4_000_000_000);
    assert_eq!(
        report,
        WindowReport { events: 2, window_nanos: 3_000_000_000, events_total: 5 }
    );
}

#[test]
fn clear_resets_counts_and_window() {
    let mut tracker = Tracker::new(3, 10);
    tracker.tick();
    tracker.tick();
    tracker.clear(50);
    assert_eq!(tracker.total(), 0);
    assert_eq!(tracker.latest_stamp_nanos(), 50);
    let report = tracker.advance_window(60);
    assert_eq!(report, WindowReport { events: 0, window_nanos: 10, events_total: 0 });
}

#[test]
fn history_entry_records_its_fields() {
    let entry = HistoryEntry::new(4, 99);
    assert_eq!(entry, HistoryEntry { count: 4, stamp_nanos: 99 });
}
