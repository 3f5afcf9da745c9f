//! Scheduler decisions and the output topic convention.

use pullcore::sched::{next_tick, tick_overrun};
use pullcore::topic::topic_for_oid;

#[test]
fn missed_ticks_are_skipped_to_the_next_boundary() {
    // The cycle overran two and a half intervals: the next tick is the
    // next schedule boundary, not a burst of catch-up ticks.
    assert_eq!(next_tick(0, 100, 250), 300);
    // Just before a boundary.
    assert_eq!(next_tick(0, 100, 299), 300);
    // Exactly on a boundary: strictly the next one.
    assert_eq!(next_tick(0, 100, 300), 400);
    // An anchored schedule keeps its phase.
    assert_eq!(next_tick(40, 100, 353), 440);
    // No overrun at all: the immediately following boundary.
    assert_eq!(next_tick(0, 100, 10), 100);
}

#[test]
fn overrun_warning_is_strict() {
    assert!(!tick_overrun(1000, 1100, 100));
    assert!(tick_overrun(1000, 1101, 100));
    assert!(!tick_overrun(1000, 1000, 100));
}

#[test]
fn topic_follows_the_raw_state_convention() {
    assert_eq!(topic_for_oid(&b"sensor:t1".to_vec()), b"RAW/sensor/t1".to_vec());
    assert_eq!(topic_for_oid(&b"unit:area:u7".to_vec()), b"RAW/unit/area/u7".to_vec());
    assert_eq!(topic_for_oid(&b"".to_vec()), b"RAW/".to_vec());
}
