//! Delta-cache behaviour: suppression, publication, age-based
//! republication, and the no-cache-age mode.

use pullcore::cache::DeltaCache;
use pullcore::pull::{run_cycle, BatchResult};
use pullcore::task::{Node, Prop, Task, TaskSet};
use pullcore::value::{RawValue, Scalar};

fn fbits(x: f64) -> u64 {
    x.to_bits()
}

fn one_value_node(delta: Option<f64>) -> TaskSet {
    let nodes = vec![Node {
        tasks: vec![Task {
            oid: 0,
            prop: Prop::Value,
            idx: None,
            transforms: vec![],
            delta: delta.map(fbits),
        }],
    }];
    TaskSet::new(nodes, 1).unwrap()
}

fn float_batch(x: f64) -> BatchResult {
    BatchResult::Read(vec![Some(RawValue::Scalar(Scalar::Float(fbits(x))))])
}

#[test]
fn delta_suppression_and_publication() {
    let cfg = one_value_node(Some(0.5));
    let mut cache = DeltaCache::new(Some(1_000_000), 1);
    // Baseline.
    assert!(run_cycle(&cfg, &float_batch(20.0), &mut cache, 100).events[0].is_some());
    // Within the threshold: not published, cache not updated.
    let ts_before = match &cache.slots[0] {
        Some(e) => e.ts,
        None => panic!("baseline should be cached"),
    };
    assert!(run_cycle(&cfg, &float_batch(20.3), &mut cache, 200).events[0].is_none());
    let ts_after = match &cache.slots[0] {
        Some(e) => e.ts,
        None => panic!("baseline should still be cached"),
    };
    assert_eq!(ts_before, ts_after);
    // Exactly the threshold counts as changed: published, new baseline.
    assert!(run_cycle(&cfg, &float_batch(20.5), &mut cache, 300).events[0].is_some());
    match &cache.slots[0] {
        Some(e) => assert_eq!(e.ts, 300),
        None => panic!("new baseline should be cached"),
    }
    // And the next suppression compares against the new baseline.
    assert!(run_cycle(&cfg, &float_batch(20.6), &mut cache, 400).events[0].is_none());
}

#[test]
fn no_delta_means_any_difference_publishes() {
    let cfg = one_value_node(None);
    let mut cache = DeltaCache::new(Some(1_000_000), 1);
    assert!(run_cycle(&cfg, &float_batch(1.0), &mut cache, 100).events[0].is_some());
    // Unchanged value: suppressed.
    assert!(run_cycle(&cfg, &float_batch(1.0), &mut cache, 200).events[0].is_none());
    // The tiniest change: published.
    let tiny = f64::from_bits(1.0f64.to_bits() + 1);
    assert!(run_cycle(&cfg, &float_batch(tiny), &mut cache, 300).events[0].is_some());
}

#[test]
fn age_based_republish() {
    let cfg = one_value_node(Some(0.5));
    let mut cache = DeltaCache::new(Some(100), 1);
    assert!(run_cycle(&cfg, &float_batch(20.0), &mut cache, 1000).events[0].is_some());
    // Unchanged and young: suppressed.
    assert!(run_cycle(&cfg, &float_batch(20.0), &mut cache, 1050).events[0].is_none());
    // At exactly the maximum age the entry is not yet older than it:
    // still suppressed.
    assert!(run_cycle(&cfg, &float_batch(20.0), &mut cache, 1100).events[0].is_none());
    // One instant past the maximum age: republished though unchanged,
    // and the baseline is restamped.
    assert!(run_cycle(&cfg, &float_batch(20.0), &mut cache, 1101).events[0].is_some());
    match &cache.slots[0] {
        Some(e) => assert_eq!(e.ts, 1101),
        None => panic!("republished baseline should be cached"),
    }
}

#[test]
fn no_cache_age_still_filters_and_caches() {
    // Without a maximum cache age there is no heartbeat, but the change
    // filter still works and published events are still cached.
    let cfg = one_value_node(Some(0.5));
    let mut cache = DeltaCache::new(None, 1);
    assert!(run_cycle(&cfg, &float_batch(20.0), &mut cache, 100).events[0].is_some());
    assert!(cache.slots[0].is_some());
    // Within the delta threshold: suppressed, however much later.
    assert!(run_cycle(&cfg, &float_batch(20.3), &mut cache, 1_000_000).events[0].is_none());
    // Beyond the threshold: published, new baseline.
    assert!(run_cycle(&cfg, &float_batch(21.0), &mut cache, 2_000_000).events[0].is_some());
    match &cache.slots[0] {
        Some(e) => assert_eq!(e.ts, 2_000_000),
        None => panic!("new baseline should be cached"),
    }
}

#[test]
fn non_numeric_values_fall_back_to_equality() {
    // A delta threshold is set, but byte-string values do not convert
    // to numbers: the filter falls back to structural equality.
    let cfg = one_value_node(Some(0.5));
    let mut cache = DeltaCache::new(Some(1_000_000), 1);
    let s = |bytes: &[u8]| BatchResult::Read(vec![Some(RawValue::Scalar(Scalar::Str(bytes.to_vec())))]);
    assert!(run_cycle(&cfg, &s(b"on"), &mut cache, 100).events[0].is_some());
    assert!(run_cycle(&cfg, &s(b"on"), &mut cache, 200).events[0].is_none());
    assert!(run_cycle(&cfg, &s(b"off"), &mut cache, 300).events[0].is_some());
}

#[test]
fn array_values_compare_element_wise() {
    let cfg = one_value_node(None);
    let mut cache = DeltaCache::new(Some(1_000_000), 1);
    let a = |x: i64, y: f64| {
        BatchResult::Read(vec![Some(RawValue::Array(vec![
            Scalar::Int(x),
            Scalar::Float(fbits(y)),
        ]))])
    };
    assert!(run_cycle(&cfg, &a(1, 2.0), &mut cache, 100).events[0].is_some());
    assert!(run_cycle(&cfg, &a(1, 2.0), &mut cache, 200).events[0].is_none());
    assert!(run_cycle(&cfg, &a(1, 2.5), &mut cache, 300).events[0].is_some());
}

#[test]
fn status_change_always_publishes() {
    let nodes = vec![Node {
        tasks: vec![Task {
            oid: 0,
            prop: Prop::Status,
            idx: None,
            transforms: vec![],
            delta: None,
        }],
    }];
    let cfg = TaskSet::new(nodes, 1).unwrap();
    let mut cache = DeltaCache::new(Some(1_000_000), 1);
    let status = |s: i64| BatchResult::Read(vec![Some(RawValue::Scalar(Scalar::Int(s)))]);
    assert!(run_cycle(&cfg, &status(1), &mut cache, 100).events[0].is_some());
    assert!(run_cycle(&cfg, &status(1), &mut cache, 200).events[0].is_none());
    assert!(run_cycle(&cfg, &status(2), &mut cache, 300).events[0].is_some());
}
