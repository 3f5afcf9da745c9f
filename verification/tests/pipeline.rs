//! End-to-end pull-cycle behaviour: extraction, write merging, failure
//! consolidation and the interaction with the delta cache.

use pullcore::cache::DeltaCache;
use pullcore::cycle::{extract, ExtractErr, Prepared};
use pullcore::pull::{run_cycle, BatchResult};
use pullcore::task::{Node, Prop, Task, TaskSet};
use pullcore::value::{value_eq, RawValue, Scalar};
use pullcore::{ITEM_STATUS_ERROR, ITEM_STATUS_OK};

fn fbits(x: f64) -> u64 {
    x.to_bits()
}

fn scalar_f(x: f64) -> Scalar {
    Scalar::Float(fbits(x))
}

fn val_array(items: Vec<Scalar>) -> RawValue {
    RawValue::Array(items)
}

fn task(oid: usize, prop: Prop, idx: Option<usize>, delta: Option<f64>) -> Task {
    Task { oid, prop, idx, transforms: vec![], delta: delta.map(fbits) }
}

fn expect_event(ev: &Option<Prepared>) -> &Prepared {
    ev.as_ref().expect("event should be published")
}

#[test]
fn index_zero_scalar_fallback() {
    // A task with index 0 against a scalar succeeds and uses the scalar.
    let v = RawValue::Scalar(Scalar::Int(7));
    match extract(&v, Some(0)) {
        Ok(RawValue::Scalar(Scalar::Int(7))) => {}
        _ => panic!("index 0 against a scalar should yield the scalar"),
    }
    // The same task against an array uses element 0.
    let a = val_array(vec![Scalar::Int(1), Scalar::Int(2)]);
    match extract(&a, Some(0)) {
        Ok(RawValue::Scalar(Scalar::Int(1))) => {}
        _ => panic!("index 0 against an array should yield element 0"),
    }
}

#[test]
fn extraction_errors() {
    let a = val_array(vec![Scalar::Int(1)]);
    match extract(&a, Some(5)) {
        Err(ExtractErr::IndexOutOfRange) => {}
        _ => panic!("index past the end should fail"),
    }
    let s = RawValue::Scalar(Scalar::Bool(true));
    match extract(&s, Some(1)) {
        Err(ExtractErr::NotAnArray) => {}
        _ => panic!("nonzero index against a scalar should fail"),
    }
    match extract(&a, None) {
        Ok(RawValue::Array(items)) => assert_eq!(items.len(), 1),
        _ => panic!("no index should pass the whole reading through"),
    }
}

#[test]
fn out_of_range_forces_error_despite_other_success() {
    // One value task misses the array, an independent status task
    // succeeds; the item must end with the error status and no value.
    let nodes = vec![Node {
        tasks: vec![
            task(0, Prop::Status, Some(0), None),
            task(0, Prop::Value, Some(5), None),
        ],
    }];
    let cfg = TaskSet::new(nodes, 1).unwrap();
    let mut cache = DeltaCache::new(Some(1_000_000), 1);
    let batch = BatchResult::Read(vec![Some(val_array(vec![Scalar::Int(1)]))]);
    let out = run_cycle(&cfg, &batch, &mut cache, 10);
    assert!(!out.poc);
    let ev = expect_event(&out.events[0]);
    assert_eq!(ev.state.status, ITEM_STATUS_ERROR);
    assert!(ev.state.value.is_none());
}

#[test]
fn failure_dominates_partial_success() {
    // A successful value write plus an independent failed status task:
    // the published status is the error sentinel, the value is kept.
    let nodes = vec![Node {
        tasks: vec![
            task(0, Prop::Value, Some(0), None),
            task(0, Prop::Status, Some(9), None),
        ],
    }];
    let cfg = TaskSet::new(nodes, 1).unwrap();
    let mut cache = DeltaCache::new(Some(1_000_000), 1);
    let batch = BatchResult::Read(vec![Some(val_array(vec![scalar_f(20.0)]))]);
    let out = run_cycle(&cfg, &batch, &mut cache, 10);
    let ev = expect_event(&out.events[0]);
    assert_eq!(ev.state.status, ITEM_STATUS_ERROR);
    let kept = ev.state.value.as_ref().expect("computed value is kept");
    assert!(value_eq(kept, &RawValue::Scalar(scalar_f(20.0))));
}

#[test]
fn status_conversion_degrades_without_failing() {
    // A status write whose value does not convert degrades the status
    // to the error sentinel but does not mark the item failed, so the
    // value written by the other task survives with that status.
    let nodes = vec![Node {
        tasks: vec![
            task(0, Prop::Value, None, None),
            task(0, Prop::Status, None, None),
        ],
    }];
    let cfg = TaskSet::new(nodes, 1).unwrap();
    let mut cache = DeltaCache::new(Some(1_000_000), 1);
    // An integer out of status range: converts as a value, not a status.
    let batch = BatchResult::Read(vec![Some(RawValue::Scalar(Scalar::Int(40000)))]);
    let out = run_cycle(&cfg, &batch, &mut cache, 10);
    let ev = expect_event(&out.events[0]);
    assert_eq!(ev.state.status, ITEM_STATUS_ERROR);
    assert!(ev.state.value.is_some());
}

#[test]
fn unreadable_node_fails_all_its_tasks() {
    let nodes = vec![
        Node { tasks: vec![task(0, Prop::Value, None, None)] },
        Node { tasks: vec![task(1, Prop::Value, None, None)] },
    ];
    let cfg = TaskSet::new(nodes, 2).unwrap();
    let mut cache = DeltaCache::new(Some(1_000_000), 2);
    let batch = BatchResult::Read(vec![None, Some(RawValue::Scalar(Scalar::Int(5)))]);
    let out = run_cycle(&cfg, &batch, &mut cache, 10);
    let ev0 = expect_event(&out.events[0]);
    assert_eq!(ev0.state.status, ITEM_STATUS_ERROR);
    assert!(ev0.state.value.is_none());
    let ev1 = expect_event(&out.events[1]);
    assert_eq!(ev1.state.status, ITEM_STATUS_OK);
}

#[test]
fn total_batch_failure_raises_poc_and_leaves_cache() {
    let nodes = vec![Node { tasks: vec![task(0, Prop::Value, None, Some(0.5))] }];
    let cfg = TaskSet::new(nodes, 1).unwrap();
    let mut cache = DeltaCache::new(Some(1_000_000), 1);
    // First a successful cycle to populate the cache.
    let ok = BatchResult::Read(vec![Some(RawValue::Scalar(scalar_f(20.0)))]);
    let out1 = run_cycle(&cfg, &ok, &mut cache, 10);
    assert!(!out1.poc);
    assert!(out1.events[0].is_some());
    let clock_before = cache.clock;
    // Then a total failure: the point-of-failure flag is raised exactly
    // for this cycle, no events are produced and the cache - clock
    // included - is untouched, so no item's status is re-flagged.
    let out2 = run_cycle(&cfg, &BatchResult::Fail, &mut cache, 20);
    assert!(out2.poc);
    assert!(out2.events.is_empty());
    assert_eq!(cache.clock, clock_before);
    assert!(cache.slots[0].is_some());
}

#[test]
fn end_to_end_indexed_delta_cycle() {
    // One node mapping to a value task (index 1, delta 0.5) and a
    // status task (index 0) of the same item.
    let nodes = vec![Node {
        tasks: vec![
            task(0, Prop::Value, Some(1), Some(0.5)),
            task(0, Prop::Status, Some(0), None),
        ],
    }];
    let cfg = TaskSet::new(nodes, 1).unwrap();
    let mut cache = DeltaCache::new(Some(1_000_000), 1);

    // First cycle: published with the indexed value.
    let b1 = BatchResult::Read(vec![Some(val_array(vec![Scalar::Int(10), scalar_f(20.0)]))]);
    let out1 = run_cycle(&cfg, &b1, &mut cache, 100);
    let ev1 = expect_event(&out1.events[0]);
    assert_eq!(ev1.state.status, 10);
    assert!(value_eq(
        ev1.state.value.as_ref().unwrap(),
        &RawValue::Scalar(scalar_f(20.0))
    ));

    // Second cycle: the value moved by 0.3 < 0.5, status unchanged -
    // suppressed entirely, the cache keeps the old baseline.
    let b2 = BatchResult::Read(vec![Some(val_array(vec![Scalar::Int(10), scalar_f(20.3)]))]);
    let out2 = run_cycle(&cfg, &b2, &mut cache, 200);
    assert!(out2.events[0].is_none());

    // Third cycle: the node fails entirely - the error event is
    // published regardless of the cached value.
    let b3 = BatchResult::Read(vec![None]);
    let out3 = run_cycle(&cfg, &b3, &mut cache, 300);
    let ev3 = expect_event(&out3.events[0]);
    assert_eq!(ev3.state.status, ITEM_STATUS_ERROR);
    assert!(ev3.state.value.is_none());
}

#[test]
fn last_write_wins_per_property() {
    // Two value tasks target the same item; the later one wins.
    let nodes = vec![Node {
        tasks: vec![
            task(0, Prop::Value, Some(0), None),
            task(0, Prop::Value, Some(1), None),
        ],
    }];
    let cfg = TaskSet::new(nodes, 1).unwrap();
    let mut cache = DeltaCache::new(Some(1_000_000), 1);
    let batch = BatchResult::Read(vec![Some(val_array(vec![scalar_f(1.0), scalar_f(2.0)]))]);
    let out = run_cycle(&cfg, &batch, &mut cache, 10);
    let ev = expect_event(&out.events[0]);
    assert!(value_eq(
        ev.state.value.as_ref().unwrap(),
        &RawValue::Scalar(scalar_f(2.0))
    ));
}

#[test]
fn task_set_rejects_out_of_table_target() {
    let nodes = vec![Node { tasks: vec![task(3, Prop::Value, None, None)] }];
    assert!(TaskSet::new(nodes, 2).is_none());
}
