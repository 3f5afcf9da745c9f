//! Laws of the pipeline, stated and proved once for all inputs.
//!
//! Each lemma here is a property of the specification functions that
//! the executable pipeline is proved against: how indexed extraction
//! falls back on scalars, how a failed task forces its item's status to
//! the error sentinel whatever else succeeded, and when the delta cache
//! suppresses, publishes or re-publishes an event.

use vstd::prelude::*;

use crate::cache::{cache_after_spec, expired_spec, keep_spec, unchanged_spec, within_delta_spec, CacheEntryModel};
use crate::cycle::{consolidate_spec, consolidated_slot, extract_spec, fail_tasks_spec, nodes_fold, task_step_spec, tasks_fold, CycleModel, ExtractErr, PreparedModel};
use crate::task::TaskModel;
use crate::value::{RawModel, ScalarModel};
use crate::ITEM_STATUS_ERROR;

verus! {

/// Index zero against a plain scalar succeeds and yields the scalar
/// itself, as if the scalar were a one-element array; against an array
/// it yields element zero.
pub proof fn lemma_index_zero_scalar_fallback(s: ScalarModel, items: Seq<ScalarModel>)
    ensures
        extract_spec(RawModel::Scalar(s), Some(0)) == Ok::<RawModel, ExtractErr>(
            RawModel::Scalar(s),
        ),
        items.len() > 0 ==> extract_spec(RawModel::Array(items), Some(0)) == Ok::<
            RawModel,
            ExtractErr,
        >(RawModel::Scalar(items[0])),
{
}

/// An index at or past the end of an array fails extraction; an index
/// other than zero against a plain scalar fails too.
pub proof fn lemma_out_of_range_fails(s: ScalarModel, items: Seq<ScalarModel>, i: usize)
    ensures
        i >= items.len() ==> extract_spec(RawModel::Array(items), Some(i)) == Err::<
            RawModel,
            ExtractErr,
        >(ExtractErr::IndexOutOfRange),
        i != 0 ==> extract_spec(RawModel::Scalar(s), Some(i)) == Err::<RawModel, ExtractErr>(
            ExtractErr::NotAnArray,
        ),
{
}

/// One task application changes neither table size.
proof fn lemma_task_step_lens(m: CycleModel, t: TaskModel, val: RawModel)
    requires
        t.oid < m.slots.len(),
        m.slots.len() == m.failed.len(),
    ensures
        task_step_spec(m, t, val).slots.len() == m.slots.len(),
        task_step_spec(m, t, val).failed.len() == m.failed.len(),
{
}

/// Every task of the list targets an item within a table of `n` slots.
pub open spec fn tasks_in_range(ts: Seq<TaskModel>, n: int) -> bool {
    forall|j: int| 0 <= j < ts.len() ==> (#[trigger] ts[j]).oid < n
}

/// Every node's tasks target items within a table of `n` slots.
pub open spec fn nodes_in_range(ns: Seq<crate::task::NodeModel>, n: int) -> bool {
    forall|j: int| 0 <= j < ns.len() ==> tasks_in_range((#[trigger] ns[j]).tasks, n)
}

/// The suffix of an in-range task list is in range.
proof fn lemma_tasks_in_range_rest(ts: Seq<TaskModel>, n: int)
    requires
        tasks_in_range(ts, n),
        ts.len() > 0,
    ensures
        tasks_in_range(ts.drop_first(), n),
{
    let rest = ts.drop_first();
    assert forall|j: int| 0 <= j < rest.len() implies (#[trigger] rest[j]).oid < n by {
        assert(rest[j] == ts[j + 1]);
    }
}

/// A whole task list changes neither table size, and a failed mark is
/// never cleared by later tasks.
pub proof fn lemma_tasks_fold_frame(m: CycleModel, ts: Seq<TaskModel>, val: RawModel, k: int)
    requires
        m.slots.len() == m.failed.len(),
        tasks_in_range(ts, m.failed.len() as int),
        0 <= k < m.failed.len(),
    ensures
        tasks_fold(m, ts, val).slots.len() == m.slots.len(),
        tasks_fold(m, ts, val).failed.len() == m.failed.len(),
        m.failed[k] ==> tasks_fold(m, ts, val).failed[k],
    decreases ts.len(),
{
    if ts.len() > 0 {
        lemma_task_step_lens(m, ts[0], val);
        lemma_tasks_in_range_rest(ts, m.failed.len() as int);
        lemma_tasks_fold_frame(task_step_spec(m, ts[0], val), ts.drop_first(), val, k);
    }
}

/// Marking an unreadable node's tasks failed changes neither table
/// size, and never clears an existing failed mark.
pub proof fn lemma_fail_tasks_frame(m: CycleModel, ts: Seq<TaskModel>, k: int)
    requires
        tasks_in_range(ts, m.failed.len() as int),
        0 <= k < m.failed.len(),
    ensures
        fail_tasks_spec(m, ts).slots == m.slots,
        fail_tasks_spec(m, ts).failed.len() == m.failed.len(),
        m.failed[k] ==> fail_tasks_spec(m, ts).failed[k],
    decreases ts.len(),
{
    if ts.len() > 0 {
        lemma_tasks_in_range_rest(ts, m.failed.len() as int);
        lemma_fail_tasks_frame(
            CycleModel { slots: m.slots, failed: m.failed.update(ts[0].oid as int, true) },
            ts.drop_first(),
            k,
        );
    }
}

/// The whole extraction pass changes neither table size, and a failed
/// mark set by any node survives all later nodes.
pub proof fn lemma_nodes_fold_frame(
    m: CycleModel,
    ns: Seq<crate::task::NodeModel>,
    rs: Seq<Option<RawModel>>,
    k: int,
)
    requires
        m.slots.len() == m.failed.len(),
        nodes_in_range(ns, m.failed.len() as int),
        0 <= k < m.failed.len(),
    ensures
        nodes_fold(m, ns, rs).slots.len() == m.slots.len(),
        nodes_fold(m, ns, rs).failed.len() == m.failed.len(),
        m.failed[k] ==> nodes_fold(m, ns, rs).failed[k],
    decreases ns.len(),
{
    if ns.len() > 0 && rs.len() > 0 {
        let m1 = crate::cycle::node_step_spec(m, ns[0], rs[0]);
        match rs[0] {
            Some(v) => {
                lemma_tasks_fold_frame(m, ns[0].tasks, v, k);
            },
            None => {
                lemma_fail_tasks_frame(m, ns[0].tasks, k);
            },
        }
        let rest = ns.drop_first();
        assert forall|j: int| 0 <= j < rest.len() implies tasks_in_range(
            (#[trigger] rest[j]).tasks,
            m1.failed.len() as int,
        ) by {
            assert(rest[j] == ns[j + 1]);
        }
        lemma_nodes_fold_frame(m1, rest, rs.drop_first(), k);
    }
}

/// If some task of the list targets item `k` and fails — its extraction
/// or its value production — then item `k` ends the list marked failed,
/// whatever the other tasks do.
pub proof fn lemma_failing_task_marks_failed(
    m: CycleModel,
    ts: Seq<TaskModel>,
    val: RawModel,
    k: int,
    j0: int,
)
    requires
        m.slots.len() == m.failed.len(),
        tasks_in_range(ts, m.failed.len() as int),
        0 <= j0 < ts.len(),
        ts[j0].oid == k,
        extract_spec(val, ts[j0].idx) is Err || (extract_spec(val, ts[j0].idx) matches Ok(e)
            && crate::cycle::task_value_spec(ts[j0], e) is Err),
    ensures
        tasks_fold(m, ts, val).failed[k],
    decreases ts.len(),
{
    lemma_task_step_lens(m, ts[0], val);
    lemma_tasks_in_range_rest(ts, m.failed.len() as int);
    if j0 == 0 {
        lemma_tasks_fold_frame(task_step_spec(m, ts[0], val), ts.drop_first(), val, k);
    } else {
        assert(ts.drop_first()[j0 - 1] == ts[j0]);
        lemma_failing_task_marks_failed(
            task_step_spec(m, ts[0], val),
            ts.drop_first(),
            val,
            k,
            j0 - 1,
        );
    }
}

/// No task of the list writes the value property of item `k`.
pub open spec fn no_value_write(ts: Seq<TaskModel>, k: int) -> bool {
    forall|j: int| 0 <= j < ts.len() ==> !((#[trigger] ts[j]).oid == k && ts[j].prop is Value)
}

/// Whether a slot carries no value: empty, or an event without a value
/// field.
pub open spec fn slot_value_none(slot: Option<PreparedModel>) -> bool {
    match slot {
        None => true,
        Some(p) => p.state.value is None,
    }
}

/// If no task of the list writes the value property of item `k`, then
/// item `k` ends the list without a value field, provided it had none
/// before: status writes never set a value.
pub proof fn lemma_no_value_write_keeps_none(
    m: CycleModel,
    ts: Seq<TaskModel>,
    val: RawModel,
    k: int,
)
    requires
        m.slots.len() == m.failed.len(),
        tasks_in_range(ts, m.failed.len() as int),
        0 <= k < m.slots.len(),
        no_value_write(ts, k),
        slot_value_none(m.slots[k]),
    ensures
        slot_value_none(tasks_fold(m, ts, val).slots[k]),
    decreases ts.len(),
{
    if ts.len() > 0 {
        let m1 = task_step_spec(m, ts[0], val);
        lemma_task_step_lens(m, ts[0], val);
        lemma_tasks_in_range_rest(ts, m.failed.len() as int);
        assert(!(ts[0].oid == k && ts[0].prop is Value));
        assert(slot_value_none(m1.slots[k]));
        let rest = ts.drop_first();
        assert forall|j: int| 0 <= j < rest.len() implies !((#[trigger] rest[j]).oid == k
            && rest[j].prop is Value) by {
            assert(rest[j] == ts[j + 1]);
        }
        lemma_no_value_write_keeps_none(m1, ts.drop_first(), val, k);
    }
}

/// Failure dominates: a failed item ends consolidation with the error
/// sentinel as its status, whatever value was computed for it; the
/// computed value itself is kept, and a wholly absent event is
/// synthesized as a status-only error event.
pub proof fn lemma_failure_dominance(m: CycleModel, k: int)
    requires
        0 <= k < m.slots.len(),
        m.failed[k],
    ensures
        consolidate_spec(m)[k] == Some(consolidated_slot(m.slots[k])),
        consolidated_slot(m.slots[k]).state.status == ITEM_STATUS_ERROR,
        m.slots[k] matches Some(p) ==> consolidated_slot(m.slots[k]).state.value == p.state.value,
        m.slots[k] is None ==> consolidated_slot(m.slots[k]).state.value is None,
{
}

/// The full out-of-range story: a task of a node targets item `k` with
/// an index at or past the end of the node's array reading, no task of
/// that node writes the value property of `k`, and `k` enters the node
/// with no value.  Then `k` leaves consolidation with exactly the error
/// sentinel as status and no value — whatever the node's other tasks
/// succeeded in doing.
pub proof fn lemma_out_of_range_forces_error(
    m: CycleModel,
    ts: Seq<TaskModel>,
    items: Seq<ScalarModel>,
    k: int,
    j0: int,
)
    requires
        m.slots.len() == m.failed.len(),
        tasks_in_range(ts, m.failed.len() as int),
        0 <= k < m.slots.len(),
        0 <= j0 < ts.len(),
        ts[j0].oid == k,
        ts[j0].idx matches Some(i) && i >= items.len(),
        no_value_write(ts, k),
        slot_value_none(m.slots[k]),
    ensures
        tasks_fold(m, ts, RawModel::Array(items)).failed[k],
        consolidate_spec(tasks_fold(m, ts, RawModel::Array(items)))[k] matches Some(p)
            && p.state.status == ITEM_STATUS_ERROR && p.state.value is None,
{
    let val = RawModel::Array(items);
    lemma_failing_task_marks_failed(m, ts, val, k, j0);
    lemma_no_value_write_keeps_none(m, ts, val, k);
    lemma_tasks_fold_frame(m, ts, val, k);
    lemma_failure_dominance(tasks_fold(m, ts, val), k);
}

/// Failure overrides partial success: when any task of the list
/// targeting item `k` fails, the item leaves consolidation with the
/// error sentinel as its status — even though another task's value
/// write for `k` succeeded — and whatever value was computed is kept.
pub proof fn lemma_failure_overrides_partial_success(
    m: CycleModel,
    ts: Seq<TaskModel>,
    val: RawModel,
    k: int,
    j0: int,
)
    requires
        m.slots.len() == m.failed.len(),
        tasks_in_range(ts, m.failed.len() as int),
        0 <= j0 < ts.len(),
        ts[j0].oid == k,
        extract_spec(val, ts[j0].idx) is Err || (extract_spec(val, ts[j0].idx) matches Ok(e)
            && crate::cycle::task_value_spec(ts[j0], e) is Err),
    ensures
        consolidate_spec(tasks_fold(m, ts, val))[k] == Some(
            consolidated_slot(tasks_fold(m, ts, val).slots[k]),
        ),
        consolidated_slot(tasks_fold(m, ts, val).slots[k]).state.status == ITEM_STATUS_ERROR,
        tasks_fold(m, ts, val).slots[k] matches Some(p) ==> consolidated_slot(
            tasks_fold(m, ts, val).slots[k],
        ).state.value == p.state.value,
{
    assert(0 <= k < m.failed.len());
    lemma_failing_task_marks_failed(m, ts, val, k, j0);
    lemma_tasks_fold_frame(m, ts, val, k);
    lemma_failure_dominance(tasks_fold(m, ts, val), k);
}

/// Delta suppression: with a cache entry of the same status, a new
/// value within the entry's delta threshold, and the entry not aged
/// out (trivially so when no maximum cache age is configured), the
/// event is not published and the cache entry is left exactly as it
/// was.
pub proof fn lemma_delta_suppression(
    ttl: Option<u64>,
    e: CacheEntryModel,
    p: PreparedModel,
    now: u64,
)
    requires
        ttl matches Some(t) ==> !expired_spec(e, t, now),
        e.state.status == p.state.status,
        within_delta_spec(e.delta, e.state.value, p.state.value),
    ensures
        !keep_spec(ttl, Some(e), Some(p), now),
        cache_after_spec(ttl, Some(e), Some(p), now) == Some(e),
{
}

/// Delta publication: a new event that meaningfully differs from the
/// cached entry — different status, or a value neither equal nor within
/// the delta threshold — is published and becomes the new cached
/// baseline, stamped with the cycle's time, whether or not a maximum
/// cache age is configured.
pub proof fn lemma_delta_publish(ttl: Option<u64>, e: CacheEntryModel, p: PreparedModel, now: u64)
    requires
        !unchanged_spec(e, p.state),
    ensures
        keep_spec(ttl, Some(e), Some(p), now),
        cache_after_spec(ttl, Some(e), Some(p), now) == Some(
            CacheEntryModel { state: p.state, delta: p.delta, ts: now },
        ),
{
}

/// Age-based republication: once a cache entry is strictly older than
/// the maximum cache age, the item's event is published again even if
/// nothing changed, and the republished event becomes the new baseline.
pub proof fn lemma_age_republish(ttl: u64, e: CacheEntryModel, p: PreparedModel, now: u64)
    requires
        expired_spec(e, ttl, now),
    ensures
        keep_spec(Some(ttl), Some(e), Some(p), now),
        cache_after_spec(Some(ttl), Some(e), Some(p), now) == Some(
            CacheEntryModel { state: p.state, delta: p.delta, ts: now },
        ),
{
}

/// An item never cached before is always published, whether or not a
/// maximum cache age is configured.
pub proof fn lemma_first_sight_publish(ttl: Option<u64>, p: PreparedModel, now: u64)
    ensures
        keep_spec(ttl, None, Some(p), now),
        cache_after_spec(ttl, None, Some(p), now) == Some(
            CacheEntryModel { state: p.state, delta: p.delta, ts: now },
        ),
{
}

} // verus!
