//! One pull cycle: extraction, transform and failure consolidation.
//!
//! Each cycle builds, from the batch read results and the static task
//! set, one prepared state event per touched item: task applications
//! write status and value fields, every extraction or transform error
//! adds the task's item to the failed set, and consolidation forces the
//! status of every failed item to the error sentinel afterwards, so that
//! error reporting always dominates partial success.  The whole step is
//! specified by a fold of the per-task transition over the configured
//! order.

use vstd::prelude::*;

use crate::task::{chain_spec, tasks_view, nodes_view, Node, NodeModel, Prop, Task, TaskModel, TaskSet};
use crate::task::apply_transforms;
use crate::value::{raw_to_f64_spec, raw_to_status_spec, scalars_view, RawModel, RawValue, Scalar, ScalarModel};
use crate::value::{copy_raw, copy_scalar, raw_to_f64, raw_to_status};
use crate::{ITEM_STATUS_ERROR, ITEM_STATUS_OK};

verus! {

/// Why extraction of a task's value from a raw reading failed.
#[derive(Clone, Copy, PartialEq, Eq, Structural, Debug)]
pub enum ExtractErr {
    /// The reading is an array, but the task's index is out of range.
    IndexOutOfRange,
    /// The reading is not an array, and the task's index is not zero.
    NotAnArray,
}

/// Why a task's value could not be produced after extraction.
#[derive(Clone, Copy, PartialEq, Eq, Structural, Debug)]
pub enum TaskFail {
    /// The extracted value does not convert to a floating-point number.
    NumericConversion,
    /// The transform chain failed.
    Transform,
}

/// One state event under construction: a status code and an optional
/// value.
pub struct Reading {
    pub status: i16,
    pub value: Option<RawValue>,
}

/// The mathematical model of a state event.
pub struct ReadingModel {
    pub status: i16,
    pub value: Option<RawModel>,
}

impl View for Reading {
    type V = ReadingModel;

    open spec fn view(&self) -> ReadingModel {
        ReadingModel {
            status: self.status,
            value: match self.value {
                Some(ref v) => Some(v@),
                None => None,
            },
        }
    }
}

/// A state event prepared for filtering: the event and the delta
/// threshold of the task that created it.
pub struct Prepared {
    pub state: Reading,
    pub delta: Option<u64>,
}

/// The mathematical model of a prepared event.
pub struct PreparedModel {
    pub state: ReadingModel,
    pub delta: Option<u64>,
}

impl View for Prepared {
    type V = PreparedModel;

    open spec fn view(&self) -> PreparedModel {
        PreparedModel { state: self.state@, delta: self.delta }
    }
}

/// The model of an optional prepared event.
pub open spec fn opt_prepared_view(p: Option<Prepared>) -> Option<PreparedModel> {
    match p {
        Some(x) => Some(x@),
        None => None,
    }
}

/// The models of a table of optional prepared events.
pub open spec fn slots_view(v: Seq<Option<Prepared>>) -> Seq<Option<PreparedModel>> {
    v.map_values(|p: Option<Prepared>| opt_prepared_view(p))
}

/// The model of an optional raw reading.
pub open spec fn opt_raw_view(v: Option<RawValue>) -> Option<RawModel> {
    match v {
        Some(ref x) => Some(x@),
        None => None,
    }
}

/// The models of the per-node batch results.
pub open spec fn raws_view(v: Seq<Option<RawValue>>) -> Seq<Option<RawModel>> {
    v.map_values(|x: Option<RawValue>| opt_raw_view(x))
}

/// The cycle state under construction: one slot per item of the table,
/// and the set of items that failed this cycle.
pub struct CycleState {
    pub slots: Vec<Option<Prepared>>,
    pub failed: Vec<bool>,
}

/// The mathematical model of the cycle state.
pub struct CycleModel {
    pub slots: Seq<Option<PreparedModel>>,
    pub failed: Seq<bool>,
}

impl View for CycleState {
    type V = CycleModel;

    open spec fn view(&self) -> CycleModel {
        CycleModel { slots: slots_view(self.slots@), failed: self.failed@ }
    }
}

/// The empty cycle state over a table of `n` items.
pub open spec fn init_model(n: int) -> CycleModel {
    CycleModel {
        slots: Seq::new(n as nat, |i: int| None),
        failed: Seq::new(n as nat, |i: int| false),
    }
}

/// What extraction yields: the whole reading when the task has no index;
/// otherwise the selected array element, with index zero also accepted
/// against a plain scalar (a scalar reads as a one-element array).
pub open spec fn extract_spec(v: RawModel, idx: Option<usize>) -> Result<RawModel, ExtractErr> {
    match idx {
        None => Ok(v),
        Some(i) => match v {
            RawModel::Array(items) => if i < items.len() {
                Ok(RawModel::Scalar(items[i as int]))
            } else {
                Err(ExtractErr::IndexOutOfRange)
            },
            RawModel::Scalar(_) => if i == 0 {
                Ok(v)
            } else {
                Err(ExtractErr::NotAnArray)
            },
        },
    }
}

/// The value a task writes, given the extracted reading: the reading
/// itself when no transform is configured; otherwise the transformed
/// number, demanding that the extracted reading converts to one.
pub open spec fn task_value_spec(t: TaskModel, ext: RawModel) -> Result<RawModel, TaskFail> {
    if t.transforms.len() == 0 {
        Ok(ext)
    } else {
        match raw_to_f64_spec(ext) {
            None => Err(TaskFail::NumericConversion),
            Some(b) => match chain_spec(t.transforms, b) {
                None => Err(TaskFail::Transform),
                Some(r) => Ok(RawModel::Scalar(ScalarModel::Float(r))),
            },
        }
    }
}

/// The status code a written value stands for: its conversion, or the
/// error sentinel when it does not convert (a local degrade that does
/// not mark the item failed).
pub open spec fn status_or_error(v: RawModel) -> i16 {
    match raw_to_status_spec(v) {
        Some(s) => s,
        None => ITEM_STATUS_ERROR,
    }
}

/// How one write updates an item's slot.  A status write sets the status
/// field, a value write sets the value field; the other field of an
/// existing slot is kept, so the last write of each property wins.  A
/// fresh slot starts from a status-only event or from a value event with
/// the ordinary status, and adopts the writing task's delta threshold.
pub open spec fn write_spec(slot: Option<PreparedModel>, t: TaskModel, v: RawModel) -> PreparedModel {
    match slot {
        Some(p) => match t.prop {
            Prop::Status => PreparedModel {
                state: ReadingModel { status: status_or_error(v), value: p.state.value },
                delta: p.delta,
            },
            Prop::Value => PreparedModel {
                state: ReadingModel { status: p.state.status, value: Some(v) },
                delta: p.delta,
            },
        },
        None => match t.prop {
            Prop::Status => PreparedModel {
                state: ReadingModel { status: status_or_error(v), value: None },
                delta: t.delta,
            },
            Prop::Value => PreparedModel {
                state: ReadingModel { status: ITEM_STATUS_OK, value: Some(v) },
                delta: t.delta,
            },
        },
    }
}

/// How one task application transforms the cycle state: on extraction or
/// value failure the task's item joins the failed set and no slot
/// changes; on success the item's slot receives the write.
pub open spec fn task_step_spec(m: CycleModel, t: TaskModel, val: RawModel) -> CycleModel {
    match extract_spec(val, t.idx) {
        Err(_) => CycleModel { slots: m.slots, failed: m.failed.update(t.oid as int, true) },
        Ok(ext) => match task_value_spec(t, ext) {
            Err(_) => CycleModel { slots: m.slots, failed: m.failed.update(t.oid as int, true) },
            Ok(v) => CycleModel {
                slots: m.slots.update(t.oid as int, Some(write_spec(m.slots[t.oid as int], t, v))),
                failed: m.failed,
            },
        },
    }
}

/// A node's tasks applied in configuration order.
pub open spec fn tasks_fold(m: CycleModel, ts: Seq<TaskModel>, val: RawModel) -> CycleModel
    decreases ts.len(),
{
    if ts.len() == 0 {
        m
    } else {
        tasks_fold(task_step_spec(m, ts[0], val), ts.drop_first(), val)
    }
}

/// Every task of an unreadable node marks its item failed; no value is
/// written for any of them.
pub open spec fn fail_tasks_spec(m: CycleModel, ts: Seq<TaskModel>) -> CycleModel
    decreases ts.len(),
{
    if ts.len() == 0 {
        m
    } else {
        fail_tasks_spec(
            CycleModel { slots: m.slots, failed: m.failed.update(ts[0].oid as int, true) },
            ts.drop_first(),
        )
    }
}

/// How one node's batch result transforms the cycle state.
pub open spec fn node_step_spec(m: CycleModel, n: NodeModel, res: Option<RawModel>) -> CycleModel {
    match res {
        Some(v) => tasks_fold(m, n.tasks, v),
        None => fail_tasks_spec(m, n.tasks),
    }
}

/// The whole extraction pass: the nodes applied in read order, each to
/// its own batch result.
pub open spec fn nodes_fold(m: CycleModel, ns: Seq<NodeModel>, rs: Seq<Option<RawModel>>) -> CycleModel
    decreases ns.len(),
{
    if ns.len() == 0 || rs.len() == 0 {
        m
    } else {
        nodes_fold(node_step_spec(m, ns[0], rs[0]), ns.drop_first(), rs.drop_first())
    }
}

/// The consolidated slot of a failed item: an existing event keeps its
/// value but its status is forced to the error sentinel; a missing event
/// is synthesized as a status-only error event without a delta.
pub open spec fn consolidated_slot(slot: Option<PreparedModel>) -> PreparedModel {
    match slot {
        Some(p) => PreparedModel {
            state: ReadingModel { status: ITEM_STATUS_ERROR, value: p.state.value },
            delta: p.delta,
        },
        None => PreparedModel {
            state: ReadingModel { status: ITEM_STATUS_ERROR, value: None },
            delta: None,
        },
    }
}

/// The slots after failure consolidation: every failed item ends with
/// the error status, every other slot is unchanged.
pub open spec fn consolidate_spec(m: CycleModel) -> Seq<Option<PreparedModel>> {
    Seq::new(
        m.slots.len(),
        |i: int| if m.failed[i] {
            Some(consolidated_slot(m.slots[i]))
        } else {
            m.slots[i]
        },
    )
}

/// Copies a state event.
pub fn copy_reading(r: &Reading) -> (out: Reading)
    ensures
        out@ == r@,
{
    Reading {
        status: r.status,
        value: match &r.value {
            Some(v) => Some(copy_raw(v)),
            None => None,
        },
    }
}

/// Copies a prepared event.
pub fn copy_prepared(p: &Prepared) -> (out: Prepared)
    ensures
        out@ == p@,
{
    Prepared { state: copy_reading(&p.state), delta: p.delta }
}

/// Extracts a task's value from a raw reading.
#[verifier::loop_isolation(false)]
pub fn extract(val: &RawValue, idx: Option<usize>) -> (r: Result<RawValue, ExtractErr>)
    ensures
        match r {
            Ok(v) => extract_spec(val@, idx) == Ok::<RawModel, ExtractErr>(v@),
            Err(e) => extract_spec(val@, idx) == Err::<RawModel, ExtractErr>(e),
        },
{
    match idx {
        None => Ok(copy_raw(val)),
        Some(i) => match val {
            RawValue::Array(items) => {
                if i < items.len() {
                    proof {
                        assert(scalars_view(items@)[i as int] == items@[i as int]@);
                    }
                    Ok(RawValue::Scalar(copy_scalar(&items[i])))
                } else {
                    proof {
                        assert(scalars_view(items@).len() == items@.len());
                    }
                    Err(ExtractErr::IndexOutOfRange)
                }
            },
            RawValue::Scalar(_) => {
                if i == 0 {
                    Ok(copy_raw(val))
                } else {
                    Err(ExtractErr::NotAnArray)
                }
            },
        },
    }
}

impl CycleState {
    /// The slot table and the failed set cover the same items.
    pub open spec fn wf(self, n_oids: usize) -> bool {
        self.slots@.len() == n_oids && self.failed@.len() == n_oids
    }

    /// The empty cycle state over a table of `n_oids` items.
    #[verifier::loop_isolation(false)]
    pub fn new(n_oids: usize) -> (r: CycleState)
        ensures
            r.wf(n_oids),
            r@ == init_model(n_oids as int),
    {
        let mut slots: Vec<Option<Prepared>> = Vec::new();
        let mut failed: Vec<bool> = Vec::new();
        let mut i: usize = 0;
        while i < n_oids
            invariant
                slots@.len() == i,
                failed@.len() == i,
                0 <= i <= n_oids,
                forall|j: int| 0 <= j < i ==> slots@[j] is None,
                forall|j: int| 0 <= j < i ==> !(#[trigger] failed@[j]),
            decreases n_oids - i,
        {
            slots.push(None);
            failed.push(false);
            i += 1;
        }
        let r = CycleState { slots, failed };
        proof {
            assert(slots_view(r.slots@) =~= init_model(n_oids as int).slots);
            assert(r.failed@ =~= init_model(n_oids as int).failed);
        }
        r
    }

    /// Applies one task to the reading of its node.
    pub fn apply_task(&mut self, task: &Task, val: &RawValue)
        requires
            old(self).slots@.len() == old(self).failed@.len(),
            task.oid < old(self).slots@.len(),
        ensures
            final(self)@ == task_step_spec(old(self)@, task@, val@),
            final(self).slots@.len() == old(self).slots@.len(),
            final(self).failed@.len() == old(self).failed@.len(),
    {
        let ext = match extract(val, task.idx) {
            Ok(v) => v,
            Err(_) => {
                self.failed[task.oid] = true;
                proof {
                    assert(self@.failed =~= task_step_spec(old(self)@, task@, val@).failed);
                    assert(self@.slots =~= task_step_spec(old(self)@, task@, val@).slots);
                }
                return ;
            },
        };
        let written: RawValue;
        if task.transforms.len() == 0 {
            written = ext;
        } else {
            let b = match raw_to_f64(&ext) {
                Some(b) => b,
                None => {
                    self.failed[task.oid] = true;
                    proof {
                        assert(final(self)@.failed =~= task_step_spec(old(self)@, task@, val@).failed);
                        assert(final(self)@.slots =~= task_step_spec(old(self)@, task@, val@).slots);
                    }
                    return ;
                },
            };
            match apply_transforms(&task.transforms, b) {
                Some(r) => {
                    written = RawValue::Scalar(Scalar::Float(r));
                },
                None => {
                    self.failed[task.oid] = true;
                    proof {
                        assert(final(self)@.failed =~= task_step_spec(old(self)@, task@, val@).failed);
                        assert(final(self)@.slots =~= task_step_spec(old(self)@, task@, val@).slots);
                    }
                    return ;
                },
            }
        }
        let ghost pre = self@;
        let slot = &mut self.slots[task.oid];
        match slot {
            Some(p) => {
                match task.prop {
                    Prop::Status => {
                        let s = match raw_to_status(&written) {
                            Some(s) => s,
                            None => ITEM_STATUS_ERROR,
                        };
                        p.state.status = s;
                    },
                    Prop::Value => {
                        p.state.value = Some(written);
                    },
                }
            },
            None => {
                match task.prop {
                    Prop::Status => {
                        let s = match raw_to_status(&written) {
                            Some(s) => s,
                            None => ITEM_STATUS_ERROR,
                        };
                        *slot = Some(
                            Prepared {
                                state: Reading { status: s, value: None },
                                delta: task.delta,
                            },
                        );
                    },
                    Prop::Value => {
                        *slot = Some(
                            Prepared {
                                state: Reading { status: ITEM_STATUS_OK, value: Some(written) },
                                delta: task.delta,
                            },
                        );
                    },
                }
            },
        }
        proof {
            assert(slots_view(old(self).slots@)[task.oid as int] == opt_prepared_view(
                old(self).slots@[task.oid as int],
            ));
            assert(self@.slots =~= task_step_spec(old(self)@, task@, val@).slots);
            assert(self@.failed =~= task_step_spec(old(self)@, task@, val@).failed);
        }
    }

    /// Applies one node's batch result: a readable node fans out to its
    /// tasks in order, an unreadable one marks every bound item failed.
    #[verifier::loop_isolation(false)]
    pub fn apply_node(&mut self, node: &Node, res: &Option<RawValue>)
        requires
            old(self).slots@.len() == old(self).failed@.len(),
            crate::task::node_wf(node@, old(self).slots@.len() as usize),
            old(self).slots@.len() <= usize::MAX,
        ensures
            final(self)@ == node_step_spec(old(self)@, node@, opt_raw_view(*res)),
            final(self).slots@.len() == old(self).slots@.len(),
            final(self).failed@.len() == old(self).failed@.len(),
    {
        let ghost tv = tasks_view(node.tasks@);
        match res {
            Some(v) => {
                let mut i: usize = 0;
                proof {
                    assert(tv.skip(0) =~= tv);
                }
                while i < node.tasks.len()
                    invariant
                        0 <= i <= node.tasks@.len(),
                        self.slots@.len() == old(self).slots@.len(),
                        self.failed@.len() == old(self).failed@.len(),
                        tasks_fold(self@, tv.skip(i as int), v@) == tasks_fold(old(self)@, tv, v@),
                    decreases node.tasks@.len() - i,
                {
                    proof {
                        assert(tv[i as int] == node.tasks@[i as int]@);
                        assert(tv.skip(i as int)[0] == tv[i as int]);
                        assert(tv.skip(i as int).drop_first() =~= tv.skip(i + 1));
                        crate::task::lemma_node_wf_elem(
                            node@,
                            old(self).slots@.len() as usize,
                            i as int,
                        );
                        assert(crate::task::task_wf(tv[i as int], old(self).slots@.len() as usize));
                    }
                    self.apply_task(&node.tasks[i], v);
                    i += 1;
                }
                proof {
                    assert(tv.skip(node.tasks@.len() as int) =~= Seq::<TaskModel>::empty());
                }
            },
            None => {
                let mut i: usize = 0;
                proof {
                    assert(tv.skip(0) =~= tv);
                }
                while i < node.tasks.len()
                    invariant
                        0 <= i <= node.tasks@.len(),
                        self.slots@.len() == old(self).slots@.len(),
                        self.failed@.len() == old(self).failed@.len(),
                        fail_tasks_spec(self@, tv.skip(i as int)) == fail_tasks_spec(old(self)@, tv),
                    decreases node.tasks@.len() - i,
                {
                    proof {
                        assert(tv[i as int] == node.tasks@[i as int]@);
                        assert(tv.skip(i as int)[0] == tv[i as int]);
                        assert(tv.skip(i as int).drop_first() =~= tv.skip(i + 1));
                        crate::task::lemma_node_wf_elem(
                            node@,
                            old(self).slots@.len() as usize,
                            i as int,
                        );
                        assert(crate::task::task_wf(tv[i as int], old(self).slots@.len() as usize));
                    }
                    let ghost pre = self@;
                    let oid = node.tasks[i].oid;
                    self.failed[oid] = true;
                    proof {
                        assert(self@ == (CycleModel {
                            slots: pre.slots,
                            failed: pre.failed.update(oid as int, true),
                        }));
                    }
                    i += 1;
                }
                proof {
                    assert(tv.skip(node.tasks@.len() as int) =~= Seq::<TaskModel>::empty());
                }
            },
        }
    }
}

/// Runs the whole extraction pass for one cycle: every node's batch
/// result applied in read order over a fresh cycle state.
#[verifier::loop_isolation(false)]
pub fn run_extraction(cfg: &TaskSet, results: &Vec<Option<RawValue>>) -> (cs: CycleState)
    requires
        cfg.wf(),
        results@.len() == cfg.nodes@.len(),
    ensures
        cs.wf(cfg.n_oids),
        cs@ == nodes_fold(
            init_model(cfg.n_oids as int),
            nodes_view(cfg.nodes@),
            raws_view(results@),
        ),
{
    let ghost nv = nodes_view(cfg.nodes@);
    let ghost rv = raws_view(results@);
    let mut cs = CycleState::new(cfg.n_oids);
    let mut i: usize = 0;
    proof {
        assert(nv.skip(0) =~= nv);
        assert(rv.skip(0) =~= rv);
    }
    while i < cfg.nodes.len()
        invariant
            0 <= i <= cfg.nodes@.len(),
            cs.wf(cfg.n_oids),
            nodes_fold(cs@, nv.skip(i as int), rv.skip(i as int)) == nodes_fold(
                init_model(cfg.n_oids as int),
                nv,
                rv,
            ),
        decreases cfg.nodes@.len() - i,
    {
        proof {
            assert(nv[i as int] == cfg.nodes@[i as int]@);
            assert(nv.skip(i as int)[0] == nv[i as int]);
            assert(nv.skip(i as int).drop_first() =~= nv.skip(i + 1));
            assert(rv[i as int] == opt_raw_view(results@[i as int]));
            assert(rv.skip(i as int)[0] == rv[i as int]);
            assert(rv.skip(i as int).drop_first() =~= rv.skip(i + 1));
            assert(crate::task::node_wf(nv[i as int], cfg.n_oids));
        }
        cs.apply_node(&cfg.nodes[i], &results[i]);
        i += 1;
    }
    proof {
        assert(nv.skip(cfg.nodes@.len() as int) =~= Seq::<NodeModel>::empty());
    }
    cs
}

/// Consolidates the cycle's failures: every item of the failed set ends
/// with the error-sentinel status — an existing event keeps its value, a
/// missing one is synthesized as a status-only error event — and every
/// other slot is left as computed.
#[verifier::loop_isolation(false)]
pub fn consolidate(cs: CycleState) -> (r: Vec<Option<Prepared>>)
    requires
        cs.slots@.len() == cs.failed@.len(),
    ensures
        slots_view(r@) == consolidate_spec(cs@),
        r@.len() == cs.slots@.len(),
{
    let ghost m = cs@;
    let ghost orig = cs.slots@;
    let CycleState { mut slots, failed } = cs;
    let mut i: usize = 0;
    while i < slots.len()
        invariant
            0 <= i <= slots@.len(),
            slots@.len() == orig.len(),
            failed@ == m.failed,
            m.slots == slots_view(orig),
            m.slots.len() == orig.len(),
            m.failed.len() == orig.len(),
            forall|j: int| i <= j < orig.len() ==> slots@[j] == orig[j],
            forall|j: int| 0 <= j < i ==> slots_view(slots@)[j] == consolidate_spec(m)[j],
        decreases slots@.len() - i,
    {
        proof {
            assert(slots_view(slots@)[i as int] == opt_prepared_view(slots@[i as int]));
            assert(m.slots[i as int] == opt_prepared_view(orig[i as int]));
        }
        if failed[i] {
            let slot = &mut slots[i];
            match slot {
                Some(p) => {
                    p.state.status = ITEM_STATUS_ERROR;
                },
                None => {
                    *slot = Some(
                        Prepared {
                            state: Reading { status: ITEM_STATUS_ERROR, value: None },
                            delta: None,
                        },
                    );
                },
            }
        }
        proof {
            assert(slots_view(slots@)[i as int] == opt_prepared_view(slots@[i as int]));
        }
        i += 1;
    }
    proof {
        assert(slots_view(slots@) =~= consolidate_spec(m));
    }
    slots
}

} // verus!
