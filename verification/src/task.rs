//! The static task descriptor set.
//!
//! A node is one protocol-addressable variable of the device; each node
//! carries the ordered tasks bound to it.  A task maps the node's raw
//! reading to one property of one item: it names the item by an index
//! into the set's item table (the object identifiers themselves live in
//! that table), selects an optional array element, applies an optional
//! chain of numeric transform steps, and carries an optional delta
//! threshold for change filtering.  All of it is immutable after
//! configuration load.

use vstd::assert_by_contradiction;
use vstd::prelude::*;

use crate::fbits::{f64_eq, f64_eq_bits, f_add, f_div, f_mul, f_of_u64, f_round, f_sub, f_trunc};
use crate::fbits::{add_bits, div_bits, mul_bits, round_bits, sub_bits, trunc_bits, u64_to_bits};
use crate::fbits::{F64_ONE, F64_ZERO};

verus! {

/// The item property a task writes: the item's status code or its value.
#[derive(Clone, Copy, PartialEq, Eq, Structural)]
pub enum Prop {
    Status,
    Value,
}

/// One step of a numeric transform chain.
///
/// Multiplication and division carry the parameter as a binary64 bit
/// pattern.  Inversion maps zero to one and everything else (NaN
/// included) to zero.  Rounding keeps the given number of decimal
/// digits; it is the one step that can fail, when the digit count is
/// negative or twenty or more.
///
/// The set is the pure-formula core: each step is a function of the
/// incoming bits and its parameter alone.  A rate-of-change step,
/// which would need the previous reading and the times of the two
/// reads as further arguments, is deliberately not part of it.
#[derive(Clone, Copy, PartialEq, Eq, Structural)]
pub enum TransformStep {
    Multiply(u64),
    Divide(u64),
    Invert,
    Round(i64),
}

/// Ten to the given power, for digit counts a rounding step accepts.
pub open spec fn pow10_spec(d: int) -> u64 {
    if d <= 1 { 10 }
    else if d == 2 { 100 }
    else if d == 3 { 1000 }
    else if d == 4 { 10000 }
    else if d == 5 { 100000 }
    else if d == 6 { 1000000 }
    else if d == 7 { 10000000 }
    else if d == 8 { 100000000 }
    else if d == 9 { 1000000000 }
    else if d == 10 { 10000000000 }
    else if d == 11 { 100000000000 }
    else if d == 12 { 1000000000000 }
    else if d == 13 { 10000000000000 }
    else if d == 14 { 100000000000000 }
    else if d == 15 { 1000000000000000 }
    else if d == 16 { 10000000000000000 }
    else if d == 17 { 100000000000000000 }
    else if d == 18 { 1000000000000000000 }
    else { 10000000000000000000 }
}

/// Rounding to decimal digits: the integral part rounded with ties away
/// from zero, plus the fractional part scaled by `m`, rounded the same
/// way, and scaled back.
pub open spec fn round_digits_spec(b: u64, m: u64) -> u64 {
    f_add(f_round(b), f_div(f_round(f_mul(f_sub(b, f_trunc(b)), m)), m))
}

/// What one transform step yields on the bits `b`, or `None` on a
/// rounding step with a digit count out of range.
pub open spec fn step_spec(st: TransformStep, b: u64) -> Option<u64> {
    match st {
        TransformStep::Multiply(p) => Some(f_mul(b, p)),
        TransformStep::Divide(p) => Some(f_div(b, p)),
        TransformStep::Invert => Some(
            if f64_eq_bits(b, F64_ZERO) {
                F64_ONE
            } else {
                F64_ZERO
            },
        ),
        TransformStep::Round(d) => if d < 0 || d >= 20 {
            None
        } else if d == 0 {
            Some(f_round(b))
        } else {
            Some(round_digits_spec(b, f_of_u64(pow10_spec(d as int))))
        },
    }
}

/// What a whole transform chain yields on the bits `b`: the steps applied
/// in order, `None` as soon as one fails.
pub open spec fn chain_spec(steps: Seq<TransformStep>, b: u64) -> Option<u64>
    decreases steps.len(),
{
    if steps.len() == 0 {
        Some(b)
    } else {
        match step_spec(steps[0], b) {
            Some(r) => chain_spec(steps.drop_first(), r),
            None => None,
        }
    }
}

/// Ten to the given power.
fn pow10(d: i64) -> (r: u64)
    requires
        1 <= d <= 19,
    ensures
        r == pow10_spec(d as int),
{
    if d <= 1 { 10 }
    else if d == 2 { 100 }
    else if d == 3 { 1000 }
    else if d == 4 { 10000 }
    else if d == 5 { 100000 }
    else if d == 6 { 1000000 }
    else if d == 7 { 10000000 }
    else if d == 8 { 100000000 }
    else if d == 9 { 1000000000 }
    else if d == 10 { 10000000000 }
    else if d == 11 { 100000000000 }
    else if d == 12 { 1000000000000 }
    else if d == 13 { 10000000000000 }
    else if d == 14 { 100000000000000 }
    else if d == 15 { 1000000000000000 }
    else if d == 16 { 10000000000000000 }
    else if d == 17 { 100000000000000000 }
    else if d == 18 { 1000000000000000000 }
    else { 10000000000000000000 }
}

/// Applies one transform step to the bits `b`.
pub fn apply_step(st: &TransformStep, b: u64) -> (r: Option<u64>)
    ensures
        r == step_spec(*st, b),
{
    match st {
        TransformStep::Multiply(p) => Some(mul_bits(b, *p)),
        TransformStep::Divide(p) => Some(div_bits(b, *p)),
        TransformStep::Invert => Some(
            if f64_eq(b, F64_ZERO) {
                F64_ONE
            } else {
                F64_ZERO
            },
        ),
        TransformStep::Round(d) => {
            if *d < 0 || *d >= 20 {
                None
            } else if *d == 0 {
                Some(round_bits(b))
            } else {
                let m = u64_to_bits(pow10(*d));
                let scaled = round_bits(mul_bits(sub_bits(b, trunc_bits(b)), m));
                Some(add_bits(round_bits(b), div_bits(scaled, m)))
            }
        },
    }
}

/// Applies a whole transform chain to the bits `b`.
pub fn apply_transforms(steps: &Vec<TransformStep>, b: u64) -> (r: Option<u64>)
    ensures
        r == chain_spec(steps@, b),
{
    let mut cur: u64 = b;
    let mut i: usize = 0;
    proof {
        assert(steps@.skip(0) =~= steps@);
    }
    while i < steps.len()
        invariant
            0 <= i <= steps@.len(),
            chain_spec(steps@.skip(i as int), cur) == chain_spec(steps@, b),
        decreases steps@.len() - i,
    {
        proof {
            assert(steps@.skip(i as int)[0] == steps@[i as int]);
            assert(steps@.skip(i as int).drop_first() =~= steps@.skip(i + 1));
        }
        match apply_step(&steps[i], cur) {
            Some(r) => {
                cur = r;
            },
            None => {
                return None;
            },
        }
        i += 1;
    }
    proof {
        assert(steps@.skip(steps@.len() as int) =~= Seq::<TransformStep>::empty());
    }
    Some(cur)
}

/// One task: the target item (an index into the set's item table), the
/// property written, the optional array index, the transform chain (empty
/// when no transform is configured) and the optional delta threshold as
/// binary64 bits.
pub struct Task {
    pub oid: usize,
    pub prop: Prop,
    pub idx: Option<usize>,
    pub transforms: Vec<TransformStep>,
    pub delta: Option<u64>,
}

/// The mathematical model of a task.
pub struct TaskModel {
    pub oid: usize,
    pub prop: Prop,
    pub idx: Option<usize>,
    pub transforms: Seq<TransformStep>,
    pub delta: Option<u64>,
}

impl View for Task {
    type V = TaskModel;

    open spec fn view(&self) -> TaskModel {
        TaskModel {
            oid: self.oid,
            prop: self.prop,
            idx: self.idx,
            transforms: self.transforms@,
            delta: self.delta,
        }
    }
}

/// One device node: the ordered tasks bound to it.  The protocol address
/// itself stays with the transport, which reads nodes in task-set order.
pub struct Node {
    pub tasks: Vec<Task>,
}

/// The mathematical model of a node.
pub struct NodeModel {
    pub tasks: Seq<TaskModel>,
}

/// The models of a sequence of tasks.
pub open spec fn tasks_view(v: Seq<Task>) -> Seq<TaskModel> {
    v.map_values(|t: Task| t@)
}

impl View for Node {
    type V = NodeModel;

    open spec fn view(&self) -> NodeModel {
        NodeModel { tasks: tasks_view(self.tasks@) }
    }
}

/// The models of a sequence of nodes.
pub open spec fn nodes_view(v: Seq<Node>) -> Seq<NodeModel> {
    v.map_values(|n: Node| n@)
}

/// The full task descriptor set: the nodes in read order, and the number
/// of distinct items their tasks target.  Item object identifiers are
/// kept by the caller in a table of that size; tasks name items by table
/// index.
pub struct TaskSet {
    pub nodes: Vec<Node>,
    pub n_oids: usize,
}

/// A task model is well formed for an item count when its target index
/// is within the table.
pub open spec fn task_wf(t: TaskModel, n_oids: usize) -> bool {
    t.oid < n_oids
}

/// A node model is well formed when all its tasks are.
pub open spec fn node_wf(n: NodeModel, n_oids: usize) -> bool {
    forall|i: int| 0 <= i < n.tasks.len() ==> task_wf(#[trigger] n.tasks[i], n_oids)
}

/// A well-formed node has each of its tasks well formed.
pub proof fn lemma_node_wf_elem(n: NodeModel, n_oids: usize, j: int)
    requires
        node_wf(n, n_oids),
        0 <= j < n.tasks.len(),
    ensures
        task_wf(n.tasks[j], n_oids),
{
}

/// A well-formed task set has each of its nodes well formed.
pub proof fn lemma_set_wf_node(ts: TaskSet, i: int)
    requires
        ts.wf(),
        0 <= i < nodes_view(ts.nodes@).len(),
    ensures
        node_wf(nodes_view(ts.nodes@)[i], ts.n_oids),
{
}

impl TaskSet {
    /// Every task of every node targets an item within the table.
    pub open spec fn wf(self) -> bool {
        forall|i: int| 0 <= i < nodes_view(self.nodes@).len() ==> node_wf(
            #[trigger] nodes_view(self.nodes@)[i],
            self.n_oids,
        )
    }

    /// Builds a task set, refusing one whose tasks target items outside
    /// the table; a malformed configuration fails startup, not the
    /// running pull loop.
    pub fn new(nodes: Vec<Node>, n_oids: usize) -> (r: Option<TaskSet>)
        ensures
            r matches Some(ts) ==> ts.wf() && ts.nodes@ == nodes@ && ts.n_oids == n_oids,
            r is None ==> !(TaskSet { nodes, n_oids }).wf(),
    {
        let mut i: usize = 0;
        while i < nodes.len()
            invariant
                0 <= i <= nodes@.len(),
                forall|k: int| 0 <= k < i ==> node_wf(#[trigger] nodes_view(nodes@)[k], n_oids),
            decreases nodes@.len() - i,
        {
            let node = &nodes[i];
            let mut j: usize = 0;
            while j < node.tasks.len()
                invariant
                    0 <= j <= node.tasks@.len(),
                    0 <= i < nodes@.len(),
                    node@ == nodes@[i as int]@,
                    node@ == nodes_view(nodes@)[i as int],
                    forall|k: int| 0 <= k < j ==> task_wf(#[trigger] tasks_view(node.tasks@)[k], n_oids),
                decreases node.tasks@.len() - j,
            {
                if node.tasks[j].oid >= n_oids {
                    proof {
                        assert(tasks_view(node.tasks@)[j as int] == node.tasks@[j as int]@);
                        assert_by_contradiction!(!node_wf(node@, n_oids), {
                            lemma_node_wf_elem(node@, n_oids, j as int);
                        });
                        assert_by_contradiction!(!(TaskSet { nodes, n_oids }).wf(), {
                            lemma_set_wf_node(TaskSet { nodes, n_oids }, i as int);
                        });
                    }
                    return None;
                }
                proof {
                    assert(tasks_view(node.tasks@)[j as int] == node.tasks@[j as int]@);
                }
                j += 1;
            }
            proof {
                assert(nodes_view(nodes@)[i as int] == nodes@[i as int]@);
                assert(nodes@[i as int]@.tasks == tasks_view(node.tasks@));
            }
            i += 1;
        }
        Some(TaskSet { nodes, n_oids })
    }
}

} // verus!
