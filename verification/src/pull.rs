//! The pull cycle, end to end.
//!
//! One call runs everything between two scheduler ticks: the batch
//! result is extracted and transformed into per-item events, failures
//! are consolidated, the delta cache filters out unchanged items and
//! adopts the published ones as the new baseline.  A total batch
//! failure produces no events, leaves the cache untouched and raises
//! the point-of-failure flag — exactly once per cycle, and only then.

use vstd::prelude::*;

use crate::cache::{cache_after_spec, keep_spec, DeltaCache};
use crate::cycle::{consolidate, consolidate_spec, init_model, nodes_fold, opt_prepared_view, raws_view, run_extraction, slots_view, CycleModel, Prepared, PreparedModel};
use crate::task::{nodes_view, TaskSet};
use crate::value::RawValue;

verus! {

/// What one batch acquisition yielded: per-node results in request
/// order (a node's entry is absent when that node could not be read or
/// its value could not be converted), or total failure of the call.
pub enum BatchResult {
    Read(Vec<Option<RawValue>>),
    Fail,
}

/// What one cycle hands to the publisher: per-item surviving events,
/// and whether the point-of-failure signal must be raised.
pub struct CycleOutput {
    pub events: Vec<Option<Prepared>>,
    pub poc: bool,
}

/// The consolidated per-item events a successful batch produces, before
/// filtering.
pub open spec fn cycle_states_spec(cfg: TaskSet, rs: Seq<Option<crate::value::RawModel>>) -> Seq<
    Option<PreparedModel>,
> {
    consolidate_spec(nodes_fold(init_model(cfg.n_oids as int), nodes_view(cfg.nodes@), rs))
}

/// Runs one pull cycle: extraction and transform over the batch result,
/// failure consolidation, then the delta cache's change filter.
///
/// On total batch failure the point-of-failure flag is raised, no event
/// is produced and the cache — including its clock — is left untouched,
/// so stale cached values are not re-flagged during a transient outage.
/// Otherwise the flag stays down and, item by item, the output carries
/// exactly the consolidated events the filter keeps, while the cache
/// adopts the published ones stamped `now`.
pub fn run_cycle(cfg: &TaskSet, batch: &BatchResult, cache: &mut DeltaCache, now: u64) -> (out:
    CycleOutput)
    requires
        cfg.wf(),
        old(cache).wf(),
        old(cache)@.slots.len() == cfg.n_oids,
        now >= old(cache).clock,
        batch matches BatchResult::Read(rs) ==> rs@.len() == cfg.nodes@.len(),
    ensures
        final(cache).wf(),
        out.poc == (batch is Fail),
        batch is Fail ==> *final(cache) == *old(cache) && out.events@.len() == 0,
        batch matches BatchResult::Read(rs) ==> {
            let cons = cycle_states_spec(*cfg, raws_view(rs@));
            &&& out.events@.len() == cfg.n_oids
            &&& final(cache).ttl == old(cache).ttl
            &&& final(cache).clock == now
            &&& final(cache)@.slots.len() == cfg.n_oids
            &&& forall|i: int| 0 <= i < cfg.n_oids ==> opt_prepared_view(#[trigger] out.events@[i])
                == (if keep_spec(old(cache).ttl, old(cache)@.slots[i], cons[i], now) {
                cons[i]
            } else {
                None::<PreparedModel>
            })
            &&& forall|i: int| 0 <= i < cfg.n_oids ==> #[trigger] final(cache)@.slots[i]
                == cache_after_spec(old(cache).ttl, old(cache)@.slots[i], cons[i], now)
        },
{
    match batch {
        BatchResult::Fail => CycleOutput { events: Vec::new(), poc: true },
        BatchResult::Read(rs) => {
            let cs = run_extraction(cfg, rs);
            let cons = consolidate(cs);
            let events = cache.retain_modified(&cons, now);
            proof {
                assert(slots_view(cons@) == cycle_states_spec(*cfg, raws_view(rs@)));
            }
            CycleOutput { events, poc: false }
        },
    }
}

} // verus!
