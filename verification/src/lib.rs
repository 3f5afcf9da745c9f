//! Polling core for a field-device connector: batched acquisition of raw
//! point readings, per-task extraction and numeric transform, per-cycle
//! failure consolidation, delta-based change filtering, and event emission.

use vstd::prelude::*;

pub mod cache;
pub mod cycle;
pub mod fbits;
pub mod laws;
pub mod pull;
pub mod sched;
pub mod task;
pub mod topic;
pub mod value;

verus! {

/// Status sentinel published for an item whose reading failed this cycle.
pub const ITEM_STATUS_ERROR: i16 = -1;

/// Status published for an item created by a plain value write.
pub const ITEM_STATUS_OK: i16 = 1;

} // verus!
