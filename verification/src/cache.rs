//! The delta cache and change filter.
//!
//! The cache keeps, per item, the last published event with its delta
//! threshold and the time it was cached; it is the only state that
//! crosses cycle boundaries.  An event is published only if its item
//! has never been cached, its status changed, its value changed by at
//! least the entry's delta threshold, or — when a maximum cache age is
//! configured — the entry is older than that age, a periodic heartbeat
//! for unchanged values.  Published events become the new cache
//! baseline; suppressed ones leave the cache untouched.

use vstd::prelude::*;

use crate::cycle::{opt_prepared_view, slots_view, Prepared, PreparedModel, Reading, ReadingModel};
use crate::cycle::{copy_prepared, copy_reading};
use crate::fbits::{abs_bits, f64_lt_bits, f_sub};
use crate::fbits::{f64_abs, f64_lt, sub_bits};
use crate::value::{raw_to_f64_spec, value_eq_spec, RawModel, RawValue};
use crate::value::{raw_to_f64, value_eq};

verus! {

/// One cache entry: the last published event, the delta threshold it
/// was prepared with, and the time it was cached.
pub struct CacheEntry {
    pub state: Reading,
    pub delta: Option<u64>,
    pub ts: u64,
}

/// The mathematical model of a cache entry.
pub struct CacheEntryModel {
    pub state: ReadingModel,
    pub delta: Option<u64>,
    pub ts: u64,
}

impl View for CacheEntry {
    type V = CacheEntryModel;

    open spec fn view(&self) -> CacheEntryModel {
        CacheEntryModel { state: self.state@, delta: self.delta, ts: self.ts }
    }
}

/// The model of an optional cache entry.
pub open spec fn opt_entry_view(e: Option<CacheEntry>) -> Option<CacheEntryModel> {
    match e {
        Some(x) => Some(x@),
        None => None,
    }
}

/// The models of the cache's entry table.
pub open spec fn entries_view(v: Seq<Option<CacheEntry>>) -> Seq<Option<CacheEntryModel>> {
    v.map_values(|e: Option<CacheEntry>| opt_entry_view(e))
}

/// Whether the new value lies within the cached entry's delta threshold
/// of the cached value: only when a threshold is set, both events carry
/// a value, both values convert to numbers, and the absolute difference
/// is below the threshold.
pub open spec fn within_delta_spec(
    delta: Option<u64>,
    cached: Option<RawModel>,
    cur: Option<RawModel>,
) -> bool {
    match (delta, cached, cur) {
        (Some(d), Some(cv), Some(nv)) => match (raw_to_f64_spec(cv), raw_to_f64_spec(nv)) {
            (Some(cb), Some(nb)) => f64_lt_bits(abs_bits(f_sub(cb, nb)), d),
            _ => false,
        },
        _ => false,
    }
}

/// Equality of optional values: both absent, or both present and equal.
pub open spec fn opt_value_eq_spec(a: Option<RawModel>, b: Option<RawModel>) -> bool {
    match (a, b) {
        (None, None) => true,
        (Some(x), Some(y)) => value_eq_spec(x, y),
        _ => false,
    }
}

/// Whether a new event is unchanged relative to a cached entry: same
/// status, and the same value or one within the delta threshold.
pub open spec fn unchanged_spec(entry: CacheEntryModel, cur: ReadingModel) -> bool {
    &&& entry.state.status == cur.status
    &&& (opt_value_eq_spec(entry.state.value, cur.value) || within_delta_spec(
        entry.delta,
        entry.state.value,
        cur.value,
    ))
}

/// Whether a cache entry has aged out at `now`: more than the maximum
/// cache age has passed since it was cached.
pub open spec fn expired_spec(entry: CacheEntryModel, ttl: u64, now: u64) -> bool {
    now - entry.ts > ttl
}

/// Whether an event survives the change filter: there is an event at
/// all, and its item has no cache entry, or one it meaningfully
/// differs from, or — when a maximum cache age is configured — one
/// older than that age (the heartbeat for unchanged values).
pub open spec fn keep_spec(
    ttl: Option<u64>,
    entry: Option<CacheEntryModel>,
    st: Option<PreparedModel>,
    now: u64,
) -> bool {
    match st {
        None => false,
        Some(p) => match entry {
            None => true,
            Some(e) => !unchanged_spec(e, p.state) || (ttl matches Some(t) && expired_spec(
                e,
                t,
                now,
            )),
        },
    }
}

/// The cache slot after the cycle: a published event becomes the new
/// baseline, stamped `now`; the slot of a suppressed or absent event
/// stays as it was.
pub open spec fn cache_after_spec(
    ttl: Option<u64>,
    entry: Option<CacheEntryModel>,
    st: Option<PreparedModel>,
    now: u64,
) -> Option<CacheEntryModel> {
    if keep_spec(ttl, entry, st, now) {
        match st {
            Some(p) => Some(CacheEntryModel { state: p.state, delta: p.delta, ts: now }),
            None => entry,
        }
    } else {
        entry
    }
}

/// Decides whether the new value lies within the cached delta threshold.
pub fn within_delta(delta: &Option<u64>, cached: &Option<RawValue>, cur: &Option<RawValue>) -> (r:
    bool)
    ensures
        r == within_delta_spec(
            *delta,
            crate::cycle::opt_raw_view(*cached),
            crate::cycle::opt_raw_view(*cur),
        ),
{
    match (delta, cached, cur) {
        (Some(d), Some(cv), Some(nv)) => match (raw_to_f64(cv), raw_to_f64(nv)) {
            (Some(cb), Some(nb)) => f64_lt(f64_abs(sub_bits(cb, nb)), *d),
            _ => false,
        },
        _ => false,
    }
}

/// Decides whether a new event is unchanged relative to a cached entry.
pub fn unchanged(entry: &CacheEntry, cur: &Reading) -> (r: bool)
    ensures
        r == unchanged_spec(entry@, cur@),
{
    if entry.state.status != cur.status {
        return false;
    }
    let values_eq = match (&entry.state.value, &cur.value) {
        (None, None) => true,
        (Some(x), Some(y)) => value_eq(x, y),
        _ => false,
    };
    if values_eq {
        return true;
    }
    within_delta(&entry.delta, &entry.state.value, &cur.value)
}

/// The delta cache: the optional maximum cache age, one entry slot per
/// item of the table, and the time of the last filter pass.
pub struct DeltaCache {
    pub ttl: Option<u64>,
    pub slots: Vec<Option<CacheEntry>>,
    pub clock: u64,
}

/// The mathematical model of the delta cache.
pub struct DeltaCacheModel {
    pub ttl: Option<u64>,
    pub slots: Seq<Option<CacheEntryModel>>,
    pub clock: u64,
}

impl View for DeltaCache {
    type V = DeltaCacheModel;

    open spec fn view(&self) -> DeltaCacheModel {
        DeltaCacheModel { ttl: self.ttl, slots: entries_view(self.slots@), clock: self.clock }
    }
}

impl DeltaCache {
    /// Cache entries never come from the future: each entry was cached
    /// at or before the last filter pass.
    pub open spec fn wf(self) -> bool {
        forall|i: int| 0 <= i < self@.slots.len() ==> match #[trigger] self@.slots[i] {
            Some(e) => e.ts <= self.clock,
            None => true,
        }
    }

    /// An empty cache over a table of `n_oids` items.
    #[verifier::loop_isolation(false)]
    pub fn new(ttl: Option<u64>, n_oids: usize) -> (r: DeltaCache)
        ensures
            r.wf(),
            r.ttl == ttl,
            r.clock == 0,
            r@.slots.len() == n_oids,
            forall|i: int| 0 <= i < n_oids ==> r@.slots[i] is None,
    {
        let mut slots: Vec<Option<CacheEntry>> = Vec::new();
        let mut i: usize = 0;
        while i < n_oids
            invariant
                slots@.len() == i,
                0 <= i <= n_oids,
                forall|j: int| 0 <= j < i ==> slots@[j] is None,
            decreases n_oids - i,
        {
            slots.push(None);
            i += 1;
        }
        proof {
            assert forall|j: int| 0 <= j < n_oids implies entries_view(slots@)[j] is None by {
                assert(entries_view(slots@)[j] == opt_entry_view(slots@[j]));
            }
        }
        DeltaCache { ttl, slots, clock: 0 }
    }

    /// Filters one cycle's consolidated events against the cache and
    /// updates the cache: slot by slot, an event survives exactly when
    /// the filter keeps it, and the cache slot becomes the published
    /// event stamped `now` — or stays as it was for suppressed and
    /// absent events.
    #[verifier::loop_isolation(false)]
    pub fn retain_modified(&mut self, states: &Vec<Option<Prepared>>, now: u64) -> (out: Vec<
        Option<Prepared>,
    >)
        requires
            old(self).wf(),
            now >= old(self).clock,
            states@.len() == old(self)@.slots.len(),
        ensures
            final(self).wf(),
            final(self).ttl == old(self).ttl,
            final(self).clock == now,
            final(self)@.slots.len() == old(self)@.slots.len(),
            out@.len() == states@.len(),
            forall|i: int| 0 <= i < states@.len() ==> opt_prepared_view(#[trigger] out@[i]) == (
            if keep_spec(old(self).ttl, old(self)@.slots[i], slots_view(states@)[i], now) {
                slots_view(states@)[i]
            } else {
                None::<PreparedModel>
            }),
            forall|i: int| 0 <= i < states@.len() ==> #[trigger] final(self)@.slots[i]
                == cache_after_spec(
                old(self).ttl,
                old(self)@.slots[i],
                slots_view(states@)[i],
                now,
            ),
    {
        let mut out: Vec<Option<Prepared>> = Vec::new();
        let n = states.len();
        let mut i: usize = 0;
        proof {
            assert forall|j: int| 0 <= j < n implies match opt_entry_view(
                #[trigger] self.slots@[j],
            ) {
                Some(e) => e.ts <= now,
                None => true,
            } by {
                assert(old(self)@.slots[j] == opt_entry_view(old(self).slots@[j]));
            }
        }
        while i < n
            invariant
                0 <= i <= n,
                out@.len() == i,
                self.ttl == old(self).ttl,
                self.clock == old(self).clock,
                self.slots@.len() == old(self).slots@.len(),
                forall|j: int| i <= j < n ==> self.slots@[j] == old(self).slots@[j],
                forall|j: int| 0 <= j < n ==> match opt_entry_view(#[trigger] self.slots@[j]) {
                    Some(e) => e.ts <= now,
                    None => true,
                },
                forall|j: int| 0 <= j < i ==> opt_prepared_view(#[trigger] out@[j]) == (
                if keep_spec(
                    old(self).ttl,
                    opt_entry_view(old(self).slots@[j]),
                    opt_prepared_view(states@[j]),
                    now,
                ) {
                    opt_prepared_view(states@[j])
                } else {
                    None::<PreparedModel>
                }),
                forall|j: int| 0 <= j < i ==> opt_entry_view(#[trigger] self.slots@[j])
                    == cache_after_spec(
                    old(self).ttl,
                    opt_entry_view(old(self).slots@[j]),
                    opt_prepared_view(states@[j]),
                    now,
                ),
            decreases n - i,
        {
            match &states[i] {
                None => {
                    out.push(None);
                },
                Some(p) => {
                    let keep = match &self.slots[i] {
                        None => true,
                        Some(e) => {
                            let aged = match self.ttl {
                                Some(t) => now - e.ts > t,
                                None => false,
                            };
                            !unchanged(e, &p.state) || aged
                        },
                    };
                    if keep {
                        let entry = CacheEntry {
                            state: copy_reading(&p.state),
                            delta: p.delta,
                            ts: now,
                        };
                        self.slots[i] = Some(entry);
                        out.push(Some(copy_prepared(p)));
                    } else {
                        out.push(None);
                    }
                },
            }
            i += 1;
        }
        proof {
            assert forall|j: int| 0 <= j < states@.len() implies opt_prepared_view(
                #[trigger] out@[j],
            ) == (
            if keep_spec(old(self).ttl, old(self)@.slots[j], slots_view(states@)[j], now) {
                slots_view(states@)[j]
            } else {
                None::<PreparedModel>
            }) by {
                assert(old(self)@.slots[j] == opt_entry_view(old(self).slots@[j]));
                assert(slots_view(states@)[j] == opt_prepared_view(states@[j]));
            }
            assert forall|j: int| 0 <= j < states@.len() implies #[trigger] self@.slots[j]
                == cache_after_spec(
                old(self).ttl,
                old(self)@.slots[j],
                slots_view(states@)[j],
                now,
            ) by {
                assert(self@.slots[j] == opt_entry_view(self.slots@[j]));
                assert(old(self)@.slots[j] == opt_entry_view(old(self).slots@[j]));
                assert(slots_view(states@)[j] == opt_prepared_view(states@[j]));
            }
            assert forall|j: int| 0 <= j < self@.slots.len() implies match #[trigger] self@.slots[j] {
                Some(e) => e.ts <= now,
                None => true,
            } by {
                assert(self@.slots[j] == opt_entry_view(self.slots@[j]));
            }
        }
        self.clock = now;
        out
    }
}

} // verus!
