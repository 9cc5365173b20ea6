//! Debouncing of physical controls: a fixed-capacity table from input
//! identifier to the instant before which that input is ignored.
//!
//! The policy is leading-edge with a self-extending cooldown: callers check
//! [`DebouncersExt::is_ok`] before acting and call [`DebouncersExt::update`]
//! on every edge, whatever the check said. The first edge fires at once; an
//! edge inside the cooldown is suppressed and restarts the cooldown from its
//! own time, so a bouncing input fires again only after a full quiet window.

use crate::time::{
    lemma_before_offsets, lemma_plus_millis_add, precedes, Instant, MAX_DELAY_MS, MAX_HOLD_MS,
};
use heapless::LinearMap;
use vstd::prelude::*;

verus! {

/// Number of distinct inputs a debounce table can track.
pub const DEBOUNCE_CAPACITY: usize = 8;

/// heapless's `LinearMap`, whose contents the library sees only through
/// `table_entries`.
#[verifier::external_type_specification]
#[verifier::external_body]
#[verifier::reject_recursive_types(K)]
#[verifier::reject_recursive_types(V)]
pub struct ExLinearMap<K, V, const N: usize>(LinearMap<K, V, N>);

/// The table type: input identifier to deadline ticks, up to eight entries.
pub type DebounceTable = LinearMap<usize, u32, 8>;

/// The entries of a debounce table: input identifier to deadline ticks.
pub uninterp spec fn table_entries(table: DebounceTable) -> Map<usize, u32>;

/// Relies on heapless's `LinearMap::new`: the map starts empty.
#[verifier::external_body]
fn table_new() -> (r: DebounceTable)
    ensures
        table_entries(r).dom() == Set::<usize>::empty(),
{
    LinearMap::new()
}

/// Relies on heapless's `LinearMap::get`: the value stored under `id`, if any.
#[verifier::external_body]
fn table_get(table: &DebounceTable, id: usize) -> (r: Option<u32>)
    ensures
        r == (if table_entries(*table).contains_key(id) {
            Some(table_entries(*table)[id])
        } else {
            None
        }),
{
    table.get(&id).copied()
}

/// Relies on heapless's `LinearMap::insert`: a key already present has its
/// value replaced; a new key is added while fewer than `N` keys are stored,
/// and refused (the map unchanged) when it is full.
#[verifier::external_body]
fn table_insert(table: &mut DebounceTable, id: usize, ticks: u32) -> (r: bool)
    ensures
        r == (table_entries(*old(table)).contains_key(id) || table_entries(*old(table)).len()
            < 8),
        r ==> table_entries(*final(table)) == table_entries(*old(table)).insert(id, ticks),
        !r ==> table_entries(*final(table)) == table_entries(*old(table)),
    no_unwind
{
    table.insert(id, ticks).is_ok()
}

/// Whether an edge of input `id` at `now` may act, given the deadlines.
pub open spec fn debounce_ok(deadlines: Map<usize, u32>, id: usize, now: Instant) -> bool {
    !deadlines.contains_key(id) || precedes(deadlines[id], now.ticks)
}

/// The deadlines after an edge of input `id` at `now` with a cooldown of
/// `delay_ms`: the input's deadline becomes `now + delay_ms`, unless the table
/// is full and holds no entry for it.
pub open spec fn debounce_after(
    deadlines: Map<usize, u32>,
    id: usize,
    delay_ms: int,
    now: Instant,
) -> Map<usize, u32> {
    if deadlines.contains_key(id) || deadlines.len() < DEBOUNCE_CAPACITY {
        deadlines.insert(id, now.plus_millis(delay_ms).ticks)
    } else {
        deadlines
    }
}

/// Debounce checks over a table of deadlines.
pub trait DebouncersExt {
    /// The deadline ticks of each input that has an entry.
    spec fn deadlines(&self) -> Map<usize, u32>;

    /// True when `id` has no entry, or its deadline lies before `now`.
    fn is_ok(&self, id: usize, now: Instant) -> (r: bool)
        ensures
            r == debounce_ok(self.deadlines(), id, now),
            self.deadlines().dom().finite(),
            self.deadlines().len() <= DEBOUNCE_CAPACITY,
    ;

    /// Sets the deadline of `id` to `delay_ms` after `now`, whether or not an
    /// edge at `now` was allowed to act.
    fn update(&mut self, id: usize, delay_ms: u32, now: Instant)
        requires
            delay_ms <= MAX_DELAY_MS,
        ensures
            final(self).deadlines() == debounce_after(
                old(self).deadlines(),
                id,
                delay_ms as int,
                now,
            ),
            final(self).deadlines().dom().finite(),
            final(self).deadlines().len() <= DEBOUNCE_CAPACITY,
    ;
}

/// A debounce table for up to eight inputs.
pub struct Debouncers {
    table: DebounceTable,
}

impl Debouncers {
    #[verifier::type_invariant]
    spec fn bounded(self) -> bool {
        &&& table_entries(self.table).dom().finite()
        &&& table_entries(self.table).len() <= DEBOUNCE_CAPACITY
    }

    /// An empty table: every input may act.
    pub fn new() -> (r: Debouncers)
        ensures
            r.deadlines() == Map::<usize, u32>::empty(),
    {
        let r = Debouncers { table: table_new() };
        assert(r.deadlines() =~= Map::<usize, u32>::empty());
        r
    }
}

impl DebouncersExt for Debouncers {
    closed spec fn deadlines(&self) -> Map<usize, u32> {
        table_entries(self.table)
    }

    fn is_ok(&self, id: usize, now: Instant) -> (r: bool) {
        proof {
            use_type_invariant(self);
        }
        match table_get(&self.table, id) {
            Some(ticks) => Instant::from_ticks(ticks).is_before(now),
            None => true,
        }
    }

    fn update(&mut self, id: usize, delay_ms: u32, now: Instant) {
        proof {
            use_type_invariant(&*self);
        }
        let deadline = now.add_millis(delay_ms);
        let _ = table_insert(&mut self.table, id, deadline.ticks);
    }
}

/// The cooldown extends itself: on an input with no entry yet, edges at `t0`,
/// `t0 + a` and `t0 + b`, each within the cooldown of the one before, let only
/// the first act, and leave the deadline a full cooldown after the last.
pub proof fn lemma_cooldown_extends(
    deadlines: Map<usize, u32>,
    id: usize,
    delay_ms: int,
    t0: Instant,
    a: int,
    b: int,
)
    requires
        deadlines.dom().finite(),
        deadlines.len() < DEBOUNCE_CAPACITY,
        !deadlines.contains_key(id),
        0 <= delay_ms <= MAX_HOLD_MS,
        0 <= a <= delay_ms,
        a <= b <= a + delay_ms,
    ensures
        ({
            let first = debounce_after(deadlines, id, delay_ms, t0);
            let second = debounce_after(first, id, delay_ms, t0.plus_millis(a));
            let third = debounce_after(second, id, delay_ms, t0.plus_millis(b));
            &&& debounce_ok(deadlines, id, t0)
            &&& !debounce_ok(first, id, t0.plus_millis(a))
            &&& !debounce_ok(second, id, t0.plus_millis(b))
            &&& third[id] == t0.plus_millis(b + delay_ms).ticks
        }),
{
    lemma_plus_millis_add(t0, a, delay_ms);
    lemma_plus_millis_add(t0, b, delay_ms);
    lemma_before_offsets(t0, delay_ms, a);
    lemma_before_offsets(t0, a + delay_ms, b);
}

} // verus!
