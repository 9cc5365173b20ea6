//! Instants of the monotonic 1 MHz clock and the deadline arithmetic on them.
//!
//! Tick counts are 32 bits wide and wrap around; the arithmetic and the
//! wrap-aware ordering come from `fugit`.

use fugit::ExtU32;
use vstd::prelude::*;

verus! {

/// Number of clock ticks in one millisecond (the clock runs at 1 MHz).
pub const TICKS_PER_MILLI: u32 = 1_000;

/// Largest delay, in milliseconds, whose tick count fits in 32 bits.
pub const MAX_DELAY_MS: u32 = 4_294_967;

/// Largest delay, in milliseconds, that stays below half the tick range, so a
/// deadline that far ahead still compares as lying after its start.
pub const MAX_HOLD_MS: u32 = 2_147_483;

/// The size of the tick range.
pub open spec fn tick_range() -> int {
    0x1_0000_0000
}

/// A tick count reduced onto the 32-bit clock.
pub open spec fn wrap_ticks(t: int) -> u32 {
    (t % tick_range()) as u32
}

/// `a` lies strictly before `b` on the wrapping clock: `b` is between one tick
/// and half the tick range after `a`.
pub open spec fn precedes(a: u32, b: u32) -> bool {
    let d = (b - a) % tick_range();
    1 <= d && d <= 0x8000_0000
}

/// Relies on fugit's `Instant + Duration` on a 1 MHz timer, with the duration
/// built by `ExtU32::millis`: the delay becomes `ms * 1000` ticks (which must
/// fit in u32, else the multiplication overflows) and is added with
/// wrap-around.
#[verifier::external_body]
fn fugit_add_millis(ticks: u32, ms: u32) -> (r: u32)
    requires
        ms <= MAX_DELAY_MS,
    ensures
        r == wrap_ticks(ticks + ms * 1000),
{
    (fugit::TimerInstantU32::<1_000_000>::from_ticks(ticks) + ms.millis()).ticks()
}

/// Relies on fugit's wrap-aware ordering of `Instant`s: `a < b` holds when the
/// wrapping difference `a - b` exceeds half the tick range.
#[verifier::external_body]
fn fugit_precedes(a: u32, b: u32) -> (r: bool)
    ensures
        r == precedes(a, b),
{
    fugit::TimerInstantU32::<1_000_000>::from_ticks(a)
        < fugit::TimerInstantU32::<1_000_000>::from_ticks(b)
}

/// A reading of the monotonic clock, in ticks.
#[derive(Clone, Copy, Debug, PartialEq, Eq, Structural)]
pub struct Instant {
    pub ticks: u32,
}

impl Instant {
    /// The instant `ms` milliseconds after this one.
    pub open spec fn plus_millis(self, ms: int) -> Instant {
        Instant { ticks: wrap_ticks(self.ticks + ms * TICKS_PER_MILLI) }
    }

    /// This instant lies strictly before `other`.
    pub open spec fn before(self, other: Instant) -> bool {
        precedes(self.ticks, other.ticks)
    }

    pub fn from_ticks(ticks: u32) -> (r: Instant)
        ensures
            r.ticks == ticks,
    {
        Instant { ticks }
    }

    pub fn ticks(&self) -> (r: u32)
        ensures
            r == self.ticks,
    {
        self.ticks
    }

    /// The instant `ms` milliseconds later.
    pub fn add_millis(self, ms: u32) -> (r: Instant)
        requires
            ms <= MAX_DELAY_MS,
        ensures
            r == self.plus_millis(ms as int),
    {
        Instant { ticks: fugit_add_millis(self.ticks, ms) }
    }

    /// Whether this instant lies strictly before `other`.
    pub fn is_before(self, other: Instant) -> (r: bool)
        ensures
            r == self.before(other),
    {
        fugit_precedes(self.ticks, other.ticks)
    }
}

/// Adding two delays one after the other lands where adding their sum does.
pub proof fn lemma_plus_millis_add(t: Instant, a: int, b: int)
    ensures
        t.plus_millis(a).plus_millis(b) == t.plus_millis(a + b),
{
    let r = tick_range();
    vstd::arithmetic::div_mod::lemma_add_mod_noop(t.ticks + a * 1000, b * 1000, r);
    vstd::arithmetic::div_mod::lemma_mod_twice(b * 1000, r);
    vstd::arithmetic::div_mod::lemma_small_mod(((t.ticks + a * 1000) % r) as nat, r as nat);
    vstd::arithmetic::div_mod::lemma_add_mod_noop(
        (t.ticks + a * 1000) % r,
        b * 1000,
        r,
    );
}

/// Two instants that lie within half the tick range of a common start compare
/// as their offsets from it do.
pub proof fn lemma_before_offsets(t: Instant, x: int, y: int)
    requires
        -(MAX_HOLD_MS as int) <= y - x <= MAX_HOLD_MS,
    ensures
        t.plus_millis(x).before(t.plus_millis(y)) <==> x < y,
{
    let r = tick_range();
    let a = t.ticks + x * 1000;
    let b = t.ticks + y * 1000;
    vstd::arithmetic::div_mod::lemma_sub_mod_noop(b, a, r);
    assert(b - a == (y - x) * 1000);
    let d = (b - a) % r;
    if x < y {
        vstd::arithmetic::div_mod::lemma_small_mod((b - a) as nat, r as nat);
    } else {
        vstd::arithmetic::div_mod::lemma_mod_add_multiples_vanish(b - a, r);
        if b - a < 0 {
            vstd::arithmetic::div_mod::lemma_small_mod((b - a + r) as nat, r as nat);
        }
    }
}

} // verus!
