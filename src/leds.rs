//! Patterns for a six-LED bar display.

use vstd::prelude::*;

verus! {

/// Number of LEDs in the bar.
pub const LED_COUNT: usize = 6;

/// A bar height: `Some(n)` lights LEDs 0 to `n`, `None` lights none.
pub type LedLevel = Option<u8>;

/// The LEDs lit by a bar height.
pub open spec fn bar_leds(level: LedLevel) -> Seq<bool> {
    Seq::new(
        6,
        |j: int|
            match level {
                Some(n) => j <= n,
                None => false,
            },
    )
}

/// Only the highest lit LED of `leds` stays lit.
pub open spec fn peak_leds(leds: Seq<bool>) -> Seq<bool> {
    Seq::new(leds.len(), |j: int| leds[j] && forall|k: int| j < k < leds.len() ==> !leds[k])
}

/// The bar height for a duty cycle in parts per ten thousand: one LED per
/// eleven percent above the first eleven, all six above sixty-six percent.
pub open spec fn duty_level(duty: int) -> LedLevel {
    if duty > 6600 {
        Some(5)
    } else if duty > 5500 {
        Some(4)
    } else if duty > 4400 {
        Some(3)
    } else if duty > 3300 {
        Some(2)
    } else if duty > 2200 {
        Some(1)
    } else if duty > 1100 {
        Some(0)
    } else {
        None
    }
}

/// The bar height for a duty cycle in parts per ten thousand.
pub fn level_of_duty(duty: u32) -> (r: LedLevel)
    ensures
        r == duty_level(duty as int),
{
    if duty > 6600 {
        Some(5)
    } else if duty > 5500 {
        Some(4)
    } else if duty > 4400 {
        Some(3)
    } else if duty > 3300 {
        Some(2)
    } else if duty > 2200 {
        Some(1)
    } else if duty > 1100 {
        Some(0)
    } else {
        None
    }
}

/// A higher duty cycle never lights fewer LEDs.
pub proof fn lemma_duty_bar_monotonic(d1: int, d2: int, j: int)
    requires
        d1 <= d2,
        0 <= j < 6,
        bar_leds(duty_level(d1))[j],
    ensures
        bar_leds(duty_level(d2))[j],
{
}

/// Which of the six LEDs are lit.
#[derive(Clone, Copy, Debug)]
pub struct LedPattern(pub [bool; 6]);

impl LedPattern {
    /// The lit LEDs, LED 0 first.
    pub open spec fn leds(self) -> Seq<bool> {
        self.0@
    }

    /// The bar pattern of a height.
    pub fn from_level(level: LedLevel) -> (r: LedPattern)
        ensures
            r.leds() == bar_leds(level),
    {
        let mut pattern = [false;6];
        let mut index: usize = 0;
        while index < LED_COUNT
            invariant
                index <= LED_COUNT,
                pattern@.len() == 6,
                forall|j: int|
                    0 <= j < 6 ==> pattern@[j] == (j < index && bar_leds(level)[j]),
            decreases LED_COUNT - index,
        {
            if let Some(n) = level {
                if n as usize >= index {
                    pattern[index] = true;
                }
            }
            index = index + 1;
        }
        assert(pattern@ =~= bar_leds(level));
        LedPattern(pattern)
    }

    /// The bar pattern for a duty cycle in parts per ten thousand.
    pub fn from_duty(duty: u32) -> (r: LedPattern)
        ensures
            r.leds() == bar_leds(duty_level(duty as int)),
    {
        LedPattern::from_level(level_of_duty(duty))
    }

    /// Whether LED `index` is lit.
    pub fn is_lit(&self, index: usize) -> (r: bool)
        requires
            index < LED_COUNT,
        ensures
            r == self.leds()[index as int],
    {
        self.0[index]
    }

    /// Turns a bar into a dot: only the highest lit LED stays lit.
    pub fn peak(self) -> (r: LedPattern)
        ensures
            r.leds() == peak_leds(self.leds()),
    {
        let ghost start = self.0@;
        let mut leds = self.0;
        let mut found_peak = false;
        let mut index: usize = LED_COUNT;
        while index > 0
            invariant
                index <= LED_COUNT,
                leds@.len() == 6,
                start.len() == 6,
                found_peak == exists|k: int| index <= k < 6 && start[k],
                forall|j: int| 0 <= j < index ==> leds@[j] == start[j],
                forall|j: int| index <= j < 6 ==> leds@[j] == peak_leds(start)[j],
            decreases index,
        {
            index = index - 1;
            assert(leds@[index as int] == start[index as int]);
            if found_peak {
                leds[index] = false;
            } else if leds[index] {
                found_peak = true;
            }
            proof {
                if !found_peak {
                    assert(!start[index as int]);
                    assert forall|k: int| index <= k < 6 implies !start[k] by {
                        if k > index && start[k] {
                            assert(exists|k2: int| index + 1 <= k2 < 6 && start[k2]);
                        }
                    }
                } else {
                    if start[index as int] {
                        assert(index <= index < 6 && start[index as int]);
                    }
                }
            }
        }
        assert(leds@ =~= peak_leds(start));
        LedPattern(leds)
    }
}

impl From<[bool; 6]> for LedPattern {
    fn from(leds: [bool; 6]) -> (r: LedPattern) {
        LedPattern(leds)
    }
}

impl vstd::std_specs::convert::FromSpecImpl<[bool; 6]> for LedPattern {
    open spec fn obeys_from_spec() -> bool {
        true
    }

    open spec fn from_spec(v: [bool; 6]) -> LedPattern {
        LedPattern(v)
    }
}

} // verus!
