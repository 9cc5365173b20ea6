//! Classification of audio samples into the display's level bands.
//!
//! A sample is a duty cycle in parts per ten thousand: the share of clock
//! periods in which the channel's monitor line was high.

use crate::pattern::{lit, segments_of, Pattern, FULL_MASK, SEGMENTS};
use vstd::prelude::*;

verus! {

/// Full scale of a sample: a line that was high on every clock period.
pub const SAMPLE_SCALE: u32 = 10_000;

/// Index of the inactive floor band, below every threshold.
pub const INACTIVE_INDEX: usize = 9;

/// The display bands, loudest first, down to the inactive floor.
#[derive(Clone, Copy, Debug, PartialEq, Eq, Structural)]
pub enum Level {
    Clip,
    Plus6,
    Nominal,
    Minus6,
    Minus12,
    Minus18,
    Minus24,
    Minus30,
    Minus36,
    Inactive,
}

/// The lowest sample that falls in band `index` (0 is the loudest band).
pub open spec fn threshold_of(index: int) -> int {
    if index == 0 {
        9000
    } else if index == 1 {
        8500
    } else if index == 2 {
        8000
    } else if index == 3 {
        7000
    } else if index == 4 {
        6000
    } else if index == 5 {
        5000
    } else if index == 6 {
        4000
    } else if index == 7 {
        3000
    } else {
        2000
    }
}

/// The first band, scanning from `index` towards the floor, whose threshold
/// `sample` reaches; the floor when none does.
pub open spec fn band_from(sample: int, index: int) -> int
    decreases 9 - index,
{
    if index >= 9 {
        9
    } else if threshold_of(index) <= sample {
        index
    } else {
        band_from(sample, index + 1)
    }
}

/// The band that `sample` falls in.
pub open spec fn band_index(sample: int) -> int {
    band_from(sample, 0)
}

/// The bar mask of band `index`: every segment from the band down to the floor
/// lit; none for the inactive band.
pub open spec fn bar_mask(index: int) -> u32 {
    (FULL_MASK >> (index as u32))
}

/// The peak mask of band `index`: the band's own segment alone; none for the
/// inactive band.
pub open spec fn dot_mask(index: int) -> u32 {
    (0b1_0000_0000u32 >> (index as u32))
}

proof fn lemma_masks_bits(i: u32, k: u32)
    by (bit_vector)
    requires
        i <= 9,
        k < 9,
    ensures
        ((0x1FFu32 >> i) >> k) & 1 == (if k + i <= 8 { 1u32 } else { 0u32 }),
        ((0x100u32 >> i) >> k) & 1 == (if k + i == 8 { 1u32 } else { 0u32 }),
        (0x1FFu32 >> i) <= 0x1FF,
        (0x100u32 >> i) <= 0x1FF,
        i < 9 ==> (0x100u32 >> i) != 0,
        i == 9 ==> (0x100u32 >> i) == 0 && (0x1FFu32 >> i) == 0,
{
}

/// The bar and peak masks light exactly the segments their names say.
pub proof fn lemma_mask_segments(index: int)
    requires
        0 <= index <= 9,
    ensures
        segments_of(bar_mask(index)) == Seq::new(9, |j: int| j >= index),
        segments_of(dot_mask(index)) == Seq::new(9, |j: int| j == index),
        bar_mask(index) <= FULL_MASK,
        dot_mask(index) <= FULL_MASK,
        index < 9 ==> dot_mask(index) != 0,
        index == 9 ==> dot_mask(index) == 0 && bar_mask(index) == 0,
{
    lemma_masks_bits(index as u32, 0);
    assert forall|j: int| 0 <= j < 9 implies lit(bar_mask(index), j) == (j >= index) && lit(
        dot_mask(index),
        j,
    ) == (j == index) by {
        lemma_masks_bits(index as u32, (8 - j) as u32);
    }
    assert(segments_of(bar_mask(index)) =~= Seq::new(9, |j: int| j >= index));
    assert(segments_of(dot_mask(index)) =~= Seq::new(9, |j: int| j == index));
}

/// A louder sample never falls in a quieter band.
pub proof fn lemma_classify_monotonic(s1: int, s2: int)
    requires
        s1 <= s2,
    ensures
        band_index(s2) <= band_index(s1),
{
    lemma_band_from_monotonic(s1, s2, 0);
}

proof fn lemma_band_from_monotonic(s1: int, s2: int, index: int)
    requires
        s1 <= s2,
        0 <= index,
    ensures
        band_from(s2, index) <= band_from(s1, index),
        index <= band_from(s1, index) <= 9 || index > 9,
    decreases 9 - index,
{
    if index < 9 {
        lemma_band_from_monotonic(s1, s2, index + 1);
    }
}

/// Every sample falls in one of the ten bands.
pub proof fn lemma_band_range(s: int)
    ensures
        0 <= band_index(s) <= 9,
{
    lemma_band_from_range(s, 0);
}

proof fn lemma_band_from_range(s: int, index: int)
    requires
        0 <= index <= 9,
    ensures
        index <= band_from(s, index) <= 9,
    decreases 9 - index,
{
    if index < 9 {
        lemma_band_from_range(s, index + 1);
    }
}

impl Level {
    /// The band's position, 0 for the loudest and 9 for the inactive floor.
    pub open spec fn index_of(self) -> int {
        match self {
            Level::Clip => 0,
            Level::Plus6 => 1,
            Level::Nominal => 2,
            Level::Minus6 => 3,
            Level::Minus12 => 4,
            Level::Minus18 => 5,
            Level::Minus24 => 6,
            Level::Minus30 => 7,
            Level::Minus36 => 8,
            Level::Inactive => 9,
        }
    }

    /// The band at position `index`.
    pub fn at(index: usize) -> (r: Level)
        requires
            index <= INACTIVE_INDEX,
        ensures
            r.index_of() == index,
    {
        match index {
            0 => Level::Clip,
            1 => Level::Plus6,
            2 => Level::Nominal,
            3 => Level::Minus6,
            4 => Level::Minus12,
            5 => Level::Minus18,
            6 => Level::Minus24,
            7 => Level::Minus30,
            8 => Level::Minus36,
            _ => Level::Inactive,
        }
    }

    /// The band's position, 0 for the loudest and 9 for the inactive floor.
    pub fn index(&self) -> (r: usize)
        ensures
            r == self.index_of(),
    {
        match self {
            Level::Clip => 0,
            Level::Plus6 => 1,
            Level::Nominal => 2,
            Level::Minus6 => 3,
            Level::Minus12 => 4,
            Level::Minus18 => 5,
            Level::Minus24 => 6,
            Level::Minus30 => 7,
            Level::Minus36 => 8,
            Level::Inactive => 9,
        }
    }

    /// The lowest sample that falls in the band at `index`.
    pub fn threshold(index: usize) -> (r: u32)
        requires
            index < SEGMENTS,
        ensures
            r == threshold_of(index as int),
    {
        match index {
            0 => 9000,
            1 => 8500,
            2 => 8000,
            3 => 7000,
            4 => 6000,
            5 => 5000,
            6 => 4000,
            7 => 3000,
            _ => 2000,
        }
    }

    /// The band of `sample`: the loudest whose threshold the sample reaches,
    /// scanning the thresholds in descending order, or `Inactive` when the
    /// sample is below them all.
    pub fn classify(sample: u32) -> (r: Level)
        ensures
            r.index_of() == band_index(sample as int),
    {
        let mut i: usize = 0;
        while i < SEGMENTS
            invariant
                i <= SEGMENTS,
                band_from(sample as int, i as int) == band_index(sample as int),
            decreases SEGMENTS - i,
        {
            if Level::threshold(i) <= sample {
                return Level::at(i);
            }
            i = i + 1;
        }
        Level::Inactive
    }

    /// Whether the band lies above the inactive floor.
    pub fn is_active(&self) -> (r: bool)
        ensures
            r == (self.index_of() < 9),
    {
        !matches!(self, Level::Inactive)
    }

    /// The bar-graph pattern of the band: every segment from the band's own
    /// down to the floor lit; all dark for the inactive band.
    pub fn to_pattern(&self) -> (r: Pattern)
        ensures
            r@ == Seq::new(9, |j: int| j >= self.index_of()),
            r.mask() == bar_mask(self.index_of()),
    {
        proof {
            lemma_mask_segments(self.index_of());
        }
        Pattern::from_mask(Level::bar_mask(self.index()))
    }

    /// The bar mask of the band at `index`.
    pub fn bar_mask(index: usize) -> (r: u32)
        requires
            index <= INACTIVE_INDEX,
        ensures
            r == bar_mask(index as int),
            r <= FULL_MASK,
            segments_of(r) == Seq::new(9, |j: int| j >= index),
    {
        proof {
            lemma_mask_segments(index as int);
        }
        FULL_MASK >> (index as u32)
    }

    /// The peak mask of the band at `index`.
    pub fn dot_mask(index: usize) -> (r: u32)
        requires
            index <= INACTIVE_INDEX,
        ensures
            r == dot_mask(index as int),
            r <= FULL_MASK,
            segments_of(r) == Seq::new(9, |j: int| j == index),
    {
        proof {
            lemma_mask_segments(index as int);
        }
        0b1_0000_0000u32 >> (index as u32)
    }
}

/// The duty cycle of a line that was high on `high` of `total` clock periods,
/// in parts per ten thousand, rounded down.
pub fn sample_from_counts(high: u32, total: u32) -> (r: u32)
    requires
        0 < total,
        high <= total,
    ensures
        r == (high as int) * (SAMPLE_SCALE as int) / (total as int),
        r <= SAMPLE_SCALE,
{
    proof {
        assert(high as u64 * 10_000u64 <= 0xFFFF_FFFFu64 * 10_000u64) by (nonlinear_arith)
            requires
                high <= 0xFFFF_FFFFu32,
        ;
        vstd::arithmetic::div_mod::lemma_div_is_ordered(
            high * SAMPLE_SCALE as int,
            total * SAMPLE_SCALE as int,
            total as int,
        );
        vstd::arithmetic::mul::lemma_mul_inequality(high as int, total as int, SAMPLE_SCALE as int);
        vstd::arithmetic::div_mod::lemma_div_multiples_vanish(SAMPLE_SCALE as int, total as int);
    }
    let scaled: u64 = high as u64 * SAMPLE_SCALE as u64;
    (scaled / total as u64) as u32
}

/// The bands of the left and right channels.
#[derive(Clone, Copy, Debug, PartialEq, Eq, Structural)]
pub struct Levels(pub Level, pub Level);

/// The patterns shown on the left and right meters.
#[derive(Clone, Copy, Debug, PartialEq, Eq, Structural)]
pub struct Patterns(pub Pattern, pub Pattern);

impl Levels {
    /// Whether either channel lies above the inactive floor.
    pub open spec fn active(self) -> bool {
        self.0.index_of() < 9 || self.1.index_of() < 9
    }

    /// Whether either channel lies above the inactive floor.
    pub fn is_active(&self) -> (r: bool)
        ensures
            r == self.active(),
    {
        self.0.is_active() || self.1.is_active()
    }

    /// The bar-graph patterns of both channels.
    pub fn to_patterns(&self) -> (r: Patterns)
        ensures
            r.0@ == Seq::new(9, |j: int| j >= self.0.index_of()),
            r.1@ == Seq::new(9, |j: int| j >= self.1.index_of()),
            r.0.mask() == bar_mask(self.0.index_of()),
            r.1.mask() == bar_mask(self.1.index_of()),
    {
        Patterns(self.0.to_pattern(), self.1.to_pattern())
    }
}

} // verus!
