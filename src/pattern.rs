//! Nine-segment display patterns and the bit masks they are written as.

use vstd::prelude::*;

verus! {

/// Number of segments on each meter display.
pub const SEGMENTS: usize = 9;

/// The mask with every segment lit.
pub const FULL_MASK: u32 = 0b1_1111_1111;

/// Whether segment `j` is lit in the mask `bits`. Segment 0 (the loudest) is
/// the most significant of the nine bits, segment 8 the least significant.
pub open spec fn lit(bits: u32, j: int) -> bool {
    (bits >> ((8 - j) as u32)) & 1 == 1
}

/// The nine segments of a mask, loudest first.
pub open spec fn segments_of(bits: u32) -> Seq<bool> {
    Seq::new(9, |j: int| lit(bits, j))
}

/// Segment `j` of the result is segment `j + n` (circularly) of `s`.
pub open spec fn rotated_left(s: Seq<bool>, n: int) -> Seq<bool> {
    Seq::new(s.len(), |j: int| s[(j + n) % (s.len() as int)])
}

/// Segment `j` of the result is segment `j - n` (circularly) of `s`.
pub open spec fn rotated_right(s: Seq<bool>, n: int) -> Seq<bool> {
    Seq::new(s.len(), |j: int| s[(j - n) % (s.len() as int)])
}

/// Setting or clearing one bit of a nine-bit mask touches that bit alone.
proof fn lemma_bit_update(x: u32, k: u32, i: u32)
    by (bit_vector)
    requires
        x < 512,
        k < 9,
        i < 9,
    ensures
        ((x | (1u32 << k)) >> i) & 1 == (if i == k { 1u32 } else { (x >> i) & 1 }),
        ((x & !(1u32 << k)) >> i) & 1 == (if i == k { 0u32 } else { (x >> i) & 1 }),
        (x | (1u32 << k)) < 512,
        (x & !(1u32 << k)) < 512,
{
}

/// A fixed-width bit vector of nine display segments.
#[derive(Clone, Copy, Debug, PartialEq, Eq, Structural)]
pub struct Pattern {
    bits: u32,
}

impl Pattern {
    #[verifier::type_invariant]
    spec fn fits(self) -> bool {
        self.bits <= FULL_MASK
    }

    /// The mask that holds this pattern's segments.
    pub closed spec fn mask(self) -> u32 {
        self.bits
    }
}

impl View for Pattern {
    type V = Seq<bool>;

    open spec fn view(&self) -> Seq<bool> {
        segments_of(self.mask())
    }
}

impl Pattern {
    /// The pattern with every segment dark.
    pub fn new() -> (r: Pattern)
        ensures
            r.mask() == 0,
            r@ == Seq::new(9, |j: int| false),
    {
        let r = Pattern { bits: 0 };
        assert forall|j: int| 0 <= j < 9 implies !lit(0u32, j) by {
            let s = (8 - j) as u32;
            assert((0u32 >> s) & 1 == 0) by (bit_vector);
        }
        assert(r@ =~= Seq::new(9, |j: int| false));
        r
    }

    /// The pattern whose segments are the bits of `mask`.
    pub fn from_mask(mask: u32) -> (r: Pattern)
        requires
            mask <= FULL_MASK,
        ensures
            r.mask() == mask,
            r@ == segments_of(mask),
    {
        Pattern { bits: mask }
    }

    /// The pattern as a nine-bit mask, segment 0 in the highest bit.
    pub fn bits(&self) -> (r: u32)
        ensures
            r == self.mask(),
            r <= FULL_MASK,
            segments_of(r) == self@,
    {
        proof {
            use_type_invariant(self);
        }
        self.bits
    }

    /// Whether segment `index` is lit.
    pub fn get(&self, index: usize) -> (r: bool)
        requires
            index < SEGMENTS,
        ensures
            r == self@[index as int],
    {
        (self.bits >> ((8 - index) as u32)) & 1 == 1
    }

    /// Lights or darkens segment `index`, leaving the others as they were.
    pub fn set_at(&mut self, index: usize, value: bool)
        requires
            index < SEGMENTS,
        ensures
            final(self)@ == old(self)@.update(index as int, value),
    {
        proof {
            use_type_invariant(&*self);
        }
        let old_bits = self.bits;
        let k = (8 - index) as u32;
        let new_bits = if value {
            old_bits | (1u32 << k)
        } else {
            old_bits & !(1u32 << k)
        };
        proof {
            lemma_bit_update(old_bits, k, 0);
            assert forall|j: int| 0 <= j < 9 implies lit(new_bits, j) == (if j == index {
                value
            } else {
                lit(old_bits, j)
            }) by {
                lemma_bit_update(old_bits, k, (8 - j) as u32);
            }
            assert(segments_of(new_bits) =~= segments_of(old_bits).update(index as int, value));
        }
        self.bits = new_bits;
    }

    /// Lights or darkens every segment from `from` up to, not including, `to`.
    pub fn set_range(&mut self, from: usize, to: usize, value: bool)
        requires
            from <= to <= SEGMENTS,
        ensures
            final(self)@ == Seq::new(
                9,
                |j: int| if from <= j < to { value } else { old(self)@[j] },
            ),
    {
        let ghost start = self@;
        let mut i = from;
        while i < to
            invariant
                from <= i <= to <= SEGMENTS,
                self@ == Seq::new(9, |j: int| if from <= j < i { value } else { start[j] }),
            decreases to - i,
        {
            self.set_at(i, value);
            i = i + 1;
            assert(self@ =~= Seq::new(9, |j: int| if from <= j < i { value } else { start[j] }));
        }
    }

    /// Rotates the segments towards segment 0 by `amount` places, circularly.
    pub fn rotate_left(&mut self, amount: u32)
        ensures
            final(self)@ == rotated_left(old(self)@, amount as int),
    {
        let k = (amount % 9) as usize;
        let source = *self;
        let mut rotated = Pattern::new();
        let mut j: usize = 0;
        while j < SEGMENTS
            invariant
                j <= SEGMENTS,
                k < 9,
                k == amount % 9,
                rotated@ == Seq::new(
                    9,
                    |i: int| if i < j { source@[(i + k) % 9] } else { false },
                ),
            decreases SEGMENTS - j,
        {
            let from = (j + k) % 9;
            let v = source.get(from);
            rotated.set_at(j, v);
            j = j + 1;
            assert(rotated@ =~= Seq::new(
                9,
                |i: int| if i < j { source@[(i + k) % 9] } else { false },
            ));
        }
        proof {
            assert forall|i: int| 0 <= i < 9 implies #[trigger] rotated@[i] == rotated_left(
                source@,
                amount as int,
            )[i] by {
                vstd::arithmetic::div_mod::lemma_add_mod_noop(i, amount as int, 9);
                vstd::arithmetic::div_mod::lemma_add_mod_noop(i, k as int, 9);
                vstd::arithmetic::div_mod::lemma_mod_twice(amount as int, 9);
            }
            assert(rotated@ =~= rotated_left(source@, amount as int));
        }
        *self = rotated;
    }

    /// Rotates the segments away from segment 0 by `amount` places, circularly.
    pub fn rotate_right(&mut self, amount: u32)
        ensures
            final(self)@ == rotated_right(old(self)@, amount as int),
    {
        let k = (amount % 9) as usize;
        let source = *self;
        let mut rotated = Pattern::new();
        let mut j: usize = 0;
        while j < SEGMENTS
            invariant
                j <= SEGMENTS,
                k < 9,
                k == amount % 9,
                rotated@ == Seq::new(
                    9,
                    |i: int| if i < j { source@[(i + 9 - k) % 9] } else { false },
                ),
            decreases SEGMENTS - j,
        {
            let from = (j + 9 - k) % 9;
            let v = source.get(from);
            rotated.set_at(j, v);
            j = j + 1;
            assert(rotated@ =~= Seq::new(
                9,
                |i: int| if i < j { source@[(i + 9 - k) % 9] } else { false },
            ));
        }
        proof {
            assert forall|i: int| 0 <= i < 9 implies #[trigger] rotated@[i] == rotated_right(
                source@,
                amount as int,
            )[i] by {
                vstd::arithmetic::div_mod::lemma_sub_mod_noop(i + 9, amount as int, 9);
                vstd::arithmetic::div_mod::lemma_sub_mod_noop(i + 9, k as int, 9);
                vstd::arithmetic::div_mod::lemma_mod_twice(amount as int, 9);
                vstd::arithmetic::div_mod::lemma_mod_add_multiples_vanish(i - amount, 9);
            }
            assert(rotated@ =~= rotated_right(source@, amount as int));
        }
        *self = rotated;
    }
}

/// Rotating right and then left by the same amount restores every pattern.
pub proof fn lemma_rotation_round_trip(p: Pattern, n: int)
    ensures
        rotated_left(rotated_right(p@, n), n) == p@,
{
    let r = rotated_right(p@, n);
    assert forall|j: int| 0 <= j < 9 implies #[trigger] rotated_left(r, n)[j] == p@[j] by {
        vstd::arithmetic::div_mod::lemma_fundamental_div_mod(j + n, 9);
        vstd::arithmetic::div_mod::lemma_mod_multiples_vanish(-((j + n) / 9), j, 9);
        vstd::arithmetic::div_mod::lemma_small_mod(j as nat, 9);
    }
    assert(rotated_left(r, n) =~= p@);
}

} // verus!
