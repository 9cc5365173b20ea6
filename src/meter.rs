//! Per-channel meter state: the displayed level bar and peak dot, each held
//! until its own decay deadline.
//!
//! Decay is evaluated when a new sample arrives: a held reading gives way to a
//! quieter one only once its deadline has passed. A separate sweep,
//! [`MeterChannel::decay`], clears readings whose deadline has passed when no
//! samples arrive.

use crate::level::{
    band_index, bar_mask, dot_mask, sample_from_counts, Level, Levels, INACTIVE_INDEX, SAMPLE_SCALE,
};
use crate::time::{lemma_before_offsets, Instant, MAX_DELAY_MS, MAX_HOLD_MS};
use heapless::HistoryBuffer;
use vstd::prelude::*;

verus! {

/// One held reading: the mask shown and the deadline until which it is held.
pub open spec fn held(
    mask: u32,
    deadline: Instant,
    new_mask: u32,
    hold_ms: int,
    now: Instant,
) -> (u32, Instant) {
    if new_mask >= mask || deadline.before(now) {
        (new_mask, now.plus_millis(hold_ms))
    } else {
        (mask, deadline)
    }
}

/// The level and peak display of one audio channel.
#[derive(Clone, Copy, Debug, PartialEq, Eq, Structural)]
pub struct MeterChannel {
    /// Bar mask of the displayed level.
    pub level: u32,
    /// Until when the displayed level is held.
    pub level_decay: Instant,
    /// Dot mask of the displayed peak.
    pub peak: u32,
    /// Until when the displayed peak is held.
    pub peak_decay: Instant,
}

impl MeterChannel {
    /// The channel after a sample arrives at `now`.
    pub open spec fn updated(
        self,
        sample: int,
        peak_hold_ms: int,
        level_hold_ms: int,
        now: Instant,
    ) -> MeterChannel {
        let index = band_index(sample);
        let (level, level_decay) = held(
            self.level,
            self.level_decay,
            bar_mask(index),
            level_hold_ms,
            now,
        );
        let (peak, peak_decay) = held(self.peak, self.peak_decay, dot_mask(index), peak_hold_ms, now);
        MeterChannel { level, level_decay, peak, peak_decay }
    }

    /// The channel after a decay sweep at `now`.
    pub open spec fn decayed(self, now: Instant) -> MeterChannel {
        MeterChannel {
            level: if self.level_decay.before(now) {
                0
            } else {
                self.level
            },
            peak: if self.peak_decay.before(now) {
                0
            } else {
                self.peak
            },
            ..self
        }
    }

    /// A channel that shows nothing, with both deadlines at `now`.
    pub open spec fn new_spec(now: Instant) -> MeterChannel {
        MeterChannel { level: 0, level_decay: now, peak: 0, peak_decay: now }
    }

    /// A channel that shows nothing, with both deadlines at `now`.
    pub fn new(now: Instant) -> (r: MeterChannel)
        ensures
            r == MeterChannel::new_spec(now),
    {
        MeterChannel { level: 0, level_decay: now, peak: 0, peak_decay: now }
    }

    /// Takes a new sample at `now`. The level bar (and, independently, the peak
    /// dot) is replaced by the sample's when that is equal or louder, or when
    /// the displayed one's deadline has passed; a replaced reading is then held
    /// for its hold time. Otherwise the displayed reading stays.
    pub fn update(&mut self, sample: u32, peak_hold_ms: u32, level_hold_ms: u32, now: Instant)
        requires
            peak_hold_ms <= MAX_DELAY_MS,
            level_hold_ms <= MAX_DELAY_MS,
        ensures
            *final(self) == old(self).updated(
                sample as int,
                peak_hold_ms as int,
                level_hold_ms as int,
                now,
            ),
    {
        let index = Level::classify(sample).index();
        let new_level = Level::bar_mask(index);
        let new_peak = Level::dot_mask(index);
        if new_peak >= self.peak || self.peak_decay.is_before(now) {
            self.peak = new_peak;
            self.peak_decay = now.add_millis(peak_hold_ms);
        }
        if new_level >= self.level || self.level_decay.is_before(now) {
            self.level = new_level;
            self.level_decay = now.add_millis(level_hold_ms);
        }
    }

    /// Clears the level and the peak whose deadlines lie before `now`.
    pub fn decay(&mut self, now: Instant)
        ensures
            *final(self) == old(self).decayed(now),
    {
        if self.level_decay.is_before(now) {
            self.level = 0;
        }
        if self.peak_decay.is_before(now) {
            self.peak = 0;
        }
    }

    /// The mask to display: the level bar and the peak dot, each only where
    /// it is switched on.
    pub fn display_mask(&self, show_levels: bool, show_peaks: bool) -> (r: u32)
        ensures
            r == (if show_levels {
                self.level
            } else {
                0u32
            }) | (if show_peaks {
                self.peak
            } else {
                0u32
            }),
    {
        let level = if show_levels {
            self.level
        } else {
            0
        };
        let peak = if show_peaks {
            self.peak
        } else {
            0
        };
        level | peak
    }
}

/// Peak hold: after a single loud sample on a channel with no peak shown,
/// samples of silence leave the peak dot lit until the hold time has
/// elapsed, and clear it at the first evaluation after that.
pub proof fn lemma_peak_hold(
    channel: MeterChannel,
    loud: int,
    quiet: int,
    peak_hold_ms: int,
    level_hold_ms: int,
    start: Instant,
    elapsed_ms: int,
)
    requires
        channel.peak == 0,
        band_index(loud) < INACTIVE_INDEX,
        band_index(quiet) == INACTIVE_INDEX,
        0 <= peak_hold_ms <= MAX_HOLD_MS,
        0 <= elapsed_ms <= MAX_HOLD_MS,
    ensures
        ({
            let shown = channel.updated(loud, peak_hold_ms, level_hold_ms, start);
            let later = shown.updated(
                quiet,
                peak_hold_ms,
                level_hold_ms,
                start.plus_millis(elapsed_ms),
            );
            &&& shown.peak == dot_mask(band_index(loud))
            &&& shown.peak != 0
            &&& elapsed_ms <= peak_hold_ms ==> later.peak == shown.peak
            &&& peak_hold_ms < elapsed_ms ==> later.peak == 0
        }),
{
    let i = band_index(loud);
    crate::level::lemma_band_range(loud);
    crate::level::lemma_mask_segments(i);
    crate::level::lemma_mask_segments(INACTIVE_INDEX as int);
    lemma_before_offsets(start, peak_hold_ms, elapsed_ms);
    assert(start == start.plus_millis(0)) by {
        vstd::arithmetic::div_mod::lemma_small_mod(start.ticks as nat, 0x1_0000_0000);
    }
    crate::time::lemma_plus_millis_add(start, 0, peak_hold_ms);
}

/// Number of clock edges in one capture window of the monitor lines.
pub const CAPTURE_WINDOW: u32 = 400;

/// The duty cycle, in parts per ten thousand, of a line that was high on
/// `high` of the `CAPTURE_WINDOW` edges of a window.
pub open spec fn window_sample(high: int) -> int {
    high * (SAMPLE_SCALE as int) / (CAPTURE_WINDOW as int)
}

proof fn lemma_masks_ordered(i: u32, j: u32)
    by (bit_vector)
    requires
        i <= j <= 9,
    ensures
        (0x1FFu32 >> j) <= (0x1FFu32 >> i),
        (0x100u32 >> j) <= (0x100u32 >> i),
{
}

/// A louder sample never shows a shorter bar or a lower peak than a quieter
/// one would, from the same channel at the same instant.
pub proof fn lemma_update_monotonic(
    channel: MeterChannel,
    s1: int,
    s2: int,
    peak_hold_ms: int,
    level_hold_ms: int,
    now: Instant,
)
    requires
        s1 <= s2,
    ensures
        channel.updated(s1, peak_hold_ms, level_hold_ms, now).level <= channel.updated(
            s2,
            peak_hold_ms,
            level_hold_ms,
            now,
        ).level,
        channel.updated(s1, peak_hold_ms, level_hold_ms, now).peak <= channel.updated(
            s2,
            peak_hold_ms,
            level_hold_ms,
            now,
        ).peak,
{
    crate::level::lemma_classify_monotonic(s1, s2);
    crate::level::lemma_band_range(s1);
    crate::level::lemma_band_range(s2);
    lemma_masks_ordered(band_index(s2) as u32, band_index(s1) as u32);
}

/// A displayed peak is held against any quieter sample until its deadline
/// has passed, and then gives way to the sample's own peak.
pub proof fn lemma_peak_held_until_deadline(
    channel: MeterChannel,
    sample: int,
    peak_hold_ms: int,
    level_hold_ms: int,
    now: Instant,
)
    requires
        dot_mask(band_index(sample)) < channel.peak,
    ensures
        !channel.peak_decay.before(now) ==> channel.updated(
            sample,
            peak_hold_ms,
            level_hold_ms,
            now,
        ).peak == channel.peak && channel.updated(
            sample,
            peak_hold_ms,
            level_hold_ms,
            now,
        ).peak_decay == channel.peak_decay,
        channel.peak_decay.before(now) ==> channel.updated(
            sample,
            peak_hold_ms,
            level_hold_ms,
            now,
        ).peak == dot_mask(band_index(sample)) && channel.updated(
            sample,
            peak_hold_ms,
            level_hold_ms,
            now,
        ).peak_decay == now.plus_millis(peak_hold_ms),
{
}

/// The monitor-line levels captured over one window, oldest first.
pub type CaptureBuffer = HistoryBuffer<bool, 400>;

/// heapless's `HistoryBuffer`, whose contents the library sees only through
/// `captured_levels`.
#[verifier::external_type_specification]
#[verifier::external_body]
#[verifier::reject_recursive_types(T)]
pub struct ExHistoryBuffer<T, const N: usize>(HistoryBuffer<T, N>);

/// The levels held in a capture buffer, oldest first.
pub uninterp spec fn captured_levels(buffer: CaptureBuffer) -> Seq<bool>;

/// Relies on heapless's `HistoryBuffer::new`: the buffer starts empty.
#[verifier::external_body]
fn capture_new() -> (r: CaptureBuffer)
    ensures
        captured_levels(r).len() == 0,
{
    HistoryBuffer::new()
}

/// Relies on heapless's `HistoryBuffer::len`: the number of values written,
/// up to the capacity.
#[verifier::external_body]
fn capture_len(buffer: &CaptureBuffer) -> (r: usize)
    ensures
        r == captured_levels(*buffer).len(),
        r <= CAPTURE_WINDOW,
{
    buffer.len()
}

/// Relies on heapless's `HistoryBuffer::write`: while the buffer is not yet
/// full, the value is stored after the ones written before.
#[verifier::external_body]
fn capture_write(buffer: &mut CaptureBuffer, level: bool)
    requires
        captured_levels(*old(buffer)).len() < CAPTURE_WINDOW,
    ensures
        captured_levels(*final(buffer)) == captured_levels(*old(buffer)).push(level),
    no_unwind
{
    buffer.write(level)
}

/// Relies on heapless's `HistoryBuffer::as_slice`: the stored values in
/// storage order, which is the order they were written in as long as the
/// buffer was never written to while full (`capture_write` never is).
#[verifier::external_body]
fn capture_as_slice(buffer: &CaptureBuffer) -> (r: &[bool])
    ensures
        r@ == captured_levels(*buffer),
{
    buffer.as_slice()
}

/// The number of high levels in `levels`.
pub open spec fn count_high(levels: Seq<bool>) -> nat
    decreases levels.len(),
{
    if levels.len() == 0 {
        0
    } else {
        count_high(levels.drop_last()) + if levels.last() {
            1nat
        } else {
            0nat
        }
    }
}

proof fn lemma_count_high_bounded(levels: Seq<bool>)
    ensures
        count_high(levels) <= levels.len(),
    decreases levels.len(),
{
    if levels.len() > 0 {
        lemma_count_high_bounded(levels.drop_last());
    }
}

/// The number of high levels captured in `buffer`.
fn high_count(buffer: &CaptureBuffer) -> (r: u32)
    requires
        captured_levels(*buffer).len() <= CAPTURE_WINDOW,
    ensures
        r == count_high(captured_levels(*buffer)),
{
    let levels = capture_as_slice(buffer);
    let mut count: u32 = 0;
    let mut i: usize = 0;
    while i < levels.len()
        invariant
            i <= levels@.len() <= CAPTURE_WINDOW,
            count == count_high(levels@.take(i as int)),
            count <= i,
        decreases levels@.len() - i,
    {
        proof {
            assert(levels@.take(i + 1).drop_last() =~= levels@.take(i as int));
        }
        if levels[i] {
            count = count + 1;
        }
        i = i + 1;
    }
    proof {
        assert(levels@.take(i as int) =~= levels@);
    }
    count
}

/// Captures, over a window of clock edges, the level of each channel's
/// monitor line.
pub struct MeterInput {
    left: CaptureBuffer,
    right: CaptureBuffer,
}

impl MeterInput {
    #[verifier::type_invariant]
    spec fn windows_match(self) -> bool {
        &&& captured_levels(self.left).len() <= CAPTURE_WINDOW
        &&& captured_levels(self.left).len() == captured_levels(self.right).len()
    }

    /// Edges captured in the current window.
    pub closed spec fn captured(self) -> int {
        captured_levels(self.left).len() as int
    }

    /// Edges of the current window on which the left line was high.
    pub closed spec fn left_high(self) -> int {
        count_high(captured_levels(self.left)) as int
    }

    /// Edges of the current window on which the right line was high.
    pub closed spec fn right_high(self) -> int {
        count_high(captured_levels(self.right)) as int
    }

    /// An empty window.
    pub fn new() -> (r: MeterInput)
        ensures
            r.captured() == 0,
            r.left_high() == 0,
            r.right_high() == 0,
    {
        MeterInput { left: capture_new(), right: capture_new() }
    }

    /// Takes the line levels at one clock edge. When the window is already
    /// full, its levels are reported and a new window starts with this edge.
    pub fn sample(&mut self, left_line: bool, right_line: bool) -> (r: Option<Levels>)
        ensures
            old(self).captured() == CAPTURE_WINDOW ==> {
                &&& r matches Some(levels) && levels.0.index_of() == band_index(
                    window_sample(old(self).left_high()),
                ) && levels.1.index_of() == band_index(window_sample(old(self).right_high()))
                &&& final(self).captured() == 1
                &&& final(self).left_high() == (if left_line {
                    1int
                } else {
                    0
                })
                &&& final(self).right_high() == (if right_line {
                    1int
                } else {
                    0
                })
            },
            old(self).captured() < CAPTURE_WINDOW ==> {
                &&& r.is_none()
                &&& final(self).captured() == old(self).captured() + 1
                &&& final(self).left_high() == old(self).left_high() + (if left_line {
                    1int
                } else {
                    0
                })
                &&& final(self).right_high() == old(self).right_high() + (if right_line {
                    1int
                } else {
                    0
                })
            },
    {
        proof {
            use_type_invariant(&*self);
        }
        let mut taken = MeterInput::new();
        std::mem::swap(self, &mut taken);
        proof {
            use_type_invariant(&taken);
        }
        let MeterInput { mut left, mut right } = taken;
        let mut report = None;
        if capture_len(&left) == 400 || capture_len(&right) == 400 {
            let left_high = high_count(&left);
            let right_high = high_count(&right);
            proof {
                lemma_count_high_bounded(captured_levels(left));
                lemma_count_high_bounded(captured_levels(right));
            }
            let left_level = Level::classify(sample_from_counts(left_high, CAPTURE_WINDOW));
            let right_level = Level::classify(sample_from_counts(right_high, CAPTURE_WINDOW));
            report = Some(Levels(left_level, right_level));
            left = capture_new();
            right = capture_new();
        }
        let ghost left_before = captured_levels(left);
        let ghost right_before = captured_levels(right);
        capture_write(&mut left, left_line);
        capture_write(&mut right, right_line);
        proof {
            assert(captured_levels(left).drop_last() =~= left_before);
            assert(captured_levels(right).drop_last() =~= right_before);
            if left_before.len() == 0 {
                assert(count_high(left_before) == 0);
                assert(count_high(right_before) == 0);
            }
        }
        *self = MeterInput { left, right };
        report
    }
}

/// Width of each channel's field in the meter's shift-register chain.
pub const FRAME_FIELD_BITS: u32 = 12;

/// Bit `index` of `x` is set.
pub open spec fn has_bit(x: u32, index: int) -> bool {
    (x >> (index as u32)) & 1 == 1
}

/// The chain bit that carries bit `index` of the frame: the right channel's
/// mask, bit-reversed, in the low twelve bits, the left channel's above it.
pub open spec fn frame_bit(left: u32, right: u32, index: int) -> bool {
    if index < 12 {
        has_bit(right, 11 - index)
    } else if index < 24 {
        has_bit(left, 23 - index)
    } else {
        false
    }
}

proof fn lemma_set_frame_bit(x: u32, k: u32, i: u32)
    by (bit_vector)
    requires
        x < 0x100_0000,
        k < 24,
        i < 32,
    ensures
        ((x | (1u32 << k)) >> i) & 1 == (if i == k { 1u32 } else { (x >> i) & 1 }),
        (x | (1u32 << k)) < 0x100_0000,
{
}

proof fn lemma_frame_high_bits(x: u32, i: u32)
    by (bit_vector)
    requires
        x < 0x100_0000,
        24 <= i < 32,
    ensures
        (x >> i) & 1 == 0,
{
}

/// The 24-bit word shifted into the meter chain for the left and right
/// display masks: each channel's twelve-bit field is bit-reversed, the right
/// channel's in the low half.
pub fn meter_frame(left: u32, right: u32) -> (r: u32)
    ensures
        r < 0x100_0000,
        forall|i: int| 0 <= i < 32 ==> has_bit(r, i) == frame_bit(left, right, i),
{
    let mut frame: u32 = 0;
    let mut k: u32 = 0;
    assert forall|i: int| 0 <= i < 32 implies !has_bit(0u32, i) by {
        let s = i as u32;
        assert((0u32 >> s) & 1 == 0) by (bit_vector);
    }
    while k < FRAME_FIELD_BITS
        invariant
            k <= FRAME_FIELD_BITS,
            frame < 0x100_0000,
            forall|i: int|
                0 <= i < 32 ==> has_bit(frame, i) == (if i < k || (12 <= i < 12 + k) {
                    frame_bit(left, right, i)
                } else {
                    false
                }),
        decreases FRAME_FIELD_BITS - k,
    {
        let before = frame;
        let right_set = (right >> (11 - k)) & 1 == 1;
        let left_set = (left >> (11 - k)) & 1 == 1;
        let middle = if right_set {
            before | (1u32 << k)
        } else {
            before
        };
        frame = if left_set {
            middle | (1u32 << (12 + k))
        } else {
            middle
        };
        proof {
            lemma_set_frame_bit(before, k, 0);
            lemma_set_frame_bit(middle, (12 + k) as u32, 0);
            assert forall|i: int| 0 <= i < 32 implies has_bit(frame, i) == (if i < k + 1 || (12
                <= i < 12 + k + 1) {
                frame_bit(left, right, i)
            } else {
                false
            }) by {
                lemma_set_frame_bit(before, k, i as u32);
                lemma_set_frame_bit(middle, (12 + k) as u32, i as u32);
                assert(has_bit(middle, i) == if i == k {
                    right_set || has_bit(before, i)
                } else {
                    has_bit(before, i)
                });
                assert(has_bit(frame, i) == if i == 12 + k {
                    left_set || has_bit(middle, i)
                } else {
                    has_bit(middle, i)
                });
            }
        }
        k = k + 1;
    }
    frame
}

} // verus!
