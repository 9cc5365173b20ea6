//! The two-channel meter display: a level bar and a peak dot per channel,
//! each of which the user can switch off, packed into the word the meter's
//! shift-register chain takes.

use crate::meter::{frame_bit, has_bit, meter_frame, MeterChannel};
use crate::time::{Instant, MAX_DELAY_MS};
use vstd::prelude::*;

verus! {

/// Whether the peak dots are shown.
#[derive(Clone, Copy, Debug, PartialEq, Eq, Structural)]
pub enum ShowPeaks {
    On,
    Off,
}

/// Whether the level bars are shown.
#[derive(Clone, Copy, Debug, PartialEq, Eq, Structural)]
pub enum ShowLevels {
    On,
    Off,
}

/// The mask a channel shows under the two switches.
pub open spec fn shown_mask(channel: MeterChannel, levels: ShowLevels, peaks: ShowPeaks) -> u32 {
    (if levels == ShowLevels::On {
        channel.level
    } else {
        0u32
    }) | (if peaks == ShowPeaks::On {
        channel.peak
    } else {
        0u32
    })
}

/// The left and right meters with their display switches.
#[derive(Clone, Copy, Debug, PartialEq, Eq, Structural)]
pub struct MeterDisplay {
    pub left: MeterChannel,
    pub right: MeterChannel,
    pub peaks: ShowPeaks,
    pub levels: ShowLevels,
}

impl MeterDisplay {
    /// Both meters empty, with bars and dots shown.
    pub fn new(now: Instant) -> (r: MeterDisplay)
        ensures
            r.left == MeterChannel::new_spec(now),
            r.right == MeterChannel::new_spec(now),
            r.peaks == ShowPeaks::On,
            r.levels == ShowLevels::On,
    {
        MeterDisplay {
            left: MeterChannel::new(now),
            right: MeterChannel::new(now),
            peaks: ShowPeaks::On,
            levels: ShowLevels::On,
        }
    }

    /// Takes a sample for each channel at `now`.
    pub fn update(
        &mut self,
        left_sample: u32,
        right_sample: u32,
        peak_hold_ms: u32,
        level_hold_ms: u32,
        now: Instant,
    )
        requires
            peak_hold_ms <= MAX_DELAY_MS,
            level_hold_ms <= MAX_DELAY_MS,
        ensures
            final(self).left == old(self).left.updated(
                left_sample as int,
                peak_hold_ms as int,
                level_hold_ms as int,
                now,
            ),
            final(self).right == old(self).right.updated(
                right_sample as int,
                peak_hold_ms as int,
                level_hold_ms as int,
                now,
            ),
            final(self).peaks == old(self).peaks,
            final(self).levels == old(self).levels,
    {
        self.left.update(left_sample, peak_hold_ms, level_hold_ms, now);
        self.right.update(right_sample, peak_hold_ms, level_hold_ms, now);
    }

    /// Clears every reading whose deadline lies before `now`.
    pub fn decay(&mut self, now: Instant)
        ensures
            final(self).left == old(self).left.decayed(now),
            final(self).right == old(self).right.decayed(now),
            final(self).peaks == old(self).peaks,
            final(self).levels == old(self).levels,
    {
        self.left.decay(now);
        self.right.decay(now);
    }

    /// Shows the peak dots if they were hidden, hides them if they were shown.
    pub fn toggle_peaks(&mut self)
        ensures
            *final(self) == (MeterDisplay {
                peaks: if old(self).peaks == ShowPeaks::On {
                    ShowPeaks::Off
                } else {
                    ShowPeaks::On
                },
                ..*old(self)
            }),
    {
        self.peaks = match self.peaks {
            ShowPeaks::On => ShowPeaks::Off,
            ShowPeaks::Off => ShowPeaks::On,
        };
    }

    /// Shows the level bars if they were hidden, hides them if they were shown.
    pub fn toggle_levels(&mut self)
        ensures
            *final(self) == (MeterDisplay {
                levels: if old(self).levels == ShowLevels::On {
                    ShowLevels::Off
                } else {
                    ShowLevels::On
                },
                ..*old(self)
            }),
    {
        self.levels = match self.levels {
            ShowLevels::On => ShowLevels::Off,
            ShowLevels::Off => ShowLevels::On,
        };
    }

    /// The masks shown on the left and right meters.
    pub fn shown(&self) -> (r: (u32, u32))
        ensures
            r.0 == shown_mask(self.left, self.levels, self.peaks),
            r.1 == shown_mask(self.right, self.levels, self.peaks),
    {
        let show_levels = self.levels == ShowLevels::On;
        let show_peaks = self.peaks == ShowPeaks::On;
        (
            self.left.display_mask(show_levels, show_peaks),
            self.right.display_mask(show_levels, show_peaks),
        )
    }

    /// The word to shift into the meter chain for what is shown.
    pub fn frame(&self) -> (r: u32)
        ensures
            r < 0x100_0000,
            forall|i: int|
                0 <= i < 32 ==> has_bit(r, i) == frame_bit(
                    shown_mask(self.left, self.levels, self.peaks),
                    shown_mask(self.right, self.levels, self.peaks),
                    i,
                ),
    {
        let (left, right) = self.shown();
        meter_frame(left, right)
    }
}

} // verus!
