//! Settings of the per-bin shaper and the choices it makes for each bin.
//!
//! The shaper scales a magnitude, normalises it against its frequency and
//! smooths it against the previous output of the same bin. Which formula
//! applies at each stage is decided here, and so is the output of the stage
//! among the values that the formulas give; evaluating the formulas is left
//! to the caller, who owns the arithmetic.

use vstd::prelude::*;

verus! {

/// Bit pattern of `1.0`, the normalisation scale a fresh shaper starts from.
pub const UNIT_SCALE: u32 = 0x3f80_0000;

/// Window length of the moving average a fresh shaper starts from.
pub const DEFAULT_MOVING_AVG_RANGE: u32 = 10;

/// The normalisation stage that applies to a scaled magnitude.
#[derive(Clone, Copy, Debug, PartialEq, Eq, Structural)]
pub enum Normalization {
    /// The value passes unchanged.
    Off,
    /// The value is weighted linearly by its frequency.
    Full,
    /// The value is weighted by a root of its frequency and by the scale.
    Scaled,
}

/// The smoothing stage that applies to a normalised magnitude.
#[derive(Clone, Copy, Debug, PartialEq, Eq, Structural)]
pub enum Smoothing {
    /// Smoothing is disabled: the new value is the output.
    Off,
    /// The value rose under the flash/flood rule: the new value is the
    /// output, undamped.
    Instant,
    /// The output is the moving average of the new value and the previous one.
    Average,
}

/// What a shaper is set to.
pub struct Settings {
    pub norm: bool,
    pub full_norm: bool,
    pub norm_scale: u32,
    pub smooth: bool,
    pub flash_flood: bool,
    pub moving_avg_range: u32,
}

impl Settings {
    /// The settings of a fresh shaper.
    pub open spec fn initial() -> Settings {
        Settings {
            norm: true,
            full_norm: false,
            norm_scale: UNIT_SCALE,
            smooth: true,
            flash_flood: true,
            moving_avg_range: DEFAULT_MOVING_AVG_RANGE,
        }
    }

    pub open spec fn normalization(self) -> Normalization {
        if !self.norm {
            Normalization::Off
        } else if self.full_norm {
            Normalization::Full
        } else {
            Normalization::Scaled
        }
    }

    /// The smoothing of a value that `rises` above the previous output, or
    /// does not.
    pub open spec fn smoothing(self, rises: bool) -> Smoothing {
        if !self.smooth {
            Smoothing::Off
        } else if self.flash_flood && rises {
            Smoothing::Instant
        } else {
            Smoothing::Average
        }
    }

    /// The output of the normalisation stage for a scaled `value`, of which
    /// `full` is the linear weighting and `scaled` the weighting by root and
    /// scale.
    pub open spec fn normalized(self, value: u32, full: u32, scaled: u32) -> u32 {
        match self.normalization() {
            Normalization::Off => value,
            Normalization::Full => full,
            Normalization::Scaled => scaled,
        }
    }

    /// The output of the smoothing stage for a normalised `value` that `rises`
    /// above the previous output, or does not, and whose moving average with
    /// the previous output is `average`.
    pub open spec fn smoothed(self, value: u32, rises: bool, average: u32) -> u32 {
        match self.smoothing(rises) {
            Smoothing::Off => value,
            Smoothing::Instant => value,
            Smoothing::Average => average,
        }
    }
}

/// The window length `range` after a shift by `delta`: their sum, held at zero.
pub open spec fn shifted_range(range: u32, delta: i32) -> int {
    if range + delta < 0 {
        0
    } else {
        range + delta
    }
}

/// The shaper's settings. The smoothing coefficient is not stored: it is
/// `2 / (1 + moving_avg_range)` wherever it is used, so it cannot drift from
/// the range.
#[derive(Clone, Copy, Debug)]
pub struct SoundTransformer {
    norm: bool,
    full_norm: bool,
    norm_scale: u32,
    smooth: bool,
    flash_flood: bool,
    moving_avg_range: u32,
}

impl View for SoundTransformer {
    type V = Settings;

    closed spec fn view(&self) -> Settings {
        Settings {
            norm: self.norm,
            full_norm: self.full_norm,
            norm_scale: self.norm_scale,
            smooth: self.smooth,
            flash_flood: self.flash_flood,
            moving_avg_range: self.moving_avg_range,
        }
    }
}

impl Default for SoundTransformer {
    fn default() -> (shaper: SoundTransformer)
        ensures
            shaper@ == Settings::initial(),
    {
        SoundTransformer {
            norm: true,
            full_norm: false,
            norm_scale: UNIT_SCALE,
            smooth: true,
            flash_flood: true,
            moving_avg_range: DEFAULT_MOVING_AVG_RANGE,
        }
    }
}

impl SoundTransformer {
    /// The normalisation stage for the next bin.
    pub fn normalization(&self) -> (stage: Normalization)
        ensures
            stage == self@.normalization(),
    {
        if !self.norm {
            Normalization::Off
        } else if self.full_norm {
            Normalization::Full
        } else {
            Normalization::Scaled
        }
    }

    /// The smoothing stage for a bin whose normalised value `rises` above its
    /// previous output, or does not. With smoothing disabled the answer does
    /// not depend on `rises`, and so not on the previous output at all.
    pub fn smoothing(&self, rises: bool) -> (stage: Smoothing)
        ensures
            stage == self@.smoothing(rises),
            !self@.smooth ==> stage == Smoothing::Off,
            self@.smooth && self@.flash_flood && rises ==> stage == Smoothing::Instant,
            self@.smooth && !self@.flash_flood ==> stage == Smoothing::Average,
    {
        if !self.smooth {
            Smoothing::Off
        } else if self.flash_flood && rises {
            Smoothing::Instant
        } else {
            Smoothing::Average
        }
    }

    /// The output of the normalisation stage for a scaled `value`, of which
    /// `full` is the linear weighting and `scaled` the weighting by root and
    /// scale.
    pub fn normalized(&self, value: u32, full: u32, scaled: u32) -> (out: u32)
        ensures
            out == self@.normalized(value, full, scaled),
            !self@.norm ==> out == value,
    {
        match self.normalization() {
            Normalization::Off => value,
            Normalization::Full => full,
            Normalization::Scaled => scaled,
        }
    }

    /// The output of the smoothing stage for a normalised `value` that `rises`
    /// above the previous output, or does not, and whose moving average with
    /// the previous output is `average`. Without smoothing the output is the
    /// value, whatever the previous output was; so it is, undamped, for a
    /// value that rises under the flash/flood rule.
    pub fn smoothed(&self, value: u32, rises: bool, average: u32) -> (out: u32)
        ensures
            out == self@.smoothed(value, rises, average),
            !self@.smooth ==> out == value,
            self@.smooth && self@.flash_flood && rises ==> out == value,
            self@.smooth && !(self@.flash_flood && rises) ==> out == average,
    {
        match self.smoothing(rises) {
            Smoothing::Off => value,
            Smoothing::Instant => value,
            Smoothing::Average => average,
        }
    }

    pub fn toggle_norm(&mut self)
        ensures
            final(self)@ == (Settings { norm: !old(self)@.norm, ..old(self)@ }),
    {
        self.norm = !self.norm;
    }

    pub fn toggle_smooth(&mut self)
        ensures
            final(self)@ == (Settings { smooth: !old(self)@.smooth, ..old(self)@ }),
    {
        self.smooth = !self.smooth;
    }

    pub fn toggle_flash_flood(&mut self)
        ensures
            final(self)@ == (Settings { flash_flood: !old(self)@.flash_flood, ..old(self)@ }),
    {
        self.flash_flood = !self.flash_flood;
    }

    /// Replaces the normalisation scale by `scale`, the bit pattern of the old
    /// scale times the caller's factor.
    pub fn set_norm_scale(&mut self, scale: u32)
        ensures
            final(self)@ == (Settings { norm_scale: scale, ..old(self)@ }),
    {
        self.norm_scale = scale;
    }

    /// Whether the window length can move by `val` without leaving its type
    /// at the upper end.
    pub fn can_shift_moving_avg_range(&self, val: i32) -> (yes: bool)
        ensures
            yes == (self@.moving_avg_range + val <= u32::MAX),
    {
        let moved: i64 = self.moving_avg_range as i64 + val as i64;
        moved <= u32::MAX as i64
    }

    /// Moves the window length of the moving average by `val`, stopping at
    /// zero on the way down.
    pub fn shift_moving_avg_range(&mut self, val: i32)
        requires
            old(self)@.moving_avg_range + val <= u32::MAX,
        ensures
            final(self)@.moving_avg_range == shifted_range(old(self)@.moving_avg_range, val),
            final(self)@.moving_avg_range >= 0,
            final(self)@ == (Settings {
                moving_avg_range: final(self)@.moving_avg_range,
                ..old(self)@
            }),
    {
        let range: i64 = self.moving_avg_range as i64;
        let moved: i64 = range + val as i64;
        self.set_moving_avg_range(
            if moved < 0 {
                0
            } else {
                moved as u32
            },
        );
    }

    fn set_moving_avg_range(&mut self, val: u32)
        ensures
            final(self)@ == (Settings { moving_avg_range: val, ..old(self)@ }),
    {
        self.moving_avg_range = val;
    }

    pub fn norm(&self) -> (on: bool)
        ensures
            on == self@.norm,
    {
        self.norm
    }

    pub fn full_norm(&self) -> (on: bool)
        ensures
            on == self@.full_norm,
    {
        self.full_norm
    }

    /// The normalisation scale, as a bit pattern.
    pub fn norm_scale(&self) -> (scale: u32)
        ensures
            scale == self@.norm_scale,
    {
        self.norm_scale
    }

    pub fn smooth(&self) -> (on: bool)
        ensures
            on == self@.smooth,
    {
        self.smooth
    }

    pub fn flash_flood(&self) -> (on: bool)
        ensures
            on == self@.flash_flood,
    {
        self.flash_flood
    }

    pub fn moving_avg_range(&self) -> (range: u32)
        ensures
            range == self@.moving_avg_range,
    {
        self.moving_avg_range
    }
}

} // verus!
