use vstd::prelude::*;

verus! {

/// The discrete brightness tiers of the display backlight.
#[derive(Clone, Copy, Debug, PartialEq, Eq, Structural)]
pub enum BacklightLevel {
    Off,
    Low,
    Mid,
    High,
}

/// Logic levels of the three active-low backlight drive lines, `true` for high
/// (inactive).
#[derive(Clone, Copy, Debug, PartialEq, Eq, Structural)]
pub struct BacklightLines {
    pub high: bool,
    pub mid: bool,
    pub low: bool,
}

/// The line pattern that realises a level: the tier's own line is driven low,
/// the other two stay high; for `Off` all three stay high.
pub open spec fn pattern(level: BacklightLevel) -> BacklightLines {
    BacklightLines {
        high: level != BacklightLevel::High,
        mid: level != BacklightLevel::Mid,
        low: level != BacklightLevel::Low,
    }
}

/// How many of the three lines are active (driven low).
pub open spec fn active_count(l: BacklightLines) -> nat {
    (if l.high { 0nat } else { 1nat }) + (if l.mid { 0nat } else { 1nat }) + (if l.low {
        0nat
    } else {
        1nat
    })
}

/// The level that a pattern shows, where at most one line is active.
pub open spec fn level_of(l: BacklightLines) -> BacklightLevel {
    if !l.high {
        BacklightLevel::High
    } else if !l.mid {
        BacklightLevel::Mid
    } else if !l.low {
        BacklightLevel::Low
    } else {
        BacklightLevel::Off
    }
}

/// The display's backlight: three drive lines, of which at most one is active.
/// The pixel surface is driven by the caller; this type decides the lines.
pub struct WatchDisplay {
    backlight_high: bool,
    backlight_mid: bool,
    backlight_low: bool,
}

impl View for WatchDisplay {
    type V = BacklightLines;

    closed spec fn view(&self) -> BacklightLines {
        BacklightLines { high: self.backlight_high, mid: self.backlight_mid, low: self.backlight_low }
    }
}

impl WatchDisplay {
    /// The backlight as it comes up at setup: the high tier lit.
    pub fn new() -> (r: WatchDisplay)
        ensures
            r@ == pattern(BacklightLevel::High),
    {
        WatchDisplay { backlight_high: false, backlight_mid: true, backlight_low: true }
    }

    /// The current logic levels of the three drive lines.
    pub fn lines(&self) -> (r: BacklightLines)
        ensures
            r == self@,
    {
        BacklightLines { high: self.backlight_high, mid: self.backlight_mid, low: self.backlight_low }
    }

    /// The level that the lines currently show.
    pub fn level(&self) -> (r: BacklightLevel)
        ensures
            r == level_of(self@),
    {
        if !self.backlight_high {
            BacklightLevel::High
        } else if !self.backlight_mid {
            BacklightLevel::Mid
        } else if !self.backlight_low {
            BacklightLevel::Low
        } else {
            BacklightLevel::Off
        }
    }

    /// Drives the lines to the pattern of `level`, whatever they held before.
    pub fn set_backlight(&mut self, level: BacklightLevel)
        ensures
            final(self)@ == pattern(level),
    {
        self.backlight_high = !matches!(level, BacklightLevel::High);
        self.backlight_mid = !matches!(level, BacklightLevel::Mid);
        self.backlight_low = !matches!(level, BacklightLevel::Low);
    }

    /// All three lines inactive.
    pub fn backlight_off(&mut self)
        ensures
            final(self)@ == pattern(BacklightLevel::Off),
    {
        self.backlight_high = true;
        self.backlight_mid = true;
        self.backlight_low = true;
    }

    /// Only the low-tier line active.
    pub fn backlight_low(&mut self)
        ensures
            final(self)@ == pattern(BacklightLevel::Low),
    {
        self.backlight_high = true;
        self.backlight_mid = true;
        self.backlight_low = false;
    }

    /// Only the mid-tier line active.
    pub fn backlight_mid(&mut self)
        ensures
            final(self)@ == pattern(BacklightLevel::Mid),
    {
        self.backlight_high = true;
        self.backlight_mid = false;
        self.backlight_low = true;
    }

    /// Only the high-tier line active.
    pub fn backlight_high(&mut self)
        ensures
            final(self)@ == pattern(BacklightLevel::High),
    {
        self.backlight_high = false;
        self.backlight_mid = true;
        self.backlight_low = true;
    }
}

/// Setting level `b` after level `a` leaves the pattern of `b` (the setters do
/// not read the prior lines): no line is active for `Off`, exactly one
/// otherwise, that line is the one of `b`'s tier, and the pattern differs from
/// the one of `a` unless the two levels are the same.
pub proof fn backlight_transition_exclusive(a: BacklightLevel, b: BacklightLevel)
    ensures
        active_count(pattern(b)) == (if b == BacklightLevel::Off { 0nat } else { 1nat }),
        level_of(pattern(b)) == b,
        (pattern(a) == pattern(b)) == (a == b),
{
}

} // verus!
