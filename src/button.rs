use vstd::prelude::*;

verus! {

/// The button sensor: a drive line that energises the sensing circuit only for
/// the duration of a query, and a sense input read while it is energised.
pub struct WatchButton {
    drive_high: bool,
}

impl WatchButton {
    /// Whether the drive line is asserted (high).
    pub closed spec fn drive_asserted(&self) -> bool {
        self.drive_high
    }

    /// The sensor as it comes up at setup: drive line low.
    pub fn new() -> (r: WatchButton)
        ensures
            !r.drive_asserted(),
    {
        WatchButton { drive_high: false }
    }

    /// The current level of the drive line, `true` for high.
    pub fn drive_line(&self) -> (r: bool)
        ensures
            r == self.drive_asserted(),
    {
        self.drive_high
    }

    /// First half of a query: asserts the drive line so that the sense input
    /// can be sampled.
    pub fn energize(&mut self)
        ensures
            final(self).drive_asserted(),
    {
        self.drive_high = true;
    }

    /// Second half of a query: takes the level of the sense input sampled while
    /// the drive line was asserted, de-asserts the drive line, and reports that
    /// level as the pressed state.
    pub fn is_pressed(&mut self, sensed_high: bool) -> (r: bool)
        requires
            old(self).drive_asserted(),
        ensures
            r == sensed_high,
            !final(self).drive_asserted(),
    {
        self.drive_high = false;
        sensed_high
    }
}

} // verus!
