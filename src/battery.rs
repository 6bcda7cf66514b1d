use vstd::prelude::*;

verus! {

/// Numerator of the board's raw-code-to-millivolt scale.
pub const SCALE_NUMERATOR: i32 = 2000;

/// Denominator of the board's raw-code-to-millivolt scale.
pub const SCALE_DENOMINATOR: i32 = 1241;

/// Division rounding toward zero, as Rust's `/` on signed integers.
pub open spec fn div_toward_zero(a: int, b: int) -> int {
    if a >= 0 {
        a / b
    } else {
        -((-a) / b)
    }
}

/// The millivolts that a raw analog code stands for.
pub open spec fn millivolts(raw: int) -> int {
    div_toward_zero(raw * 2000, 1241)
}

/// Converts a raw analog code to millivolts: `raw * 2000 / 1241`, truncating.
pub fn raw_to_millivolts(raw: i16) -> (r: i32)
    ensures
        r as int == millivolts(raw as int),
{
    let v: i32 = raw as i32;
    if v >= 0 {
        proof {
            assert(0 <= v * 2000 <= 32767 * 2000) by (nonlinear_arith)
                requires 0 <= v <= 32767;
        }
        v * SCALE_NUMERATOR / SCALE_DENOMINATOR
    } else {
        let m: i32 = -v;
        proof {
            assert(0 < m * 2000 <= 32768 * 2000) by (nonlinear_arith)
                requires 0 < m <= 32768;
        }
        let q: i32 = m * SCALE_NUMERATOR / SCALE_DENOMINATOR;
        -q
    }
}

/// The battery monitor: an analog channel that must be calibrated before it is
/// sampled, and an active-low charge-detect input.
pub struct WatchBattery {
    calibrated: bool,
}

impl WatchBattery {
    /// Whether the analog channel has finished its self-calibration.
    pub closed spec fn is_calibrated(&self) -> bool {
        self.calibrated
    }

    /// A monitor whose channel is configured but not yet calibrated.
    pub fn new() -> (r: WatchBattery)
        ensures
            !r.is_calibrated(),
    {
        WatchBattery { calibrated: false }
    }

    /// Records that the channel's self-calibration has completed.
    pub fn calibration_complete(&mut self)
        ensures
            final(self).is_calibrated(),
    {
        self.calibrated = true;
    }

    /// Whether samples may be taken.
    pub fn calibrated(&self) -> (r: bool)
        ensures
            r == self.is_calibrated(),
    {
        self.calibrated
    }

    /// The battery voltage in millivolts for one raw sample of the calibrated
    /// channel.
    pub fn check_battery_voltage(&self, raw: i16) -> (r: i32)
        requires
            self.is_calibrated(),
        ensures
            r as int == millivolts(raw as int),
    {
        raw_to_millivolts(raw)
    }

    /// Whether a charger is attached, given the level of the charge-detect
    /// input (`true` for high); the signal is active-low.
    pub fn is_charging(&self, input_high: bool) -> (r: bool)
        ensures
            r == !input_high,
    {
        !input_high
    }
}

} // verus!
