use vstd::prelude::*;
use crate::backlight::BacklightLevel;

verus! {

/// Horizontal position of the reading's text anchor, in pixels.
pub const ANCHOR_X: i32 = 20;

/// Vertical position of the reading's text anchor, in pixels.
pub const ANCHOR_Y: i32 = 30;

/// Seconds slept between two cycles.
pub const CYCLE_SECONDS: u64 = 5;

/// The character of a decimal digit.
pub open spec fn digit_char(d: nat) -> char {
    seq!['0', '1', '2', '3', '4', '5', '6', '7', '8', '9'][d as int]
}

/// The decimal digits of `n`, most significant first, with no leading zero.
pub open spec fn decimal_digits(n: nat) -> Seq<char>
    decreases n,
{
    if n < 10 {
        seq![digit_char(n)]
    } else {
        decimal_digits(n / 10).push(digit_char(n % 10))
    }
}

/// The decimal text of an integer: its digits, led by `-` when negative.
pub open spec fn decimal_text(v: int) -> Seq<char> {
    if v < 0 {
        seq!['-'] + decimal_digits((-v) as nat)
    } else {
        decimal_digits(v as nat)
    }
}

/// Relies on itoa::Buffer::format: it writes the decimal digits of the value
/// with no leading zero, led by `-` when the value is negative.
#[verifier::external_body]
fn decimal_string(v: i32) -> (r: String)
    ensures
        r@ == decimal_text(v as int),
{
    let mut buffer = itoa::Buffer::new();
    String::from(buffer.format(v))
}

/// One step of work for the caller to carry out against the hardware.
#[derive(Debug, PartialEq, Eq)]
pub enum Command {
    /// Acquire one battery sample and report it back.
    SampleBattery,
    /// Drive the backlight lines to a level.
    SetBacklight(BacklightLevel),
    /// Clear the whole surface to black.
    Clear,
    /// Draw text with its anchor at `(x, y)`.
    DrawText { text: String, x: i32, y: i32 },
    /// Suspend before the next cycle.
    Sleep { seconds: u64 },
}

/// Whether a command draws `text` at the reading's anchor.
pub open spec fn draws_reading(c: Command, text: Seq<char>) -> bool {
    match c {
        Command::DrawText { text: t, x, y } => t@ == text && x == 20 && y == 30,
        _ => false,
    }
}

/// What a cycle does while no charger is attached.
pub open spec fn blank_frame() -> Seq<Command> {
    seq![Command::SetBacklight(BacklightLevel::Off), Command::Clear, Command::Sleep { seconds: 5 }]
}

/// Whether `s` shows a reading whose text is `text`: backlight at mid, clear,
/// draw at the anchor, sleep.
pub open spec fn is_reading_frame(s: Seq<Command>, text: Seq<char>) -> bool {
    &&& s.len() == 4
    &&& s[0] == Command::SetBacklight(BacklightLevel::Mid)
    &&& s[1] == Command::Clear
    &&& draws_reading(s[2], text)
    &&& s[3] == (Command::Sleep { seconds: 5 })
}

/// The commands of a whole cycle: those of the tick, then, where the tick asked
/// for a sample, those of the frame that answered it.
pub open spec fn whole_cycle(tick: Seq<Command>, frame: Seq<Command>) -> Seq<Command> {
    if tick == seq![Command::SampleBattery] {
        tick + frame
    } else {
        tick
    }
}

/// Whether exactly one command of `s` asks for a battery sample.
pub open spec fn samples_exactly_once(s: Seq<Command>) -> bool {
    exists|i: int|
        0 <= i < s.len() && s[i] == Command::SampleBattery && forall|j: int|
            0 <= j < s.len() && s[j] == Command::SampleBattery ==> j == i
}

/// Whether no command of `s` asks for a battery sample.
pub open spec fn never_samples(s: Seq<Command>) -> bool {
    forall|j: int| 0 <= j < s.len() ==> s[j] != Command::SampleBattery
}

/// Whether `s` sets the backlight, and only ever to `level`.
pub open spec fn sets_backlight_only_to(s: Seq<Command>, level: BacklightLevel) -> bool {
    &&& exists|i: int| 0 <= i < s.len() && s[i] == Command::SetBacklight(level)
    &&& forall|j: int| 0 <= j < s.len() && s[j] is SetBacklight ==> s[j] == Command::SetBacklight(level)
}

/// Whether every drawing command of `s` comes after a clear.
pub open spec fn clears_before_drawing(s: Seq<Command>) -> bool {
    forall|j: int| 0 <= j < s.len() && s[j] is DrawText ==> exists|i: int| 0 <= i < j && s[i] == Command::Clear
}

/// Each cycle follows its branch: while charging it samples the battery exactly
/// once and sets the backlight to mid; otherwise it never samples and sets the
/// backlight to off. Either way the surface is cleared before anything is
/// drawn on it, so nothing of an earlier cycle stays on screen.
pub proof fn cycle_is_branch_correct(
    charging: bool,
    tick: Seq<Command>,
    frame: Seq<Command>,
    text: Seq<char>,
)
    requires
        charging ==> tick == seq![Command::SampleBattery] && is_reading_frame(frame, text),
        !charging ==> tick == blank_frame(),
    ensures
        charging ==> samples_exactly_once(whole_cycle(tick, frame)),
        charging ==> sets_backlight_only_to(whole_cycle(tick, frame), BacklightLevel::Mid),
        !charging ==> never_samples(whole_cycle(tick, frame)),
        !charging ==> sets_backlight_only_to(whole_cycle(tick, frame), BacklightLevel::Off),
        clears_before_drawing(whole_cycle(tick, frame)),
{
    let s = whole_cycle(tick, frame);
    if charging {
        assert(s =~= seq![Command::SampleBattery, frame[0], frame[1], frame[2], frame[3]]);
        assert(frame[2] is DrawText);
        assert(s[0] == Command::SampleBattery);
        assert(s[1] == Command::SetBacklight(BacklightLevel::Mid));
        assert(s[2] == Command::Clear);
    } else {
        assert(tick.len() == 3);
        assert(tick != seq![Command::SampleBattery]);
        assert(s[0] == Command::SetBacklight(BacklightLevel::Off));
    }
}

/// The task that, each cycle, reads the charging flag and either blanks the
/// display or samples the battery and shows the reading.
pub struct Orchestrator {
    awaiting_sample: bool,
}

impl Orchestrator {
    /// Whether the current cycle waits for a battery sample.
    pub closed spec fn is_awaiting_sample(&self) -> bool {
        self.awaiting_sample
    }

    /// A task between cycles.
    pub fn new() -> (r: Orchestrator)
        ensures
            !r.is_awaiting_sample(),
    {
        Orchestrator { awaiting_sample: false }
    }

    /// Whether the current cycle waits for a battery sample.
    pub fn awaiting_sample(&self) -> (r: bool)
        ensures
            r == self.is_awaiting_sample(),
    {
        self.awaiting_sample
    }

    /// Starts a cycle with the charging flag read at its start. While charging
    /// the only command is to sample the battery; otherwise the display is
    /// blanked and the task sleeps.
    pub fn on_tick(&mut self, charging: bool) -> (r: Vec<Command>)
        requires
            !old(self).is_awaiting_sample(),
        ensures
            final(self).is_awaiting_sample() == charging,
            charging ==> r@ == seq![Command::SampleBattery],
            !charging ==> r@ == blank_frame(),
    {
        if charging {
            self.awaiting_sample = true;
            vec![Command::SampleBattery]
        } else {
            vec![
                Command::SetBacklight(BacklightLevel::Off),
                Command::Clear,
                Command::Sleep { seconds: CYCLE_SECONDS },
            ]
        }
    }

    /// Finishes a charging cycle with the sampled battery voltage: backlight at
    /// mid, clear, draw the millivolts as decimal text at the anchor, sleep.
    pub fn on_sample(&mut self, millivolts: i32) -> (r: Vec<Command>)
        requires
            old(self).is_awaiting_sample(),
        ensures
            !final(self).is_awaiting_sample(),
            is_reading_frame(r@, decimal_text(millivolts as int)),
    {
        self.awaiting_sample = false;
        let text = decimal_string(millivolts);
        vec![
            Command::SetBacklight(BacklightLevel::Mid),
            Command::Clear,
            Command::DrawText { text, x: ANCHOR_X, y: ANCHOR_Y },
            Command::Sleep { seconds: CYCLE_SECONDS },
        ]
    }
}

} // verus!
