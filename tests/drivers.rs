use pinewatch::backlight::{BacklightLevel, BacklightLines, WatchDisplay};
use pinewatch::battery::{raw_to_millivolts, WatchBattery};
use pinewatch::button::WatchButton;
use pinewatch::cycle::{Command, Orchestrator, ANCHOR_X, ANCHOR_Y, CYCLE_SECONDS};

const LEVELS: [BacklightLevel; 4] =
    [BacklightLevel::Off, BacklightLevel::Low, BacklightLevel::Mid, BacklightLevel::High];

fn expected_lines(level: BacklightLevel) -> BacklightLines {
    match level {
        BacklightLevel::Off => BacklightLines { high: true, mid: true, low: true },
        BacklightLevel::Low => BacklightLines { high: true, mid: true, low: false },
        BacklightLevel::Mid => BacklightLines { high: true, mid: false, low: true },
        BacklightLevel::High => BacklightLines { high: false, mid: true, low: true },
    }
}

fn active_lines(l: BacklightLines) -> usize {
    [l.high, l.mid, l.low].iter().filter(|level_high| !**level_high).count()
}

fn apply(d: &mut WatchDisplay, level: BacklightLevel) {
    match level {
        BacklightLevel::Off => d.backlight_off(),
        BacklightLevel::Low => d.backlight_low(),
        BacklightLevel::Mid => d.backlight_mid(),
        BacklightLevel::High => d.backlight_high(),
    }
}

#[test]
fn conversion_scales_exact_code() {
    assert_eq!(raw_to_millivolts(1241), 2000);
}

#[test]
fn conversion_truncates() {
    assert_eq!(raw_to_millivolts(620), 999);
    assert_eq!(raw_to_millivolts(1), 1);
    assert_eq!(raw_to_millivolts(0), 0);
}

#[test]
fn conversion_of_extremes() {
    assert_eq!(raw_to_millivolts(i16::MAX), 52807);
    assert_eq!(raw_to_millivolts(i16::MIN), -52809);
}

#[test]
fn conversion_of_negative_codes_truncates_toward_zero() {
    assert_eq!(raw_to_millivolts(-620), -999);
    assert_eq!(raw_to_millivolts(-1), -1);
}

#[test]
fn conversion_matches_formula_over_all_codes() {
    for r in i16::MIN..=i16::MAX {
        assert_eq!(raw_to_millivolts(r), r as i32 * 2000 / 1241);
    }
}

#[test]
fn backlight_starts_high() {
    let d = WatchDisplay::new();
    assert_eq!(d.lines(), expected_lines(BacklightLevel::High));
    assert_eq!(d.level(), BacklightLevel::High);
}

#[test]
fn backlight_every_transition_is_exclusive() {
    for a in LEVELS {
        for b in LEVELS {
            let mut d = WatchDisplay::new();
            apply(&mut d, a);
            apply(&mut d, b);
            assert_eq!(d.lines(), expected_lines(b));
            assert_eq!(d.level(), b);
            let want = if b == BacklightLevel::Off { 0 } else { 1 };
            assert_eq!(active_lines(d.lines()), want);
        }
    }
}

#[test]
fn backlight_set_by_level_matches_named_setters() {
    for a in LEVELS {
        for b in LEVELS {
            let mut d = WatchDisplay::new();
            d.set_backlight(a);
            d.set_backlight(b);
            let mut e = WatchDisplay::new();
            apply(&mut e, b);
            assert_eq!(d.lines(), e.lines());
        }
    }
}

#[test]
fn button_starts_released_drive() {
    let b = WatchButton::new();
    assert!(!b.drive_line());
}

#[test]
fn button_query_releases_drive_either_way() {
    for sensed in [true, false] {
        let mut b = WatchButton::new();
        b.energize();
        assert!(b.drive_line());
        assert_eq!(b.is_pressed(sensed), sensed);
        assert!(!b.drive_line());
    }
}

#[test]
fn button_repeated_queries() {
    let mut b = WatchButton::new();
    for sensed in [true, true, false, true] {
        b.energize();
        assert_eq!(b.is_pressed(sensed), sensed);
        assert!(!b.drive_line());
    }
}

#[test]
fn battery_charging_is_active_low() {
    let bat = WatchBattery::new();
    assert!(bat.is_charging(false));
    assert!(!bat.is_charging(true));
}

#[test]
fn battery_calibration_precedes_sampling() {
    let mut bat = WatchBattery::new();
    assert!(!bat.calibrated());
    bat.calibration_complete();
    assert!(bat.calibrated());
    assert_eq!(bat.check_battery_voltage(1241), 2000);
    assert_eq!(bat.check_battery_voltage(620), 999);
}

#[test]
fn cycle_not_charging_blanks_without_sampling() {
    let mut o = Orchestrator::new();
    let cmds = o.on_tick(false);
    assert_eq!(
        cmds,
        vec![
            Command::SetBacklight(BacklightLevel::Off),
            Command::Clear,
            Command::Sleep { seconds: 5 },
        ]
    );
    assert!(!cmds.contains(&Command::SampleBattery));
    assert!(!o.awaiting_sample());
}

#[test]
fn cycle_charging_samples_once_and_shows_reading() {
    let mut o = Orchestrator::new();
    let first = o.on_tick(true);
    assert_eq!(first, vec![Command::SampleBattery]);
    assert!(o.awaiting_sample());
    let rest = o.on_sample(3000);
    assert_eq!(
        rest,
        vec![
            Command::SetBacklight(BacklightLevel::Mid),
            Command::Clear,
            Command::DrawText { text: String::from("3000"), x: 20, y: 30 },
            Command::Sleep { seconds: 5 },
        ]
    );
    assert!(!rest.contains(&Command::SampleBattery));
    assert!(!o.awaiting_sample());
}

#[test]
fn cycle_reading_text_is_decimal() {
    for (mv, text) in [(0, "0"), (999, "999"), (52807, "52807"), (-52808, "-52808"), (7, "7")] {
        let mut o = Orchestrator::new();
        o.on_tick(true);
        let cmds = o.on_sample(mv);
        assert_eq!(cmds[2], Command::DrawText { text: String::from(text), x: ANCHOR_X, y: ANCHOR_Y });
    }
}

#[test]
fn cycle_round_trip_blank_then_reading() {
    let mut o = Orchestrator::new();
    let mut display = WatchDisplay::new();
    let mut battery = WatchBattery::new();
    battery.calibration_complete();

    let blank = o.on_tick(false);
    let clear_at = blank.iter().position(|c| *c == Command::Clear).unwrap();
    assert!(!blank.iter().any(|c| matches!(c, Command::DrawText { .. })));
    assert_eq!(blank[0], Command::SetBacklight(BacklightLevel::Off));
    display.set_backlight(BacklightLevel::Off);
    assert_eq!(display.level(), BacklightLevel::Off);
    assert_eq!(clear_at, 1);

    let start = o.on_tick(true);
    assert_eq!(start, vec![Command::SampleBattery]);
    let mv = battery.check_battery_voltage(1241);
    let frame = o.on_sample(mv);
    let clear_at = frame.iter().position(|c| *c == Command::Clear).unwrap();
    let draw_at = frame.iter().position(|c| matches!(c, Command::DrawText { .. })).unwrap();
    assert!(clear_at < draw_at);
    assert_eq!(frame[draw_at], Command::DrawText { text: String::from("2000"), x: 20, y: 30 });
    display.set_backlight(BacklightLevel::Mid);
    assert_eq!(display.level(), BacklightLevel::Mid);
    assert_eq!(frame[3], Command::Sleep { seconds: CYCLE_SECONDS });
}
