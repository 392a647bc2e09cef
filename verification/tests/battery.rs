use promptr::env::Env;
use promptr::segment::battery_status::{BatteryStatus, Reading, State};
use promptr::segment::{Segment, SegmentError, ToSegment};
use promptr::{ApplicationState, Host, Separator, Theme};

fn with_battery<'a>(theme: &'a Theme, state: State, percent: &str, low: bool) -> ApplicationState<'a> {
    let mut host = Host::unknown();
    host.battery = Some(Reading { state, percent: String::from(percent), low });
    ApplicationState { theme, env: Env::new(), host }
}

#[test]
fn no_battery() {
    let theme = Theme::default();
    let state = ApplicationState { theme: &theme, env: Env::new(), host: Host::unknown() };
    assert_eq!(Err(SegmentError::NoBattery), BatteryStatus::to_segment(None, &state));
}

#[test]
fn battery_states() {
    let theme = Theme::default();
    let t = &theme.battery;
    for (state, low, text, source, shown_low) in [
        (State::Charging, false, "42% \u{1f50c}", "BatteryStatus::Charging", false),
        (State::Charging, true, "42% \u{1f50c}", "BatteryStatus::Charging", false),
        (State::Discharging, false, "42% \u{26a1}", "BatteryStatus::Discharging/Unknown", false),
        (State::Discharging, true, "42% \u{26a1}", "BatteryStatus::Discharging/Unknown", true),
        (State::Unknown, false, "42% \u{26a1}", "BatteryStatus::Discharging/Unknown", false),
        (State::Unknown, true, "42% \u{26a1}", "BatteryStatus::Discharging/Unknown", true),
        (State::Full, true, "100% \u{1f50b}", "BatteryStatus::Full", false),
        (State::Empty, false, "42% \u{2757}", "BatteryStatus::Empty", true),
    ] {
        let app = with_battery(&theme, state, "42", low);
        let expected = Segment {
            fg: if shown_low { t.low_fg } else { t.normal_fg },
            bg: if shown_low { t.low_bg } else { t.normal_bg },
            separator: Separator::Thick,
            text: String::from(text),
            source,
        };
        assert_eq!(Ok(vec![expected]), BatteryStatus::to_segment(None, &app));
    }
}

#[test]
fn battery_state_without_symbol() {
    let theme = Theme::default();
    let app = with_battery(&theme, State::Other, "42", false);
    assert_eq!(Err(SegmentError::UnknownBatteryState), BatteryStatus::to_segment(None, &app));
}
