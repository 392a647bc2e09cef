//! The `BatteryStatus` segment shows the state of charge and whether the
//! battery is charging.

use crate::ansi::Color;
use crate::args::{read_slots, slots_of, ArgsBlob, DecodeError, FieldKind};
use crate::segment::{views, Segment, SegmentError, SegmentView, ToSegment};
use crate::text::concat3;
use crate::{ApplicationState, Separator};
use vstd::prelude::*;

verus! {

pub struct BatteryStatus {}

/// Arguments for the [`BatteryStatus`] segment.
///
/// The one argument, `low_battery_threshold`, is a fraction. It is applied
/// where the battery is read: a [`Reading`] says on which side of the
/// threshold the charge lies.
#[derive(Copy, Clone, Debug, PartialEq, Eq, Structural)]
pub struct Args {}

/// Theme for the [`BatteryStatus`] segment.
#[derive(Clone, Debug, PartialEq, Eq)]
pub struct Theme {
    /// Foreground color when the charge is not low
    pub normal_fg: Color,
    /// Background color when the charge is not low
    pub normal_bg: Color,
    /// Foreground color when the charge is low
    pub low_fg: Color,
    /// Background color when the charge is low
    pub low_bg: Color,
    /// Displayed when the computer is connected to a charger
    pub charging_symbol: String,
    /// Displayed when the computer is not connected to a charger
    pub discharging_symbol: String,
    /// Displayed when the battery is empty
    pub empty_symbol: String,
    /// Displayed when the battery is finished charging
    pub full_symbol: String,
}

/// What a battery is doing.
#[derive(Copy, Clone, Debug, PartialEq, Eq, Structural)]
pub enum State {
    Unknown,
    Charging,
    Discharging,
    Empty,
    Full,
    /// A state that has no symbol.
    Other,
}

/// What was read from the battery.
#[derive(Clone, Debug, PartialEq, Eq)]
pub struct Reading {
    pub state: State,
    /// The state of charge in percent, rounded to a whole number.
    pub percent: String,
    /// Whether the state of charge is below the threshold.
    pub low: bool,
}

impl Theme {
    /// Whether the theme is the one that a configuration starts from.
    pub open spec fn is_default(&self) -> bool {
        &&& self.normal_fg == Color::Numbered(7)
        &&& self.normal_bg == Color::Numbered(22)
        &&& self.low_fg == Color::Numbered(7)
        &&& self.low_bg == Color::Numbered(197)
        &&& self.charging_symbol@ == "\u{1f50c}"@
        &&& self.discharging_symbol@ == "\u{26a1}"@
        &&& self.empty_symbol@ == "\u{2757}"@
        &&& self.full_symbol@ == "\u{1f50b}"@
    }
}

impl Default for Args {
    fn default() -> (args: Self)
        ensures
            args == (Args {  }),
    {
        Args {  }
    }
}

impl Default for Theme {
    fn default() -> (theme: Self)
        ensures
            theme.is_default(),
    {
        Theme {
            normal_fg: Color::Numbered(7),
            normal_bg: Color::Numbered(22),
            low_fg: Color::Numbered(7),
            low_bg: Color::Numbered(197),
            charging_symbol: String::from_str("\u{1f50c}"),
            discharging_symbol: String::from_str("\u{26a1}"),
            empty_symbol: String::from_str("\u{2757}"),
            full_symbol: String::from_str("\u{1f50b}"),
        }
    }
}

/// The names of the fields of [`Args`].
pub open spec fn field_names() -> Seq<&'static str> {
    seq!["low_battery_threshold"]
}

/// The kinds of the fields of [`Args`].
pub open spec fn field_kinds() -> Seq<FieldKind> {
    seq![FieldKind::Number]
}

/// Whether the segment is shown in the colors of a low charge: an empty
/// battery always, a charging or full one never, any other where the charge
/// is below the threshold.
pub open spec fn shown_low(reading: Reading) -> bool {
    match reading.state {
        State::Empty => true,
        State::Discharging | State::Unknown => reading.low,
        _ => false,
    }
}

/// The text of the segment: the charge in percent and the symbol of the
/// state. A full battery is shown at 100 percent.
pub open spec fn battery_text(theme: &Theme, reading: Reading) -> Seq<char> {
    match reading.state {
        State::Charging => reading.percent@ + "% "@ + theme.charging_symbol@,
        State::Full => "100"@ + "% "@ + theme.full_symbol@,
        State::Empty => reading.percent@ + "% "@ + theme.empty_symbol@,
        _ => reading.percent@ + "% "@ + theme.discharging_symbol@,
    }
}

/// The source that the segment is tagged with.
pub open spec fn battery_source(state: State) -> Seq<char> {
    match state {
        State::Charging => "BatteryStatus::Charging"@,
        State::Full => "BatteryStatus::Full"@,
        State::Empty => "BatteryStatus::Empty"@,
        _ => "BatteryStatus::Discharging/Unknown"@,
    }
}

/// The segment for a reading; an error for a state that has no symbol.
pub open spec fn battery_segment(theme: &Theme, reading: Reading) -> Result<SegmentView, SegmentError> {
    if reading.state is Other {
        Err(SegmentError::UnknownBatteryState)
    } else {
        Ok(
            SegmentView {
                fg: if shown_low(reading) {
                    theme.low_fg
                } else {
                    theme.normal_fg
                },
                bg: if shown_low(reading) {
                    theme.low_bg
                } else {
                    theme.normal_bg
                },
                separator: Separator::Thick,
                text: battery_text(theme, reading),
                source: battery_source(reading.state),
            },
        )
    }
}

/// The segment for a reading.
pub fn reading_to_segment(theme: &Theme, reading: &Reading) -> (r: Result<Segment, SegmentError>)
    ensures
        match r {
            Ok(s) => battery_segment(theme, *reading) == Ok::<SegmentView, SegmentError>(s@),
            Err(e) => battery_segment(theme, *reading) == Err::<SegmentView, SegmentError>(e),
        },
{
    let low = match reading.state {
        State::Empty => true,
        State::Discharging | State::Unknown => reading.low,
        _ => false,
    };
    let (fg, bg) = if low {
        (theme.low_fg, theme.low_bg)
    } else {
        (theme.normal_fg, theme.normal_bg)
    };
    let percent = reading.percent.as_str();
    let (text, source): (String, &'static str) = match reading.state {
        State::Charging => (
            concat3(percent, "% ", theme.charging_symbol.as_str()),
            "BatteryStatus::Charging",
        ),
        State::Full => (concat3("100", "% ", theme.full_symbol.as_str()), "BatteryStatus::Full"),
        State::Empty => (concat3(percent, "% ", theme.empty_symbol.as_str()), "BatteryStatus::Empty"),
        State::Discharging | State::Unknown => (
            concat3(percent, "% ", theme.discharging_symbol.as_str()),
            "BatteryStatus::Discharging/Unknown",
        ),
        State::Other => {
            return Err(SegmentError::UnknownBatteryState);
        },
    };
    Ok(Segment { fg, bg, separator: Separator::Thick, text, source })
}

impl ToSegment for BatteryStatus {
    type Args = Args;

    type Theme = Theme;

    open spec fn decoded(blob: ArgsBlob) -> Result<Args, DecodeError> {
        match slots_of(blob, field_names(), field_kinds()) {
            Ok(_) => Ok(Args {  }),
            Err(e) => Err(e),
        }
    }

    /// An error where no battery could be read; else the segment of the
    /// reading.
    open spec fn segments(args: Option<Args>, state: &ApplicationState) -> Result<
        Seq<SegmentView>,
        SegmentError,
    > {
        match state.host.battery {
            None => Err(SegmentError::NoBattery),
            Some(reading) => match battery_segment(&state.theme.battery, reading) {
                Ok(s) => Ok(seq![s]),
                Err(e) => Err(e),
            },
        }
    }

    fn decode(blob: &ArgsBlob) -> (r: Result<Args, DecodeError>) {
        let names: Vec<&'static str> = vec!["low_battery_threshold"];
        let kinds: Vec<FieldKind> = vec![FieldKind::Number];
        assert(names@ =~= field_names());
        assert(kinds@ =~= field_kinds());
        match read_slots(blob, &names, &kinds) {
            Ok(_) => Ok(Args {  }),
            Err(e) => Err(e),
        }
    }

    fn to_segment(_args: Option<Args>, state: &ApplicationState) -> (r: Result<
        Vec<Segment>,
        SegmentError,
    >) {
        match &state.host.battery {
            None => Err(SegmentError::NoBattery),
            Some(reading) => match reading_to_segment(&state.theme.battery, reading) {
                Ok(segment) => {
                    let segments = vec![segment];
                    assert(views(segments@) =~= seq![segment@]);
                    Ok(segments)
                },
                Err(e) => Err(e),
            },
        }
    }
}

} // verus!
