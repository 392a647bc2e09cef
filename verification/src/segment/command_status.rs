//! The `CommandStatus` segment shows the root or user indicator, colored by
//! the last exit status.

use crate::ansi::Color;
use crate::args::{read_slots, ArgsBlob, DecodeError, FieldKind};
use crate::segment::{Segment, SegmentError, SegmentView, ToSegment};
use crate::text::{decimal, lemma_decimal_parses, parse_bounded, parse_number};
use crate::{ApplicationState, Separator};
use vstd::prelude::*;

verus! {

pub struct CommandStatus {}

/// The `CommandStatus` segment takes no arguments.
#[derive(Copy, Clone, Debug, PartialEq, Eq, Structural)]
pub struct Args {}

/// Theme for the [`CommandStatus`] segment.
#[derive(Clone, Debug, PartialEq, Eq)]
pub struct Theme {
    /// Foreground color when the exit status is zero
    pub success_fg: Color,
    /// Background color when the exit status is zero
    pub success_bg: Color,
    /// Foreground color when the exit status is non-zero
    pub failure_fg: Color,
    /// Background color when the exit status is non-zero
    pub failure_bg: Color,
    /// Indicator used when the user is root. On bash this is typically `#`.
    pub root_indicator: String,
    /// Indicator for other users. On bash this is typically `$`.
    pub user_indicator: String,
}

impl Theme {
    /// Whether the theme is the one that a configuration starts from.
    pub open spec fn is_default(&self) -> bool {
        &&& self.success_fg == Color::Numbered(15)
        &&& self.success_bg == Color::Numbered(236)
        &&& self.failure_fg == Color::Numbered(15)
        &&& self.failure_bg == Color::Numbered(161)
        &&& self.root_indicator@ == "#"@
        &&& self.user_indicator@ == "\\$"@
    }
}

impl Default for Theme {
    fn default() -> (theme: Self)
        ensures
            theme.is_default(),
    {
        Theme {
            success_fg: Color::Numbered(15),
            success_bg: Color::Numbered(236),
            failure_fg: Color::Numbered(15),
            failure_bg: Color::Numbered(161),
            root_indicator: String::from_str("#"),
            user_indicator: String::from_str("\\$"),
        }
    }
}

impl Default for Args {
    fn default() -> (args: Self)
        ensures
            args == (Args {  }),
    {
        Args {  }
    }
}

/// Whether an exit status, as the environment holds it, counts as a failure:
/// it is a number from 1 to 255. A status that is missing counts as `0`, and
/// one that is no such number as a success.
pub open spec fn is_failure(code: Option<Seq<char>>) -> bool {
    let text = match code {
        Some(c) => c,
        None => "0"@,
    };
    match parse_bounded(text, 255) {
        Some(n) => n != 0,
        None => false,
    }
}

/// Whether a user id, as the environment holds it, is root's: it is the
/// number 0. A missing id counts as `65535`.
pub open spec fn is_root(uid: Option<Seq<char>>) -> bool {
    let text = match uid {
        Some(u) => u,
        None => "65535"@,
    };
    parse_bounded(text, u32::MAX as nat) == Some(0nat)
}

/// The segment for an exit status and a user id.
pub open spec fn status_segment(theme: &Theme, code: Option<Seq<char>>, uid: Option<Seq<char>>) -> SegmentView {
    SegmentView {
        bg: if is_failure(code) {
            theme.failure_bg
        } else {
            theme.success_bg
        },
        fg: if is_failure(code) {
            theme.failure_fg
        } else {
            theme.success_fg
        },
        text: if is_root(uid) {
            theme.root_indicator@
        } else {
            theme.user_indicator@
        },
        separator: Separator::Thick,
        source: "CommandStatus"@,
    }
}

/// An exit status of zero selects the success colors and any other exit
/// status, from 1 to 255, the failure colors.
pub proof fn lemma_status_selects_colors(theme: &Theme, status: u8, uid: Option<Seq<char>>)
    ensures
        status == 0 ==> status_segment(theme, Some(decimal(status as nat)), uid).fg
            == theme.success_fg && status_segment(theme, Some(decimal(status as nat)), uid).bg
            == theme.success_bg,
        status != 0 ==> status_segment(theme, Some(decimal(status as nat)), uid).fg
            == theme.failure_fg && status_segment(theme, Some(decimal(status as nat)), uid).bg
            == theme.failure_bg,
{
    lemma_decimal_parses(status as nat);
}

/// The indicator does not depend on the exit status, whatever the
/// environment holds for it.
pub proof fn lemma_indicator_ignores_status(
    theme: &Theme,
    code: Option<Seq<char>>,
    other_code: Option<Seq<char>>,
    uid: Option<Seq<char>>,
)
    ensures
        status_segment(theme, code, uid).text == status_segment(theme, other_code, uid).text,
        status_segment(theme, code, uid).text == theme.root_indicator@ || status_segment(
            theme,
            code,
            uid,
        ).text == theme.user_indicator@,
{
}

impl ToSegment for CommandStatus {
    type Args = Args;

    type Theme = Theme;

    open spec fn decoded(blob: ArgsBlob) -> Result<Args, DecodeError> {
        match crate::args::slots_of(blob, Seq::empty(), Seq::empty()) {
            Ok(_) => Ok(Args {  }),
            Err(e) => Err(e),
        }
    }

    open spec fn segments(args: Option<Args>, state: &ApplicationState) -> Result<
        Seq<SegmentView>,
        SegmentError,
    > {
        Ok(
            seq![
                status_segment(
                    &state.theme.command_status,
                    state.env.lookup("code"@),
                    state.env.lookup("uid"@),
                ),
            ],
        )
    }

    fn decode(blob: &ArgsBlob) -> (r: Result<Args, DecodeError>) {
        let names: Vec<&'static str> = Vec::new();
        let kinds: Vec<FieldKind> = Vec::new();
        match read_slots(blob, &names, &kinds) {
            Ok(_) => Ok(Args {  }),
            Err(e) => Err(e),
        }
    }

    fn to_segment(_args: Option<Args>, state: &ApplicationState) -> (r: Result<
        Vec<Segment>,
        SegmentError,
    >) {
        let theme = &state.theme.command_status;
        let failed = match state.env.get("code") {
            Some(code) => match parse_number(code.as_str(), 255) {
                Some(n) => n != 0,
                None => false,
            },
            None => match parse_number("0", 255) {
                Some(n) => n != 0,
                None => false,
            },
        };
        let (fg, bg) = if failed {
            (theme.failure_fg, theme.failure_bg)
        } else {
            (theme.success_fg, theme.success_bg)
        };
        let root = match state.env.get("uid") {
            Some(uid) => match parse_number(uid.as_str(), 4294967295) {
                Some(n) => n == 0,
                None => false,
            },
            None => match parse_number("65535", 4294967295) {
                Some(n) => n == 0,
                None => false,
            },
        };
        let text = if root {
            theme.root_indicator.clone()
        } else {
            theme.user_indicator.clone()
        };
        let segments = vec![Segment { bg, fg, separator: Separator::Thick, text, source: "CommandStatus" }];
        assert(crate::segment::views(segments@) =~= seq![
            status_segment(
                &state.theme.command_status,
                state.env.lookup("code"@),
                state.env.lookup("uid"@),
            ),
        ]);
        Ok(segments)
    }
}

} // verus!
