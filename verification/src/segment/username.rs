//! The `Username` segment shows the current user and marks a `sudo` shell.

use crate::ansi::Color;
use crate::args::{read_fields, slots_after, ArgValue, ArgsBlob, DecodeError, FieldKind};
use crate::segment::{views, Segment, SegmentError, SegmentView, ToSegment};
use crate::text::{concat2, str_eq};
use crate::{ApplicationState, Separator};
use vstd::prelude::*;

verus! {

pub struct Username {}

/// How a `sudo` shell is shown.
#[derive(Copy, Clone, Debug, PartialEq, Eq, Structural)]
pub enum SudoIndicator {
    /// The theme's indicator before the effective user.
    Symbol,
    /// The user who ran `sudo`, the theme's separator, the effective user.
    Username,
    /// The effective user alone.
    Plain,
}

/// Arguments for the [`Username`] segment.
#[derive(Copy, Clone, Debug, PartialEq, Eq, Structural)]
pub struct Args {
    pub sudo_indicator: SudoIndicator,
}

/// Theme for the [`Username`] segment.
#[derive(Clone, Debug, PartialEq, Eq)]
pub struct Theme {
    pub fg: Color,
    pub bg: Color,
    /// Written before the user where `Args::sudo_indicator` is `Symbol`.
    pub sudo_indicator: String,
    /// Written between the two users where `Args::sudo_indicator` is `Username`.
    pub sudo_separator: String,
}

impl Theme {
    /// Whether the theme is the one that a configuration starts from.
    pub open spec fn is_default(&self) -> bool {
        &&& self.fg == Color::Numbered(250)
        &&& self.bg == Color::Numbered(240)
        &&& self.sudo_indicator@ == "\u{2248}"@
        &&& self.sudo_separator@ == "\u{2192}"@
    }
}

impl Default for Args {
    fn default() -> (args: Self)
        ensures
            args == (Args { sudo_indicator: SudoIndicator::Symbol }),
    {
        Args { sudo_indicator: SudoIndicator::Symbol }
    }
}

impl Default for Theme {
    fn default() -> (theme: Self)
        ensures
            theme.is_default(),
    {
        Theme {
            fg: Color::Numbered(250),
            bg: Color::Numbered(240),
            sudo_indicator: String::from_str("\u{2248}"),
            sudo_separator: String::from_str("\u{2192}"),
        }
    }
}

/// The indicator that a word of the configuration names.
pub open spec fn indicator_named(word: Seq<char>) -> Option<SudoIndicator> {
    if word == "symbol"@ {
        Some(SudoIndicator::Symbol)
    } else if word == "username"@ {
        Some(SudoIndicator::Username)
    } else if word == "none"@ {
        Some(SudoIndicator::Plain)
    } else {
        None
    }
}

/// The indicator that a word of the configuration names.
pub fn indicator_of(word: &str) -> (r: Option<SudoIndicator>)
    ensures
        r == indicator_named(word@),
{
    if str_eq(word, "symbol") {
        Some(SudoIndicator::Symbol)
    } else if str_eq(word, "username") {
        Some(SudoIndicator::Username)
    } else if str_eq(word, "none") {
        Some(SudoIndicator::Plain)
    } else {
        None
    }
}

/// The names of the fields of [`Args`].
pub open spec fn field_names() -> Seq<&'static str> {
    seq!["sudo_indicator"]
}

/// The kinds of the fields of [`Args`].
pub open spec fn field_kinds() -> Seq<FieldKind> {
    seq![FieldKind::Text]
}

/// The arguments that the members of an argument block stand for.
pub open spec fn args_of(fields: Seq<crate::args::ArgField>) -> Result<Args, DecodeError> {
    match slots_after(fields, field_names(), field_kinds(), fields.len() as int) {
        Err(e) => Err(e),
        Ok(slots) => match slots[0] {
            None => Ok(Args { sudo_indicator: SudoIndicator::Symbol }),
            Some(at) => match fields[at as int].value {
                ArgValue::Text(word) => match indicator_named(word@) {
                    Some(i) => Ok(Args { sudo_indicator: i }),
                    None => Err(DecodeError::InvalidValue(at)),
                },
                _ => Err(DecodeError::InvalidValue(at)),
            },
        },
    }
}

/// The text of the segment: the effective user, marked as `indicator` says
/// where `sudo_user` ran `sudo`.
pub open spec fn user_text(
    theme: &Theme,
    indicator: SudoIndicator,
    user: Seq<char>,
    sudo_user: Option<Seq<char>>,
) -> Seq<char> {
    match sudo_user {
        None => user,
        Some(sudo) => match indicator {
            SudoIndicator::Plain => user,
            SudoIndicator::Symbol => theme.sudo_indicator@ + user,
            SudoIndicator::Username => sudo + " "@ + theme.sudo_separator@ + " "@ + user,
        },
    }
}

impl ToSegment for Username {
    type Args = Args;

    type Theme = Theme;

    open spec fn decoded(blob: ArgsBlob) -> Result<Args, DecodeError> {
        match blob {
            ArgsBlob::Object(fields) => args_of(fields@),
            _ => Err(DecodeError::NotAnObject),
        }
    }

    open spec fn segments(args: Option<Args>, state: &ApplicationState) -> Result<
        Seq<SegmentView>,
        SegmentError,
    > {
        let indicator = match args {
            Some(a) => a.sudo_indicator,
            None => SudoIndicator::Symbol,
        };
        match state.env.lookup("USER"@) {
            None => Err(SegmentError::NoUser),
            Some(user) => Ok(
                seq![
                    SegmentView {
                        fg: state.theme.username.fg,
                        bg: state.theme.username.bg,
                        separator: Separator::Thick,
                        text: user_text(
                            &state.theme.username,
                            indicator,
                            user,
                            state.env.lookup("SUDO_USER"@),
                        ),
                        source: "Username"@,
                    },
                ],
            ),
        }
    }

    fn decode(blob: &ArgsBlob) -> (r: Result<Args, DecodeError>) {
        match blob {
            ArgsBlob::Object(fields) => {
                let names: Vec<&'static str> = vec!["sudo_indicator"];
                let kinds: Vec<FieldKind> = vec![FieldKind::Text];
                assert(names@ =~= field_names());
                assert(kinds@ =~= field_kinds());
                match read_fields(fields, &names, &kinds) {
                    Err(e) => Err(e),
                    Ok(slots) => match slots[0] {
                        None => Ok(Args { sudo_indicator: SudoIndicator::Symbol }),
                        Some(at) => match &fields[at].value {
                            ArgValue::Text(word) => match indicator_of(word.as_str()) {
                                Some(i) => Ok(Args { sudo_indicator: i }),
                                None => Err(DecodeError::InvalidValue(at)),
                            },
                            _ => Err(DecodeError::InvalidValue(at)),
                        },
                    },
                }
            },
            _ => Err(DecodeError::NotAnObject),
        }
    }

    fn to_segment(args: Option<Args>, state: &ApplicationState) -> (r: Result<
        Vec<Segment>,
        SegmentError,
    >) {
        let indicator = match args {
            Some(a) => a.sudo_indicator,
            None => SudoIndicator::Symbol,
        };
        let theme = &state.theme.username;
        let user = match state.env.get("USER") {
            Some(user) => user,
            None => {
                return Err(SegmentError::NoUser);
            },
        };
        let text = match state.env.get("SUDO_USER") {
            None => user.clone(),
            Some(sudo) => match indicator {
                SudoIndicator::Plain => user.clone(),
                SudoIndicator::Symbol => concat2(theme.sudo_indicator.as_str(), user.as_str()),
                SudoIndicator::Username => {
                    let mut t = concat2(sudo.as_str(), " ");
                    t.append(theme.sudo_separator.as_str());
                    t.append(" ");
                    t.append(user.as_str());
                    t
                },
            },
        };
        let segments = vec![
            Segment { fg: theme.fg, bg: theme.bg, separator: Separator::Thick, text, source: "Username" },
        ];
        assert(views(segments@) =~= Self::segments(args, state)->Ok_0);
        Ok(segments)
    }
}

} // verus!
