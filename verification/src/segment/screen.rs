//! The `Screen` segment shows whether the prompt runs in a GNU Screen
//! session, and optionally the window's number and the session's name.

use crate::ansi::Color;
use crate::args::{flag_at, flag_of, read_fields, slots_after, ArgField, ArgsBlob, DecodeError, FieldKind};
use crate::segment::{views, Segment, SegmentError, SegmentView, ToSegment};
use crate::text::{after_first, before_first, prefix_before, suffix_after};
use crate::{ApplicationState, Separator};
use vstd::prelude::*;

verus! {

pub struct Screen {}

/// Arguments for the [`Screen`] segment.
#[derive(Copy, Clone, Debug, PartialEq, Eq, Structural)]
pub struct Args {
    pub show_screen_icon: bool,
    pub show_screen_name: bool,
    pub show_screen_pid: bool,
    pub show_window_number: bool,
}

/// Theme for the [`Screen`] segment.
#[derive(Clone, Debug, PartialEq, Eq)]
pub struct Theme {
    /// Foreground color
    pub fg: Color,
    /// Background color
    pub bg: Color,
    /// Icon to display if we're inside a screen session
    pub screen_symbol: String,
}

impl Theme {
    /// Whether the theme is the one that a configuration starts from.
    pub open spec fn is_default(&self) -> bool {
        &&& self.fg == Color::Numbered(250)
        &&& self.bg == Color::Numbered(238)
        &&& self.screen_symbol@ == "\u{1f4fa}"@
    }
}

impl Args {
    /// The arguments of a segment that is configured without any.
    pub open spec fn initial() -> Args {
        Args {
            show_screen_icon: true,
            show_screen_name: true,
            show_screen_pid: false,
            show_window_number: true,
        }
    }
}

impl Default for Args {
    fn default() -> (args: Self)
        ensures
            args == Args::initial(),
    {
        Args {
            show_screen_icon: true,
            show_screen_name: true,
            show_screen_pid: false,
            show_window_number: true,
        }
    }
}

impl Default for Theme {
    fn default() -> (theme: Self)
        ensures
            theme.is_default(),
    {
        Theme {
            fg: Color::Numbered(250),
            bg: Color::Numbered(238),
            screen_symbol: String::from_str("\u{1f4fa}"),
        }
    }
}

/// The names of the fields of [`Args`].
pub open spec fn field_names() -> Seq<&'static str> {
    seq!["show_screen_icon", "show_screen_name", "show_screen_pid", "show_window_number"]
}

/// The kinds of the fields of [`Args`].
pub open spec fn field_kinds() -> Seq<FieldKind> {
    seq![FieldKind::Flag, FieldKind::Flag, FieldKind::Flag, FieldKind::Flag]
}

/// The arguments that the members of an argument block stand for.
pub open spec fn args_of(fields: Seq<ArgField>) -> Result<Args, DecodeError> {
    match slots_after(fields, field_names(), field_kinds(), fields.len() as int) {
        Err(e) => Err(e),
        Ok(slots) => Ok(
            Args {
                show_screen_icon: flag_at(fields, slots[0], true),
                show_screen_name: flag_at(fields, slots[1], true),
                show_screen_pid: flag_at(fields, slots[2], false),
                show_window_number: flag_at(fields, slots[3], true),
            },
        ),
    }
}

/// The text of the segment for the window `window` of the session with the
/// process id `pid` and the name `name`: the window's number; in square
/// brackets, where the number is shown, the process id with a dot and the
/// name, each where it is asked for; and the icon after a space.
pub open spec fn screen_text(
    theme: &Theme,
    args: Args,
    window: Seq<char>,
    pid: Seq<char>,
    name: Seq<char>,
) -> Seq<char> {
    let bracketed = args.show_window_number && (args.show_screen_pid || args.show_screen_name);
    (if args.show_window_number {
        window
    } else {
        Seq::empty()
    }) + (if bracketed {
        "["@
    } else {
        Seq::empty()
    }) + (if args.show_screen_pid {
        pid + "."@
    } else {
        Seq::empty()
    }) + (if args.show_screen_name {
        name
    } else {
        Seq::empty()
    }) + (if bracketed {
        "]"@
    } else {
        Seq::empty()
    }) + (if args.show_screen_icon {
        " "@ + theme.screen_symbol@
    } else {
        Seq::empty()
    })
}

impl ToSegment for Screen {
    type Args = Args;

    type Theme = Theme;

    open spec fn decoded(blob: ArgsBlob) -> Result<Args, DecodeError> {
        match blob {
            ArgsBlob::Object(fields) => args_of(fields@),
            _ => Err(DecodeError::NotAnObject),
        }
    }

    open spec fn segments(args: Option<Args>, state: &ApplicationState) -> Result<
        Seq<SegmentView>,
        SegmentError,
    > {
        let args = match args {
            Some(a) => a,
            None => Args::initial(),
        };
        match (state.env.lookup("STY"@), state.env.lookup("WINDOW"@)) {
            (Some(session), Some(window)) => match after_first(session, '.') {
                None => Err(SegmentError::BadScreenSession),
                Some(name) => Ok(
                    seq![
                        SegmentView {
                            bg: state.theme.screen.bg,
                            fg: state.theme.screen.fg,
                            separator: Separator::Thick,
                            text: screen_text(
                                &state.theme.screen,
                                args,
                                window,
                                before_first(session, '.'),
                                name,
                            ),
                            source: "Screen"@,
                        },
                    ],
                ),
            },
            _ => Ok(Seq::empty()),
        }
    }

    fn decode(blob: &ArgsBlob) -> (r: Result<Args, DecodeError>) {
        match blob {
            ArgsBlob::Object(fields) => {
                let names: Vec<&'static str> = vec![
                    "show_screen_icon",
                    "show_screen_name",
                    "show_screen_pid",
                    "show_window_number",
                ];
                let kinds: Vec<FieldKind> = vec![
                    FieldKind::Flag,
                    FieldKind::Flag,
                    FieldKind::Flag,
                    FieldKind::Flag,
                ];
                assert(names@ =~= field_names());
                assert(kinds@ =~= field_kinds());
                match read_fields(fields, &names, &kinds) {
                    Err(e) => Err(e),
                    Ok(slots) => Ok(
                        Args {
                            show_screen_icon: flag_of(fields, slots[0], true),
                            show_screen_name: flag_of(fields, slots[1], true),
                            show_screen_pid: flag_of(fields, slots[2], false),
                            show_window_number: flag_of(fields, slots[3], true),
                        },
                    ),
                }
            },
            _ => Err(DecodeError::NotAnObject),
        }
    }

    fn to_segment(args: Option<Args>, state: &ApplicationState) -> (r: Result<
        Vec<Segment>,
        SegmentError,
    >) {
        let args = match args {
            Some(a) => a,
            None => Args::default(),
        };
        let theme = &state.theme.screen;
        let session = match state.env.get("STY") {
            Some(session) => session,
            None => {
                assert(views(Seq::<Segment>::empty()) =~= Seq::<SegmentView>::empty());
                return Ok(Vec::new());
            },
        };
        let window = match state.env.get("WINDOW") {
            Some(window) => window,
            None => {
                assert(views(Seq::<Segment>::empty()) =~= Seq::<SegmentView>::empty());
                return Ok(Vec::new());
            },
        };
        let pid = prefix_before(session.as_str(), '.');
        let name = match suffix_after(session.as_str(), '.') {
            Some(name) => name,
            None => {
                return Err(SegmentError::BadScreenSession);
            },
        };
        let bracketed = args.show_window_number && (args.show_screen_pid || args.show_screen_name);
        let mut text = String::new();
        let ghost empty = Seq::<char>::empty();
        if args.show_window_number {
            text.append(window.as_str());
        }
        let ghost t1 = text@;
        assert(t1 =~= empty + (if args.show_window_number { window@ } else { empty }));
        if bracketed {
            text.append("[");
        }
        let ghost t2 = text@;
        assert(t2 =~= t1 + (if bracketed { "["@ } else { empty }));
        if args.show_screen_pid {
            text.append(pid.as_str());
            text.append(".");
        }
        let ghost t3 = text@;
        assert(t3 =~= t2 + (if args.show_screen_pid { pid@ + "."@ } else { empty }));
        if args.show_screen_name {
            text.append(name.as_str());
        }
        let ghost t4 = text@;
        assert(t4 =~= t3 + (if args.show_screen_name { name@ } else { empty }));
        if bracketed {
            text.append("]");
        }
        let ghost t5 = text@;
        assert(t5 =~= t4 + (if bracketed { "]"@ } else { empty }));
        if args.show_screen_icon {
            text.append(" ");
            text.append(theme.screen_symbol.as_str());
        }
        assert(text@ =~= t5 + (if args.show_screen_icon { " "@ + theme.screen_symbol@ } else { empty }));
        assert(text@ =~= screen_text(theme, args, window@, pid@, name@));
        let segments = vec![
            Segment { bg: theme.bg, fg: theme.fg, separator: Separator::Thick, text, source: "Screen" },
        ];
        assert(views(segments@) =~= Self::segments(Some(args), state)->Ok_0);
        Ok(segments)
    }
}

} // verus!
