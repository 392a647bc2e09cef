//! The `Hostname` segment shows the name of the machine.

use crate::ansi::Color;
use crate::args::{flag_at, flag_of, read_fields, slots_after, ArgField, ArgsBlob, DecodeError, FieldKind};
use crate::segment::{views, Segment, SegmentError, SegmentView, ToSegment};
use crate::text::{before_first, prefix_before};
use crate::{ApplicationState, Separator};
use vstd::prelude::*;

verus! {

pub struct Hostname {}

/// Arguments for the [`Hostname`] segment.
#[derive(Copy, Clone, Debug, PartialEq, Eq, Structural)]
pub struct Args {
    pub show_domain: bool,
    pub show_jail_indicator: bool,
    pub show_os_indicator: bool,
}

/// Theme for the [`Hostname`] segment.
#[derive(Clone, Debug, PartialEq, Eq)]
pub struct Theme {
    /// Foreground color
    pub fg: Color,
    /// Background color
    pub bg: Color,
    /// Indicator to append if we're in a FreeBSD jail
    pub jail_indicator: String,
    /// Indicator to append if we're running on macOS
    pub os_macos: String,
    /// Indicator to append if we're running on FreeBSD
    pub os_freebsd: String,
    /// Indicator to append if we're running on OpenBSD
    pub os_openbsd: String,
    /// Indicator to append if we're running on Linux
    pub os_linux: String,
}

/// The operating system that the prompt runs on.
#[derive(Copy, Clone, Debug, PartialEq, Eq, Structural)]
pub enum Os {
    MacOs,
    FreeBsd,
    OpenBsd,
    Linux,
    Other,
}

impl Theme {
    /// Whether the theme is the one that a configuration starts from.
    pub open spec fn is_default(&self) -> bool {
        &&& self.fg == Color::Numbered(250)
        &&& self.bg == Color::Numbered(238)
        &&& self.jail_indicator@ == "\u{1f510}"@
        &&& self.os_macos@ == "\u{1f34e}"@
        &&& self.os_freebsd@ == "\u{1f47a}"@
        &&& self.os_openbsd@ == "\u{1f421}"@
        &&& self.os_linux@ == "\u{1f427}"@
    }

    /// The indicator of an operating system; none for one that has no
    /// indicator.
    pub open spec fn os_indicator(&self, os: Os) -> Seq<char> {
        match os {
            Os::MacOs => self.os_macos@,
            Os::FreeBsd => self.os_freebsd@,
            Os::OpenBsd => self.os_openbsd@,
            Os::Linux => self.os_linux@,
            Os::Other => Seq::empty(),
        }
    }
}

impl Args {
    /// The arguments of a segment that is configured without any.
    pub open spec fn initial() -> Args {
        Args { show_domain: false, show_jail_indicator: true, show_os_indicator: false }
    }
}

impl Default for Args {
    fn default() -> (args: Self)
        ensures
            args == Args::initial(),
    {
        Args { show_domain: false, show_jail_indicator: true, show_os_indicator: false }
    }
}

impl Default for Theme {
    fn default() -> (theme: Self)
        ensures
            theme.is_default(),
    {
        Theme {
            fg: Color::Numbered(250),
            bg: Color::Numbered(238),
            jail_indicator: String::from_str("\u{1f510}"),
            os_macos: String::from_str("\u{1f34e}"),
            os_freebsd: String::from_str("\u{1f47a}"),
            os_openbsd: String::from_str("\u{1f421}"),
            os_linux: String::from_str("\u{1f427}"),
        }
    }
}

/// The names of the fields of [`Args`].
pub open spec fn field_names() -> Seq<&'static str> {
    seq!["show_domain", "show_jail_indicator", "show_os_indicator"]
}

/// The kinds of the fields of [`Args`].
pub open spec fn field_kinds() -> Seq<FieldKind> {
    seq![FieldKind::Flag, FieldKind::Flag, FieldKind::Flag]
}

/// The arguments that the members of an argument block stand for.
pub open spec fn args_of(fields: Seq<ArgField>) -> Result<Args, DecodeError> {
    match slots_after(fields, field_names(), field_kinds(), fields.len() as int) {
        Err(e) => Err(e),
        Ok(slots) => Ok(
            Args {
                show_domain: flag_at(fields, slots[0], false),
                show_jail_indicator: flag_at(fields, slots[1], true),
                show_os_indicator: flag_at(fields, slots[2], false),
            },
        ),
    }
}

/// The text of the segment: the host name, cut at its first dot unless the
/// domain is asked for, then the indicator of the operating system where that
/// is asked for, then the jail indicator where that is asked for and the
/// prompt runs in a FreeBSD jail.
pub open spec fn host_text(theme: &Theme, args: Args, hostname: Seq<char>, os: Os, jailed: bool) -> Seq<
    char,
> {
    let name = if args.show_domain {
        hostname
    } else {
        before_first(hostname, '.')
    };
    let with_os = if args.show_os_indicator {
        name + theme.os_indicator(os)
    } else {
        name
    };
    if args.show_jail_indicator && os == Os::FreeBsd && jailed {
        with_os + theme.jail_indicator@
    } else {
        with_os
    }
}

impl ToSegment for Hostname {
    type Args = Args;

    type Theme = Theme;

    open spec fn decoded(blob: ArgsBlob) -> Result<Args, DecodeError> {
        match blob {
            ArgsBlob::Object(fields) => args_of(fields@),
            _ => Err(DecodeError::NotAnObject),
        }
    }

    open spec fn segments(args: Option<Args>, state: &ApplicationState) -> Result<
        Seq<SegmentView>,
        SegmentError,
    > {
        let args = match args {
            Some(a) => a,
            None => Args::initial(),
        };
        match state.env.lookup("hostname"@) {
            None => Err(SegmentError::NoHostname),
            Some(hostname) => Ok(
                seq![
                    SegmentView {
                        bg: state.theme.hostname.bg,
                        fg: state.theme.hostname.fg,
                        separator: Separator::Thick,
                        text: host_text(
                            &state.theme.hostname,
                            args,
                            hostname,
                            state.host.os,
                            state.host.jailed,
                        ),
                        source: "Hostname"@,
                    },
                ],
            ),
        }
    }

    fn decode(blob: &ArgsBlob) -> (r: Result<Args, DecodeError>) {
        match blob {
            ArgsBlob::Object(fields) => {
                let names: Vec<&'static str> = vec![
                    "show_domain",
                    "show_jail_indicator",
                    "show_os_indicator",
                ];
                let kinds: Vec<FieldKind> = vec![FieldKind::Flag, FieldKind::Flag, FieldKind::Flag];
                assert(names@ =~= field_names());
                assert(kinds@ =~= field_kinds());
                match read_fields(fields, &names, &kinds) {
                    Err(e) => Err(e),
                    Ok(slots) => Ok(
                        Args {
                            show_domain: flag_of(fields, slots[0], false),
                            show_jail_indicator: flag_of(fields, slots[1], true),
                            show_os_indicator: flag_of(fields, slots[2], false),
                        },
                    ),
                }
            },
            _ => Err(DecodeError::NotAnObject),
        }
    }

    fn to_segment(args: Option<Args>, state: &ApplicationState) -> (r: Result<
        Vec<Segment>,
        SegmentError,
    >) {
        let args = match args {
            Some(a) => a,
            None => Args::default(),
        };
        let theme = &state.theme.hostname;
        let hostname = match state.env.get("hostname") {
            Some(hostname) => hostname,
            None => {
                return Err(SegmentError::NoHostname);
            },
        };
        let mut text = if args.show_domain {
            hostname.clone()
        } else {
            prefix_before(hostname.as_str(), '.')
        };
        if args.show_os_indicator {
            match state.host.os {
                Os::MacOs => text.append(theme.os_macos.as_str()),
                Os::FreeBsd => text.append(theme.os_freebsd.as_str()),
                Os::OpenBsd => text.append(theme.os_openbsd.as_str()),
                Os::Linux => text.append(theme.os_linux.as_str()),
                Os::Other => {
                    assert(text@ + Seq::<char>::empty() =~= text@);
                },
            }
        }
        if args.show_jail_indicator && state.host.os == Os::FreeBsd && state.host.jailed {
            text.append(theme.jail_indicator.as_str());
        }
        let segments = vec![
            Segment { bg: theme.bg, fg: theme.fg, separator: Separator::Thick, text, source: "Hostname" },
        ];
        assert(views(segments@) =~= Self::segments(Some(args), state)->Ok_0);
        Ok(segments)
    }
}

} // verus!
