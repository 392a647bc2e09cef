//! The `Path` segment shows the working directory as breadcrumbs, as
//! [`Paths`](crate::segment::paths::Paths) does, under a name and a theme of
//! its own.

use crate::ansi::Color;
use crate::args::{ArgsBlob, DecodeError};
use crate::segment::paths;
use crate::segment::{Segment, SegmentError, SegmentView, ToSegment};
use crate::ApplicationState;
use vstd::prelude::*;

verus! {

pub struct Path {}

/// Arguments for the [`Path`] segment.
#[derive(Copy, Clone, Debug, PartialEq, Eq, Structural)]
pub struct Args {
    /// Whether or not to show a segment for the root directory
    pub show_root: bool,
    /// Add a leading segment if there is more than one directory in the
    /// directory stack
    pub show_dir_stack: bool,
}

/// Theme for the [`Path`] segment.
#[derive(Clone, Debug, PartialEq, Eq)]
pub struct Theme {
    pub fg: Color,
    pub bg: Color,
    pub home_fg: Color,
    pub home_bg: Color,
    pub last_fg: Color,
    pub last_bg: Color,
    pub dir_stack_indicator: String,
    /// Shown in place of the home directory.
    pub home_dir_replacement: String,
}

impl Theme {
    /// Whether the theme is the one that a configuration starts from.
    pub open spec fn is_default(&self) -> bool {
        &&& self.fg == Color::Numbered(250)
        &&& self.bg == Color::Numbered(237)
        &&& self.home_fg == Color::Numbered(15)
        &&& self.home_bg == Color::Numbered(31)
        &&& self.last_fg == Color::Numbered(254)
        &&& self.last_bg == Color::Numbered(237)
        &&& self.dir_stack_indicator@ == "\u{1f4da}"@
        &&& self.home_dir_replacement@ == "~"@
    }

    /// The same theme, as the theme of `Paths`.
    pub open spec fn spec_as_paths(&self) -> paths::Theme {
        paths::Theme {
            fg: self.fg,
            bg: self.bg,
            home_fg: self.home_fg,
            home_bg: self.home_bg,
            last_fg: self.last_fg,
            last_bg: self.last_bg,
            dir_stack_indicator: self.dir_stack_indicator,
            home_dir_replacement: self.home_dir_replacement,
        }
    }

    /// The same theme, as the theme of `Paths`.
    pub fn as_paths(&self) -> (theme: paths::Theme)
        ensures
            theme == self.spec_as_paths(),
    {
        paths::Theme {
            fg: self.fg,
            bg: self.bg,
            home_fg: self.home_fg,
            home_bg: self.home_bg,
            last_fg: self.last_fg,
            last_bg: self.last_bg,
            dir_stack_indicator: self.dir_stack_indicator.clone(),
            home_dir_replacement: self.home_dir_replacement.clone(),
        }
    }
}

impl Args {
    /// The arguments of a segment that is configured without any.
    pub open spec fn initial() -> Args {
        Args { show_root: false, show_dir_stack: true }
    }

    /// The same arguments, as arguments of `Paths`.
    pub open spec fn spec_as_paths(self) -> paths::Args {
        paths::Args { show_root: self.show_root, show_dir_stack: self.show_dir_stack }
    }
}

impl Default for Args {
    fn default() -> (args: Self)
        ensures
            args == Args::initial(),
    {
        Args { show_root: false, show_dir_stack: true }
    }
}

impl Default for Theme {
    fn default() -> (theme: Self)
        ensures
            theme.is_default(),
    {
        Theme {
            fg: Color::Numbered(250),
            bg: Color::Numbered(237),
            home_fg: Color::Numbered(15),
            home_bg: Color::Numbered(31),
            last_fg: Color::Numbered(254),
            last_bg: Color::Numbered(237),
            dir_stack_indicator: String::from_str("\u{1f4da}"),
            home_dir_replacement: String::from_str("~"),
        }
    }
}

impl Path {
    /// The sources of the segments of [`Path`].
    pub open spec fn spec_labels() -> paths::Labels {
        paths::Labels {
            first_root: "Path::First::Root",
            first_home: "Path::First::Home",
            first_normal: "Path::First::Normal",
            only_home: "Path::Only::Home",
            only_normal: "Path::Only::Normal",
            middle_normal: "Path::Middle::Normal",
            last_normal: "Path::Last::Normal",
            dir_stack: "Path::BashDirStack",
        }
    }

    /// The sources of the segments of [`Path`].
    pub fn labels() -> (labels: paths::Labels)
        ensures
            labels == Path::spec_labels(),
    {
        paths::Labels {
            first_root: "Path::First::Root",
            first_home: "Path::First::Home",
            first_normal: "Path::First::Normal",
            only_home: "Path::Only::Home",
            only_normal: "Path::Only::Normal",
            middle_normal: "Path::Middle::Normal",
            last_normal: "Path::Last::Normal",
            dir_stack: "Path::BashDirStack",
        }
    }
}

impl ToSegment for Path {
    type Args = Args;

    type Theme = Theme;

    open spec fn decoded(blob: ArgsBlob) -> Result<Args, DecodeError> {
        match blob {
            ArgsBlob::Object(fields) => match paths::args_of(fields@) {
                Ok(a) => Ok(Args { show_root: a.show_root, show_dir_stack: a.show_dir_stack }),
                Err(e) => Err(e),
            },
            _ => Err(DecodeError::NotAnObject),
        }
    }

    open spec fn segments(args: Option<Args>, state: &ApplicationState) -> Result<
        Seq<SegmentView>,
        SegmentError,
    > {
        paths::trail(
            state.env.lookup("PWD"@),
            state.env.lookup("HOME"@),
            state.env.lookup("dirs"@),
            match args {
                Some(a) => a.spec_as_paths(),
                None => Args::initial().spec_as_paths(),
            },
            &state.theme.path.spec_as_paths(),
            Path::spec_labels(),
        )
    }

    fn decode(blob: &ArgsBlob) -> (r: Result<Args, DecodeError>) {
        match blob {
            ArgsBlob::Object(fields) => match paths::decode_fields(fields) {
                Ok(a) => Ok(Args { show_root: a.show_root, show_dir_stack: a.show_dir_stack }),
                Err(e) => Err(e),
            },
            _ => Err(DecodeError::NotAnObject),
        }
    }

    fn to_segment(args: Option<Args>, state: &ApplicationState) -> (r: Result<
        Vec<Segment>,
        SegmentError,
    >) {
        let args = match args {
            Some(a) => a,
            None => Args::default(),
        };
        let theme = state.theme.path.as_paths();
        trail_segments_for(&args, state, &theme)
    }
}

fn trail_segments_for(args: &Args, state: &ApplicationState, theme: &paths::Theme) -> (r: Result<
    Vec<Segment>,
    SegmentError,
>)
    ensures
        crate::segment::outcome(r) == paths::trail(
            state.env.lookup("PWD"@),
            state.env.lookup("HOME"@),
            state.env.lookup("dirs"@),
            args.spec_as_paths(),
            theme,
            Path::spec_labels(),
        ),
{
    paths::trail_segments(
        state.env.get("PWD"),
        state.env.get("HOME"),
        state.env.get("dirs"),
        &paths::Args { show_root: args.show_root, show_dir_stack: args.show_dir_stack },
        theme,
        &Path::labels(),
    )
}

} // verus!
