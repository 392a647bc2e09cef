//! The `Paths` segment shows the working directory as breadcrumbs.
//!
//! The working directory is cut into components. Where it is the home
//! directory or lies inside it, the components of the home directory are
//! replaced by the one name `~`. Each directory name then becomes a segment;
//! a leading `~` is shown as the theme's replacement for the home directory.

use crate::ansi::Color;
use crate::args::{flag_at, flag_of, read_fields, slots_after, ArgField, ArgsBlob, DecodeError, FieldKind};
use crate::segment::{lemma_views_push, views, Segment, SegmentError, SegmentView, ToSegment};
use crate::text::{
    chars_of, concat3, count_char, decimal, decimal_string, find_from, first_index, occurrences,
    starts_with, str_eq, string_of,
};
use crate::{ApplicationState, Separator};
use vstd::prelude::*;

verus! {

pub struct Paths {}

/// Arguments for the [`Paths`] segment.
#[derive(Copy, Clone, Debug, PartialEq, Eq, Structural)]
pub struct Args {
    /// Whether or not to show a segment for the root directory
    pub show_root: bool,
    /// Add a leading segment if there is more than one directory in the
    /// directory stack
    pub show_dir_stack: bool,
}

/// Theme for the [`Paths`] segment.
#[derive(Clone, Debug, PartialEq, Eq)]
pub struct Theme {
    pub fg: Color,
    pub bg: Color,
    pub home_fg: Color,
    pub home_bg: Color,
    pub last_fg: Color,
    pub last_bg: Color,
    pub dir_stack_indicator: String,
    /// Shown in place of the home directory.
    pub home_dir_replacement: String,
}

/// The sources that the segments of a path are tagged with.
#[derive(Copy, Clone, Debug)]
pub struct Labels {
    pub first_root: &'static str,
    pub first_home: &'static str,
    pub first_normal: &'static str,
    pub only_home: &'static str,
    pub only_normal: &'static str,
    pub middle_normal: &'static str,
    pub last_normal: &'static str,
    pub dir_stack: &'static str,
}

/// One component of a path.
#[derive(Clone, Debug, PartialEq, Eq)]
pub enum Component {
    /// The root directory, `/` at the start of a path.
    RootDir,
    /// `.` at the start of a path.
    CurDir,
    /// `..`
    ParentDir,
    /// A name.
    Normal(String),
}

/// One component of a path, with a name as a sequence of characters.
pub enum ComponentView {
    RootDir,
    CurDir,
    ParentDir,
    Normal(Seq<char>),
}

/// Where a component stands among the components of a path.
#[derive(Copy, Clone, Debug, PartialEq, Eq, Structural)]
pub enum Position {
    First,
    Middle,
    Last,
    Only,
}

/// What stands for the home directory at the start of a path.
pub open spec fn home_shortened() -> Seq<char> {
    "~"@
}

impl View for Component {
    type V = ComponentView;

    open spec fn view(&self) -> ComponentView {
        match self {
            Component::RootDir => ComponentView::RootDir,
            Component::CurDir => ComponentView::CurDir,
            Component::ParentDir => ComponentView::ParentDir,
            Component::Normal(name) => ComponentView::Normal(name@),
        }
    }
}

/// The views of a list of components.
pub open spec fn component_views(s: Seq<Component>) -> Seq<ComponentView> {
    s.map_values(|c: Component| c@)
}

impl Theme {
    /// Whether the theme is the one that a configuration starts from.
    pub open spec fn is_default(&self) -> bool {
        &&& self.fg == Color::Numbered(250)
        &&& self.bg == Color::Numbered(237)
        &&& self.home_fg == Color::Numbered(15)
        &&& self.home_bg == Color::Numbered(31)
        &&& self.last_fg == Color::Numbered(254)
        &&& self.last_bg == Color::Numbered(237)
        &&& self.dir_stack_indicator@ == "\u{1f4da}"@
        &&& self.home_dir_replacement@ == "~"@
    }
}

impl Args {
    /// The arguments of a segment that is configured without any.
    pub open spec fn initial() -> Args {
        Args { show_root: false, show_dir_stack: true }
    }
}

impl Default for Args {
    fn default() -> (args: Self)
        ensures
            args == Args::initial(),
    {
        Args { show_root: false, show_dir_stack: true }
    }
}

impl Default for Theme {
    fn default() -> (theme: Self)
        ensures
            theme.is_default(),
    {
        Theme {
            fg: Color::Numbered(250),
            bg: Color::Numbered(237),
            home_fg: Color::Numbered(15),
            home_bg: Color::Numbered(31),
            last_fg: Color::Numbered(254),
            last_bg: Color::Numbered(237),
            dir_stack_indicator: String::from_str("\u{1f4da}"),
            home_dir_replacement: String::from_str("~"),
        }
    }
}

impl Paths {
    /// The sources of the segments of [`Paths`].
    pub open spec fn spec_labels() -> Labels {
        Labels {
            first_root: "Paths::First::Root",
            first_home: "Paths::First::Home",
            first_normal: "Paths::First::Normal",
            only_home: "Paths::Only::Home",
            only_normal: "Paths::Only::Normal",
            middle_normal: "Paths::Middle::Normal",
            last_normal: "Paths::Last::Normal",
            dir_stack: "Paths::BashDirStack",
        }
    }

    /// The sources of the segments of [`Paths`].
    pub fn labels() -> (labels: Labels)
        ensures
            labels == Paths::spec_labels(),
    {
        Labels {
            first_root: "Paths::First::Root",
            first_home: "Paths::First::Home",
            first_normal: "Paths::First::Normal",
            only_home: "Paths::Only::Home",
            only_normal: "Paths::Only::Normal",
            middle_normal: "Paths::Middle::Normal",
            last_normal: "Paths::Last::Normal",
            dir_stack: "Paths::BashDirStack",
        }
    }
}

// ---------------------------------------------------------------------------
// Arguments
// ---------------------------------------------------------------------------

/// The names of the fields of [`Args`].
pub open spec fn field_names() -> Seq<&'static str> {
    seq!["show_root", "show_dir_stack"]
}

/// The kinds of the fields of [`Args`].
pub open spec fn field_kinds() -> Seq<FieldKind> {
    seq![FieldKind::Flag, FieldKind::Flag]
}

/// The arguments that the members of an argument block stand for.
pub open spec fn args_of(fields: Seq<ArgField>) -> Result<Args, DecodeError> {
    match slots_after(fields, field_names(), field_kinds(), fields.len() as int) {
        Err(e) => Err(e),
        Ok(slots) => Ok(
            Args {
                show_root: flag_at(fields, slots[0], false),
                show_dir_stack: flag_at(fields, slots[1], true),
            },
        ),
    }
}

/// Reads the arguments from the members of an argument block.
pub fn decode_fields(fields: &Vec<ArgField>) -> (r: Result<Args, DecodeError>)
    ensures
        r == args_of(fields@),
{
    let names: Vec<&'static str> = vec!["show_root", "show_dir_stack"];
    let kinds: Vec<FieldKind> = vec![FieldKind::Flag, FieldKind::Flag];
    assert(names@ =~= field_names());
    assert(kinds@ =~= field_kinds());
    match read_fields(fields, &names, &kinds) {
        Err(e) => Err(e),
        Ok(slots) => Ok(
            Args {
                show_root: flag_of(fields, slots[0], false),
                show_dir_stack: flag_of(fields, slots[1], true),
            },
        ),
    }
}

// ---------------------------------------------------------------------------
// Components
// ---------------------------------------------------------------------------

/// The component that one piece between slashes stands for, if any: nothing
/// for an empty piece, and nothing for `.` unless the path starts with it.
pub open spec fn piece_parts(piece: Seq<char>, leading: bool) -> Seq<ComponentView> {
    if piece.len() == 0 {
        Seq::empty()
    } else if piece == "."@ {
        if leading {
            seq![ComponentView::CurDir]
        } else {
            Seq::empty()
        }
    } else if piece == ".."@ {
        seq![ComponentView::ParentDir]
    } else {
        seq![ComponentView::Normal(piece)]
    }
}

/// The components of the pieces of `s` between slashes; `leading` says
/// whether `s` is the start of a path.
pub open spec fn parts_from(s: Seq<char>, leading: bool) -> Seq<ComponentView>
    decreases s.len(),
{
    let k = first_index(s, '/');
    if 0 <= k < s.len() {
        piece_parts(s.take(k), leading) + parts_from(s.skip(k + 1), false)
    } else {
        piece_parts(s, leading)
    }
}

/// The components of a path: the root directory where the path starts with
/// a slash, then what stands between the slashes. Repeated slashes and a
/// slash at the end count for nothing, and neither does `.` except at the
/// start.
pub open spec fn path_parts(path: Seq<char>) -> Seq<ComponentView> {
    if path.len() > 0 && path[0] == '/' {
        seq![ComponentView::RootDir] + parts_from(path.skip(1), false)
    } else {
        parts_from(path, true)
    }
}

fn push_piece(parts: &mut Vec<Component>, chars: &Vec<char>, from: usize, to: usize, leading: bool)
    requires
        from <= to <= chars.len(),
    ensures
        component_views(final(parts)@) == component_views(old(parts)@) + piece_parts(
            chars@.subrange(from as int, to as int),
            leading,
        ),
{
    let ghost before = component_views(parts@);
    let piece = string_of(chars, from, to);
    if from == to {
    } else if str_eq(piece.as_str(), ".") {
        if leading {
            parts.push(Component::CurDir);
        }
    } else if str_eq(piece.as_str(), "..") {
        parts.push(Component::ParentDir);
    } else {
        parts.push(Component::Normal(piece));
    }
    assert(component_views(parts@) =~= before + piece_parts(
        chars@.subrange(from as int, to as int),
        leading,
    ));
}

/// Cuts a path into its components.
pub fn components(path: &str) -> (parts: Vec<Component>)
    ensures
        component_views(parts@) == path_parts(path@),
{
    let chars = chars_of(path);
    let mut parts: Vec<Component> = Vec::new();
    let mut i: usize = 0;
    let mut leading = true;
    if chars.len() > 0 && chars[0] == '/' {
        parts.push(Component::RootDir);
        i = 1;
        leading = false;
        assert(component_views(parts@) =~= seq![ComponentView::RootDir]);
    } else {
        assert(component_views(parts@) =~= Seq::<ComponentView>::empty());
        assert(chars@.skip(0) =~= chars@);
    }
    while i < chars.len()
        invariant
            i <= chars.len(),
            chars@ == path@,
            path_parts(path@) == component_views(parts@) + parts_from(chars@.skip(i as int), leading),
        decreases chars.len() - i,
    {
        let ghost rest = chars@.skip(i as int);
        let ghost before = component_views(parts@);
        let j = find_from(&chars, i, '/');
        push_piece(&mut parts, &chars, i, j, leading);
        if j < chars.len() {
            assert(rest.take(j - i) =~= chars@.subrange(i as int, j as int));
            assert(rest.skip(j - i + 1) =~= chars@.skip(j as int + 1));
            i = j + 1;
        } else {
            assert(rest =~= chars@.subrange(i as int, j as int));
            i = chars.len();
            assert(parts_from(chars@.skip(i as int), false) =~= Seq::<ComponentView>::empty());
        }
        leading = false;
        assert(path_parts(path@) =~= component_views(parts@) + parts_from(
            chars@.skip(i as int),
            leading,
        ));
    }
    assert(parts_from(chars@.skip(i as int), leading) =~= Seq::<ComponentView>::empty());
    parts
}

/// Where the component at `i` stands among `n` components.
pub open spec fn position_at(i: int, n: int) -> Position {
    if n == 1 {
        Position::Only
    } else if i == 0 {
        Position::First
    } else if i == n - 1 {
        Position::Last
    } else {
        Position::Middle
    }
}

/// Where the component at `i` stands among `n` components.
pub fn position_of(i: usize, n: usize) -> (position: Position)
    requires
        i < n,
    ensures
        position == position_at(i as int, n as int),
{
    if n == 1 {
        Position::Only
    } else if i == 0 {
        Position::First
    } else if i == n - 1 {
        Position::Last
    } else {
        Position::Middle
    }
}

// ---------------------------------------------------------------------------
// Segments
// ---------------------------------------------------------------------------

/// The segment that shows the home directory.
pub open spec fn home_crumb(theme: &Theme, source: Seq<char>) -> SegmentView {
    SegmentView {
        fg: theme.home_fg,
        bg: theme.home_bg,
        separator: Separator::Thick,
        text: theme.home_dir_replacement@,
        source,
    }
}

/// A segment in the colors of a directory that is not the last one.
pub open spec fn plain_crumb(
    theme: &Theme,
    text: Seq<char>,
    separator: Separator,
    source: Seq<char>,
) -> SegmentView {
    SegmentView { fg: theme.fg, bg: theme.bg, separator, text, source }
}

/// The segment for one component, if it has one.
///
/// A name is shown as it is, with a thin separator unless it is the last or
/// only one; the last name of several has colors of its own. A first or only
/// name `~` is the home directory. The root directory is shown only where it
/// comes first and the arguments ask for it. Nothing else is shown.
pub open spec fn crumb(
    part: ComponentView,
    position: Position,
    args: Args,
    theme: &Theme,
    labels: Labels,
) -> Seq<SegmentView> {
    match (position, part) {
        (Position::First, ComponentView::RootDir) => if args.show_root {
            seq![plain_crumb(theme, "/"@, Separator::Thin, labels.first_root@)]
        } else {
            Seq::empty()
        },
        (Position::First, ComponentView::Normal(name)) => if name == home_shortened() {
            seq![home_crumb(theme, labels.first_home@)]
        } else {
            seq![plain_crumb(theme, name, Separator::Thin, labels.first_normal@)]
        },
        (Position::Only, ComponentView::Normal(name)) => if name == home_shortened() {
            seq![home_crumb(theme, labels.only_home@)]
        } else {
            seq![plain_crumb(theme, name, Separator::Thick, labels.only_normal@)]
        },
        (Position::Middle, ComponentView::Normal(name)) => seq![
            plain_crumb(theme, name, Separator::Thin, labels.middle_normal@),
        ],
        (Position::Last, ComponentView::Normal(name)) => seq![
            SegmentView {
                fg: theme.last_fg,
                bg: theme.last_bg,
                separator: Separator::Thick,
                text: name,
                source: labels.last_normal@,
            },
        ],
        _ => Seq::empty(),
    }
}

/// The segments of the first `upto` components of a path.
pub open spec fn crumbs(
    parts: Seq<ComponentView>,
    upto: int,
    args: Args,
    theme: &Theme,
    labels: Labels,
) -> Seq<SegmentView>
    decreases upto,
{
    if upto <= 0 {
        Seq::empty()
    } else {
        crumbs(parts, upto - 1, args, theme, labels) + crumb(
            parts[upto - 1],
            position_at(upto - 1, parts.len() as int),
            args,
            theme,
            labels,
        )
    }
}

/// The segment for the directory stack, which the environment lists one
/// directory to a line: the depth of the stack and the theme's indicator,
/// where the depth is more than one and the arguments ask for it.
pub open spec fn stack_segments(
    dirs: Option<Seq<char>>,
    args: Args,
    theme: &Theme,
    labels: Labels,
) -> Seq<SegmentView> {
    match dirs {
        Some(d) => if args.show_dir_stack && occurrences(d, '\n') > 0 {
            seq![
                plain_crumb(
                    theme,
                    decimal(occurrences(d, '\n') + 1) + " "@ + theme.dir_stack_indicator@,
                    Separator::Thick,
                    labels.dir_stack@,
                ),
            ]
        } else {
            Seq::empty()
        },
        None => Seq::empty(),
    }
}

/// Whether the components `first` are the first of the components `all`.
pub open spec fn begins_with(all: Seq<ComponentView>, first: Seq<ComponentView>) -> bool {
    first.len() <= all.len() && all.take(first.len() as int) == first
}

/// Whether the path `pwd` is the directory `home` or lies inside it: `home`
/// has components, and they are the first components of `pwd`.
pub open spec fn inside_home(pwd: Seq<char>, home: Seq<char>) -> bool {
    path_parts(home).len() > 0 && begins_with(path_parts(pwd), path_parts(home))
}

/// The components of the path `pwd` with those of the home directory
/// replaced by the one name `~`, where `pwd` is the home directory or lies
/// inside it; else the components of `pwd` as they are.
pub open spec fn home_replaced(pwd: Seq<char>, home: Seq<char>) -> Seq<ComponentView> {
    if inside_home(pwd, home) {
        seq![ComponentView::Normal(home_shortened())] + path_parts(pwd).skip(
            path_parts(home).len() as int,
        )
    } else {
        path_parts(pwd)
    }
}

/// The segments for a working directory: the directory stack, then the
/// components of the working directory with the home directory at its start
/// replaced by `~`.
pub open spec fn trail(
    pwd: Option<Seq<char>>,
    home: Option<Seq<char>>,
    dirs: Option<Seq<char>>,
    args: Args,
    theme: &Theme,
    labels: Labels,
) -> Result<Seq<SegmentView>, SegmentError> {
    match (pwd, home) {
        (None, _) => Err(SegmentError::NoWorkingDirectory),
        (Some(_), None) => Err(SegmentError::NoHome),
        (Some(pwd), Some(home)) => {
            let parts = home_replaced(pwd, home);
            Ok(
                stack_segments(dirs, args, theme, labels) + crumbs(
                    parts,
                    parts.len() as int,
                    args,
                    theme,
                    labels,
                ),
            )
        },
    }
}

/// Whether two components are the same.
pub fn same_component(a: &Component, b: &Component) -> (same: bool)
    ensures
        same == (a@ == b@),
{
    match (a, b) {
        (Component::RootDir, Component::RootDir) => true,
        (Component::CurDir, Component::CurDir) => true,
        (Component::ParentDir, Component::ParentDir) => true,
        (Component::Normal(p), Component::Normal(q)) => str_eq(p.as_str(), q.as_str()),
        _ => false,
    }
}

/// Whether the components `first` are the first of the components `all`.
pub fn components_begin_with(all: &Vec<Component>, first: &Vec<Component>) -> (begins: bool)
    ensures
        begins == begins_with(component_views(all@), component_views(first@)),
{
    let ghost av = component_views(all@);
    let ghost fv = component_views(first@);
    if first.len() > all.len() {
        return false;
    }
    let mut i: usize = 0;
    while i < first.len()
        invariant
            i <= first.len() <= all.len(),
            av == component_views(all@),
            fv == component_views(first@),
            forall|j: int| 0 <= j < i ==> av[j] == fv[j],
        decreases first.len() - i,
    {
        assert(av[i as int] == all@[i as int]@);
        assert(fv[i as int] == first@[i as int]@);
        if !same_component(&all[i], &first[i]) {
            assert(av.take(fv.len() as int)[i as int] != fv[i as int]);
            return false;
        }
        i += 1;
    }
    assert(av.take(fv.len() as int) =~= fv);
    true
}

/// The components of `pwd` with those of the home directory replaced by
/// `~`, where `pwd` is the home directory or lies inside it.
pub fn shorten_home(pwd: &str, home: &str) -> (parts: Vec<Component>)
    ensures
        component_views(parts@) == home_replaced(pwd@, home@),
{
    let mut all = components(pwd);
    let first = components(home);
    if first.len() > 0 && components_begin_with(&all, &first) {
        let ghost whole = all@;
        let mut rest = all.split_off(first.len());
        let mut parts: Vec<Component> = Vec::new();
        parts.push(Component::Normal(String::from_str("~")));
        parts.append(&mut rest);
        assert(component_views(parts@) =~= seq![ComponentView::Normal(home_shortened())]
            + component_views(whole).skip(first@.len() as int));
        parts
    } else {
        all
    }
}

fn push_crumb(
    segments: &mut Vec<Segment>,
    part: &Component,
    position: Position,
    args: &Args,
    theme: &Theme,
    labels: &Labels,
)
    ensures
        views(final(segments)@) == views(old(segments)@) + crumb(
            part@,
            position,
            *args,
            theme,
            *labels,
        ),
{
    let ghost before = views(segments@);
    let found: Option<Segment> = match part {
        Component::RootDir => match position {
            Position::First => if args.show_root {
                Some(
                    Segment {
                        fg: theme.fg,
                        bg: theme.bg,
                        separator: Separator::Thin,
                        text: String::from_str("/"),
                        source: labels.first_root,
                    },
                )
            } else {
                None
            },
            _ => None,
        },
        Component::Normal(name) => {
            let home = str_eq(name.as_str(), "~");
            match position {
                Position::First => if home {
                    Some(
                        Segment {
                            fg: theme.home_fg,
                            bg: theme.home_bg,
                            separator: Separator::Thick,
                            text: theme.home_dir_replacement.clone(),
                            source: labels.first_home,
                        },
                    )
                } else {
                    Some(
                        Segment {
                            fg: theme.fg,
                            bg: theme.bg,
                            separator: Separator::Thin,
                            text: name.clone(),
                            source: labels.first_normal,
                        },
                    )
                },
                Position::Only => if home {
                    Some(
                        Segment {
                            fg: theme.home_fg,
                            bg: theme.home_bg,
                            separator: Separator::Thick,
                            text: theme.home_dir_replacement.clone(),
                            source: labels.only_home,
                        },
                    )
                } else {
                    Some(
                        Segment {
                            fg: theme.fg,
                            bg: theme.bg,
                            separator: Separator::Thick,
                            text: name.clone(),
                            source: labels.only_normal,
                        },
                    )
                },
                Position::Middle => Some(
                    Segment {
                        fg: theme.fg,
                        bg: theme.bg,
                        separator: Separator::Thin,
                        text: name.clone(),
                        source: labels.middle_normal,
                    },
                ),
                Position::Last => Some(
                    Segment {
                        fg: theme.last_fg,
                        bg: theme.last_bg,
                        separator: Separator::Thick,
                        text: name.clone(),
                        source: labels.last_normal,
                    },
                ),
            }
        },
        _ => None,
    };
    match found {
        Some(segment) => {
            proof {
                lemma_views_push(segments@, segment);
            }
            segments.push(segment);
        },
        None => {},
    }
    assert(views(segments@) =~= before + crumb(part@, position, *args, theme, *labels));
}

/// The segments for the components of a path, after those for the directory
/// stack `dirs`.
pub fn breadcrumbs(
    parts: &Vec<Component>,
    dirs: Option<&String>,
    args: &Args,
    theme: &Theme,
    labels: &Labels,
) -> (segments: Vec<Segment>)
    ensures
        views(segments@) == stack_segments(
            match dirs {
                Some(d) => Some(d@),
                None => None,
            },
            *args,
            theme,
            *labels,
        ) + crumbs(component_views(parts@), parts@.len() as int, *args, theme, *labels),
{
    let mut segments: Vec<Segment> = Vec::new();
    let ghost dirs_view = match dirs {
        Some(d) => Some(d@),
        None => None,
    };
    assert(views(segments@) =~= Seq::<SegmentView>::empty());
    if args.show_dir_stack {
        match dirs {
            Some(d) => {
                let newlines = count_char(d.as_str(), '\n');
                if newlines > 0 {
                    let depth = decimal_string(newlines as u128 + 1);
                    let text = concat3(depth.as_str(), " ", theme.dir_stack_indicator.as_str());
                    let segment = Segment {
                        fg: theme.fg,
                        bg: theme.bg,
                        separator: Separator::Thick,
                        text,
                        source: labels.dir_stack,
                    };
                    proof {
                        lemma_views_push(segments@, segment);
                    }
                    segments.push(segment);
                }
            },
            None => {},
        }
    }
    assert(views(segments@) =~= stack_segments(dirs_view, *args, theme, *labels));
    let ghost stack = views(segments@);
    let ghost pv = component_views(parts@);
    let mut i: usize = 0;
    while i < parts.len()
        invariant
            i <= parts.len(),
            pv == component_views(parts@),
            views(segments@) == stack + crumbs(pv, i as int, *args, theme, *labels),
        decreases parts.len() - i,
    {
        let ghost before = views(segments@);
        assert(pv[i as int] == parts@[i as int]@);
        push_crumb(&mut segments, &parts[i], position_of(i, parts.len()), args, theme, labels);
        i += 1;
        assert(views(segments@) =~= stack + crumbs(pv, i as int, *args, theme, *labels));
    }
    segments
}

/// The segments for a working directory, a home directory and a directory
/// stack, as the environment holds them.
pub fn trail_segments(
    pwd: Option<&String>,
    home: Option<&String>,
    dirs: Option<&String>,
    args: &Args,
    theme: &Theme,
    labels: &Labels,
) -> (r: Result<Vec<Segment>, SegmentError>)
    ensures
        crate::segment::outcome(r) == trail(
            match pwd {
                Some(s) => Some(s@),
                None => None,
            },
            match home {
                Some(s) => Some(s@),
                None => None,
            },
            match dirs {
                Some(s) => Some(s@),
                None => None,
            },
            *args,
            theme,
            *labels,
        ),
{
    let pwd = match pwd {
        Some(pwd) => pwd,
        None => {
            return Err(SegmentError::NoWorkingDirectory);
        },
    };
    let home = match home {
        Some(home) => home,
        None => {
            return Err(SegmentError::NoHome);
        },
    };
    let parts = shorten_home(pwd.as_str(), home.as_str());
    Ok(breadcrumbs(&parts, dirs, args, theme, labels))
}

/// A path whose first component is `~` starts with the home segment: the
/// theme's replacement for the home directory in the home colors, not the
/// name `~` itself, wherever the arguments stand.
pub proof fn lemma_home_comes_first(
    parts: Seq<ComponentView>,
    args: Args,
    theme: &Theme,
    labels: Labels,
)
    requires
        parts.len() > 0,
        parts[0] == ComponentView::Normal(home_shortened()),
    ensures
        crumbs(parts, parts.len() as int, args, theme, labels).len() > 0,
        crumbs(parts, parts.len() as int, args, theme, labels)[0].text == theme.home_dir_replacement@,
        crumbs(parts, parts.len() as int, args, theme, labels)[0].fg == theme.home_fg,
        crumbs(parts, parts.len() as int, args, theme, labels)[0].bg == theme.home_bg,
        crumbs(parts, parts.len() as int, args, theme, labels)[0].separator == Separator::Thick,
{
    lemma_crumbs_start(parts, parts.len() as int, args, theme, labels);
    let first = crumb(parts[0], position_at(0, parts.len() as int), args, theme, labels);
    let all = crumbs(parts, parts.len() as int, args, theme, labels);
    assert(first.len() == 1);
    assert(first[0] == all.subrange(0, first.len() as int)[0]);
}

/// The position of the first `c` in a text that is followed by `c`: where
/// it is in the text alone, or the length of the text.
pub proof fn lemma_first_index_join(a: Seq<char>, c: char, r: Seq<char>)
    ensures
        first_index(a + seq![c] + r, c) == first_index(a, c),
        0 <= first_index(a, c) <= a.len(),
    decreases a.len(),
{
    let s = a + seq![c] + r;
    if a.len() == 0 {
        assert(s[0] == c);
    } else if a[0] == c {
        assert(s[0] == c);
    } else {
        assert(s[0] == a[0]);
        assert(s.drop_first() =~= a.drop_first() + seq![c] + r);
        lemma_first_index_join(a.drop_first(), c, r);
    }
}

/// The components of a text, a slash and another text are those of the
/// first text followed by those of the second.
pub proof fn lemma_parts_join(a: Seq<char>, r: Seq<char>, leading: bool)
    ensures
        parts_from(a + seq!['/'] + r, leading) == parts_from(a, leading) + parts_from(r, false),
    decreases a.len(),
{
    let s = a + seq!['/'] + r;
    lemma_first_index_join(a, '/', r);
    let k = first_index(a, '/');
    assert(k < s.len());
    if k < a.len() {
        assert(s.take(k) =~= a.take(k));
        assert(s.skip(k + 1) =~= a.skip(k + 1) + seq!['/'] + r);
        lemma_parts_join(a.skip(k + 1), r, false);
        assert(parts_from(s, leading) =~= parts_from(a, leading) + parts_from(r, false));
    } else {
        assert(s.take(k) =~= a);
        assert(s.skip(k + 1) =~= r);
    }
}

/// The components of a path, a slash and a text are those of the path
/// followed by those of the text.
pub proof fn lemma_path_join(home: Seq<char>, r: Seq<char>)
    requires
        home.len() > 0,
    ensures
        path_parts(home + seq!['/'] + r) == path_parts(home) + parts_from(r, false),
{
    let s = home + seq!['/'] + r;
    assert(s[0] == home[0]);
    if home[0] == '/' {
        assert(s.skip(1) =~= home.skip(1) + seq!['/'] + r);
        lemma_parts_join(home.skip(1), r, false);
        assert(path_parts(s) =~= path_parts(home) + parts_from(r, false));
    } else {
        lemma_parts_join(home, r, true);
    }
}

/// A path that is not empty has a component.
pub proof fn lemma_path_has_parts(path: Seq<char>)
    requires
        path.len() > 0,
    ensures
        path_parts(path).len() > 0,
{
    if path[0] != '/' {
        lemma_first_index_join(path, '/', Seq::empty());
        let k = first_index(path, '/');
        assert(k >= 1) by {
            lemma_first_index_join(path.drop_first(), '/', Seq::empty());
        }
        if k < path.len() {
            assert(path.take(k).len() > 0);
            assert(piece_parts(path.take(k), true).len() == 1);
        } else {
            assert(piece_parts(path, true).len() == 1);
        }
    }
}

/// The components of a working directory that is the home directory or lies
/// inside it, after the home directory is replaced: `~`, then the components
/// of what follows the home directory, in their order. No component of the
/// home directory itself is among them.
pub proof fn lemma_home_components(pwd: Seq<char>, home: Seq<char>)
    requires
        home.len() > 0,
        pwd == home || starts_with(pwd, home + seq!['/']),
    ensures
        inside_home(pwd, home),
        home_replaced(pwd, home) == seq![ComponentView::Normal(home_shortened())] + (if pwd.len()
            == home.len() {
            Seq::empty()
        } else {
            parts_from(pwd.skip(home.len() as int + 1), false)
        }),
{
    lemma_path_has_parts(home);
    let first = path_parts(home);
    if pwd == home {
        assert(path_parts(pwd).take(first.len() as int) =~= first);
        assert(path_parts(pwd).skip(first.len() as int) =~= Seq::<ComponentView>::empty());
    } else {
        let marked = home + seq!['/'];
        let r = pwd.skip(home.len() as int + 1);
        assert(pwd.take(marked.len() as int) == marked);
        assert(pwd =~= home + seq!['/'] + r) by {
            assert forall|i: int| 0 <= i < marked.len() implies pwd[i] == marked[i] by {
                assert(pwd.take(marked.len() as int)[i] == marked[i]);
            }
        }
        lemma_path_join(home, r);
        let all = first + parts_from(r, false);
        assert(path_parts(pwd) == all);
        assert(all.take(first.len() as int) =~= first);
        assert(all.skip(first.len() as int) =~= parts_from(r, false));
    }
}

/// For every working directory that is the home directory or lies inside
/// it, the segment that follows the directory stack is the home segment: it
/// shows the theme's replacement for the home directory in the home colors,
/// not the name of a directory.
pub proof fn lemma_trail_starts_at_home(
    pwd: Seq<char>,
    home: Seq<char>,
    dirs: Option<Seq<char>>,
    args: Args,
    theme: &Theme,
    labels: Labels,
)
    requires
        home.len() > 0,
        pwd == home || starts_with(pwd, home + seq!['/']),
    ensures
        ({
            let stack = stack_segments(dirs, args, theme, labels);
            &&& trail(Some(pwd), Some(home), dirs, args, theme, labels) matches Ok(segments)
            &&& segments.len() > stack.len()
            &&& segments[stack.len() as int].text == theme.home_dir_replacement@
            &&& segments[stack.len() as int].fg == theme.home_fg
            &&& segments[stack.len() as int].bg == theme.home_bg
            &&& segments[stack.len() as int].separator == Separator::Thick
        }),
{
    lemma_home_components(pwd, home);
    let parts = home_replaced(pwd, home);
    assert(parts[0] == ComponentView::Normal(home_shortened()));
    lemma_home_comes_first(parts, args, theme, labels);
}

/// The same holds of every working directory whose components begin with
/// those of the home directory, however the two paths are written.
pub proof fn lemma_trail_starts_at_home_components(
    pwd: Seq<char>,
    home: Seq<char>,
    dirs: Option<Seq<char>>,
    args: Args,
    theme: &Theme,
    labels: Labels,
)
    requires
        inside_home(pwd, home),
    ensures
        ({
            let stack = stack_segments(dirs, args, theme, labels);
            &&& trail(Some(pwd), Some(home), dirs, args, theme, labels) matches Ok(segments)
            &&& segments.len() > stack.len()
            &&& segments[stack.len() as int].text == theme.home_dir_replacement@
            &&& segments[stack.len() as int].fg == theme.home_fg
            &&& segments[stack.len() as int].bg == theme.home_bg
            &&& segments[stack.len() as int].separator == Separator::Thick
        }),
{
    let parts = home_replaced(pwd, home);
    assert(parts[0] == ComponentView::Normal(home_shortened()));
    lemma_home_comes_first(parts, args, theme, labels);
}

/// The segments of a path start with the segments of its first component.
pub proof fn lemma_crumbs_start(
    parts: Seq<ComponentView>,
    upto: int,
    args: Args,
    theme: &Theme,
    labels: Labels,
)
    requires
        1 <= upto <= parts.len(),
    ensures
        crumb(parts[0], position_at(0, parts.len() as int), args, theme, labels).is_prefix_of(
            crumbs(parts, upto, args, theme, labels),
        ),
    decreases upto,
{
    let first = crumb(parts[0], position_at(0, parts.len() as int), args, theme, labels);
    if upto == 1 {
        assert(crumbs(parts, 0, args, theme, labels) =~= Seq::<SegmentView>::empty());
        assert(crumbs(parts, 1, args, theme, labels) =~= first);
    } else {
        lemma_crumbs_start(parts, upto - 1, args, theme, labels);
    }
}

impl ToSegment for Paths {
    type Args = Args;

    type Theme = Theme;

    open spec fn decoded(blob: ArgsBlob) -> Result<Args, DecodeError> {
        match blob {
            ArgsBlob::Object(fields) => args_of(fields@),
            _ => Err(DecodeError::NotAnObject),
        }
    }

    open spec fn segments(args: Option<Args>, state: &ApplicationState) -> Result<
        Seq<SegmentView>,
        SegmentError,
    > {
        trail(
            state.env.lookup("PWD"@),
            state.env.lookup("HOME"@),
            state.env.lookup("dirs"@),
            match args {
                Some(a) => a,
                None => Args::initial(),
            },
            &state.theme.paths,
            Paths::spec_labels(),
        )
    }

    fn decode(blob: &ArgsBlob) -> (r: Result<Args, DecodeError>) {
        match blob {
            ArgsBlob::Object(fields) => decode_fields(fields),
            _ => Err(DecodeError::NotAnObject),
        }
    }

    fn to_segment(args: Option<Args>, state: &ApplicationState) -> (r: Result<
        Vec<Segment>,
        SegmentError,
    >) {
        let args = match args {
            Some(a) => a,
            None => Args::default(),
        };
        trail_segments(
            state.env.get("PWD"),
            state.env.get("HOME"),
            state.env.get("dirs"),
            &args,
            &state.theme.paths,
            &Paths::labels(),
        )
    }
}

} // verus!
