//! The `Rvm` segment shows the current ruby if RVM is loaded.
//!
//! A ruby is named `[interpreter-]version[@gemset]`; the interpreter is
//! `ruby` where none is given. The current ruby is what `$GEM_HOME` holds
//! behind RVM's `gems/` directory. Where the project asks for a ruby in a
//! `.ruby-version` file and the current one does not meet it, the theme's
//! mismatch symbol follows the version.
//!
//! The segment is shown only in a project with a `Gemfile`, unless the
//! arguments force it.

use crate::ansi::Color;
use crate::args::{flag_at, flag_of, read_fields, slots_after, ArgField, ArgsBlob, DecodeError, FieldKind};
use crate::pattern::{capture_groups, captured, groups_view, pattern_compiles};
use crate::segment::paths::{component_views, components, path_parts, same_component};
use crate::segment::{views, Segment, SegmentError, SegmentView, ToSegment};
use crate::text::{
    all_replaced, chars_of, concat2, replace_all, str_eq, trim_trailing, without_trailing,
};
use crate::version::{admits, requirement_admits, show_version, shown_version};
use crate::{ApplicationState, Separator};
use vstd::prelude::*;

verus! {

pub struct Rvm {}

/// Arguments for the [`Rvm`] segment.
#[derive(Copy, Clone, Debug, PartialEq, Eq, Structural)]
pub struct Args {
    /// Show even if there is no `Gemfile` in the current or an ancestor
    /// directory
    pub force_show: bool,
}

/// Theme for the [`Rvm`] segment.
#[derive(Clone, Debug, PartialEq, Eq)]
pub struct Theme {
    /// Foreground color
    pub fg: Color,
    /// Background color
    pub bg: Color,
    /// Appended if the current ruby is not the one that the project asks for
    pub mismatch_symbol: String,
}

/// A ruby as RVM names it: an interpreter, a version and an optional gemset.
#[derive(Clone, Debug, PartialEq, Eq)]
pub struct Gemset {
    pub interp: String,
    pub version: String,
    pub gemset: Option<String>,
}

/// A ruby, with its texts as sequences of characters.
pub struct GemsetView {
    pub interp: Seq<char>,
    pub version: Seq<char>,
    pub gemset: Option<Seq<char>>,
}

/// The `.ruby-version` file of a project.
#[derive(Clone, Debug, PartialEq, Eq)]
pub enum RubyVersionFile {
    /// There is none.
    Missing,
    /// There is one, and it could not be read.
    Unreadable,
    /// What the file holds.
    Contents(String),
}

/// What was found in the working directory and its ancestors.
#[derive(Clone, Debug, PartialEq, Eq)]
pub struct Project {
    /// Whether one of the directories holds a `Gemfile`.
    pub gemfile_found: bool,
    /// The nearest `.ruby-version` file.
    pub ruby_version: RubyVersionFile,
}

impl View for Gemset {
    type V = GemsetView;

    open spec fn view(&self) -> GemsetView {
        GemsetView {
            interp: self.interp@,
            version: self.version@,
            gemset: match self.gemset {
                Some(g) => Some(g@),
                None => None,
            },
        }
    }
}

impl Theme {
    /// Whether the theme is the one that a configuration starts from.
    pub open spec fn is_default(&self) -> bool {
        &&& self.fg == Color::Numbered(15)
        &&& self.bg == Color::Numbered(124)
        &&& self.mismatch_symbol@ == " \u{2260}"@
    }
}

impl Default for Args {
    fn default() -> (args: Self)
        ensures
            args == (Args { force_show: false }),
    {
        Args { force_show: false }
    }
}

impl Default for Theme {
    fn default() -> (theme: Self)
        ensures
            theme.is_default(),
    {
        Theme {
            fg: Color::Numbered(15),
            bg: Color::Numbered(124),
            mismatch_symbol: String::from_str(" \u{2260}"),
        }
    }
}

/// The names of the fields of [`Args`].
pub open spec fn field_names() -> Seq<&'static str> {
    seq!["force_show"]
}

/// The kinds of the fields of [`Args`].
pub open spec fn field_kinds() -> Seq<FieldKind> {
    seq![FieldKind::Flag]
}

/// The arguments that the members of an argument block stand for.
pub open spec fn args_of(fields: Seq<ArgField>) -> Result<Args, DecodeError> {
    match slots_after(fields, field_names(), field_kinds(), fields.len() as int) {
        Err(e) => Err(e),
        Ok(slots) => Ok(Args { force_show: flag_at(fields, slots[0], false) }),
    }
}

/// The pattern of a ruby's name. Group 2 is the interpreter, group 3 the
/// version and group 10 the gemset.
pub open spec fn rubie_pattern() -> Seq<char> {
    "(([\\w_]+)-)?(((\\d+)\\.)?((\\d+)\\.)?(\\d+))(@([\\w_]+))?"@
}

/// The ruby that the capture groups of a match stand for.
pub open spec fn gemset_from_groups(groups: Seq<Option<Seq<char>>>) -> Option<GemsetView> {
    if groups.len() <= 10 {
        None
    } else {
        match groups[3] {
            None => None,
            Some(version) => Some(
                GemsetView {
                    interp: match groups[2] {
                        Some(i) => i,
                        None => "ruby"@,
                    },
                    version,
                    gemset: groups[10],
                },
            ),
        }
    }
}

/// The ruby that `text` names, if it names one.
pub open spec fn gemset_named(text: Seq<char>) -> Option<GemsetView> {
    if !pattern_compiles(rubie_pattern()) {
        None
    } else {
        match captured(rubie_pattern(), text) {
            None => None,
            Some(groups) => gemset_from_groups(groups),
        }
    }
}

/// The view of an optional ruby.
pub open spec fn opt_gemset(g: Option<Gemset>) -> Option<GemsetView> {
    match g {
        Some(g) => Some(g@),
        None => None,
    }
}

impl Gemset {
    /// The ruby that the capture groups of a match stand for: the
    /// interpreter from group 2, `ruby` where it took no part; the version
    /// from group 3; the gemset from group 10.
    pub fn from_groups(groups: &Vec<Option<String>>) -> (r: Option<Gemset>)
        ensures
            opt_gemset(r) == gemset_from_groups(groups_view(Some(*groups))->Some_0),
    {
        if groups.len() <= 10 {
            return None;
        }
        let version = match &groups[3] {
            Some(v) => v.clone(),
            None => {
                return None;
            },
        };
        let interp = match &groups[2] {
            Some(i) => i.clone(),
            None => String::from_str("ruby"),
        };
        let gemset = match &groups[10] {
            Some(g) => Some(g.clone()),
            None => None,
        };
        Some(Gemset { interp, version, gemset })
    }

    /// Reads a ruby's name.
    pub fn from_str(s: &str) -> (r: Option<Gemset>)
        ensures
            opt_gemset(r) == gemset_named(s@),
    {
        let pattern = "(([\\w_]+)-)?(((\\d+)\\.)?((\\d+)\\.)?(\\d+))(@([\\w_]+))?";
        match capture_groups(pattern, s) {
            Err(_) => None,
            Ok(None) => None,
            Ok(Some(groups)) => Gemset::from_groups(&groups),
        }
    }
}

/// RVM's directory of gems: `gems/` below `rvm_path`.
pub open spec fn gems_path(rvm_path: Seq<char>) -> Seq<char> {
    if rvm_path.len() == 0 || rvm_path.last() == '/' {
        rvm_path + "gems/"@
    } else {
        rvm_path + "/"@ + "gems/"@
    }
}

/// RVM's directory of gems: `gems/` below `rvm_path`.
pub fn gems_directory(rvm_path: &str) -> (dir: String)
    ensures
        dir@ == gems_path(rvm_path@),
{
    let chars = chars_of(rvm_path);
    let mut dir = String::from_str(rvm_path);
    if chars.len() > 0 && chars[chars.len() - 1] != '/' {
        dir.append("/");
    }
    dir.append("gems/");
    dir
}

/// Whether two paths name the same place: they have the same components.
pub open spec fn same_path(a: Seq<char>, b: Seq<char>) -> bool {
    path_parts(a) =~= path_parts(b)
}

/// Whether two paths name the same place.
pub fn paths_equal(a: &str, b: &str) -> (same: bool)
    ensures
        same == same_path(a@, b@),
{
    let x = components(a);
    let y = components(b);
    let ghost xv = component_views(x@);
    let ghost yv = component_views(y@);
    if x.len() != y.len() {
        return false;
    }
    let mut i: usize = 0;
    while i < x.len()
        invariant
            i <= x.len(),
            x.len() == y.len(),
            xv == component_views(x@),
            yv == component_views(y@),
            xv == path_parts(a@),
            yv == path_parts(b@),
            forall|j: int| 0 <= j < i ==> xv[j] == yv[j],
        decreases x.len() - i,
    {
        assert(xv[i as int] == x@[i as int]@);
        assert(yv[i as int] == y@[i as int]@);
        if !same_component(&x[i], &y[i]) {
            return false;
        }
        i += 1;
    }
    true
}

/// Whether the search for a project file looks into `dir`: it looks into
/// every directory but the home directory and RVM's directory of gems.
pub fn searches(dir: &str, home: &str, gems: &str) -> (looks: bool)
    ensures
        looks == (!same_path(dir@, home@) && !same_path(dir@, gems@)),
{
    !paths_equal(dir, home) && !paths_equal(dir, gems)
}

/// The version that the project asks for: what its `.ruby-version` file
/// holds, without the newlines at the end.
pub open spec fn requested_version(file: RubyVersionFile) -> Result<Option<Seq<char>>, SegmentError> {
    match file {
        RubyVersionFile::Missing => Ok(None),
        RubyVersionFile::Unreadable => Err(SegmentError::BadRequestedRubyVersion),
        RubyVersionFile::Contents(c) => Ok(Some(without_trailing(c@, '\n'))),
    }
}

/// Whether the current ruby is the one asked for: it has the interpreter
/// asked for, and its version meets the requirement.
pub open spec fn ruby_matches(current: GemsetView, requested: Option<Seq<char>>) -> Result<
    bool,
    SegmentError,
> {
    match requested {
        None => Ok(true),
        Some(text) => match gemset_named(text) {
            None => Err(SegmentError::BadRequestedRubyVersion),
            Some(wanted) => match requirement_admits(wanted.version, current.version) {
                None => Err(SegmentError::BadRequestedRubyVersion),
                Some(met) => Ok(wanted.interp == current.interp && met),
            },
        },
    }
}

/// The text of the segment: the version, behind the gemset where there is
/// one, and the mismatch symbol where the ruby is not the one asked for.
pub open spec fn ruby_text(theme: &Theme, gemset: Option<Seq<char>>, version: Seq<char>, matches: bool) -> Seq<
    char,
> {
    let shown = match gemset {
        Some(g) => g + " (v"@ + version + ")"@,
        None => version,
    };
    if matches {
        shown
    } else {
        shown + theme.mismatch_symbol@
    }
}

/// The segment for the ruby that `gem_home` holds, in a project that asks
/// for `requested`.
pub open spec fn ruby_segments(
    theme: &Theme,
    gems: Seq<char>,
    gem_home: Seq<char>,
    requested: Option<Seq<char>>,
) -> Result<Seq<SegmentView>, SegmentError> {
    match gemset_named(all_replaced(gem_home, gems, Seq::empty())) {
        None => Err(SegmentError::BadRubyVersion),
        Some(current) => match shown_version(current.version) {
            None => Err(SegmentError::BadRubyVersion),
            Some(version) => match ruby_matches(current, requested) {
                Err(e) => Err(e),
                Ok(matches) => Ok(
                    seq![
                        SegmentView {
                            fg: theme.fg,
                            bg: theme.bg,
                            separator: Separator::Thick,
                            text: ruby_text(theme, current.gemset, version, matches),
                            source: "Rvm"@,
                        },
                    ],
                ),
            },
        },
    }
}

/// The segments of the provider, from what the environment and the project
/// hold.
pub open spec fn rvm_segments(args: Args, state: &ApplicationState) -> Result<
    Seq<SegmentView>,
    SegmentError,
> {
    if state.env.lookup("rvm_version"@) is None {
        Err(SegmentError::NoRvm)
    } else if state.env.lookup("PWD"@) is None {
        Err(SegmentError::NoWorkingDirectory)
    } else if state.env.lookup("HOME"@) is None {
        Err(SegmentError::NoHome)
    } else {
        match state.env.lookup("rvm_path"@) {
            None => Err(SegmentError::NoRvm),
            Some(rvm_path) => if !args.force_show && !state.host.project.gemfile_found {
                Ok(Seq::empty())
            } else {
                match requested_version(state.host.project.ruby_version) {
                    Err(e) => Err(e),
                    Ok(requested) => match state.env.lookup("GEM_HOME"@) {
                        None => Err(SegmentError::NoRvm),
                        Some(gem_home) => ruby_segments(
                            &state.theme.rvm,
                            gems_path(rvm_path),
                            gem_home,
                            requested,
                        ),
                    },
                }
            },
        }
    }
}

/// Whether the current ruby is the one asked for, given whether its version
/// meets the requirement `met`: it is where the interpreters are the same
/// and the requirement is met.
pub fn interpreter_matches(wanted: &Gemset, current: &Gemset, met: bool) -> (b: bool)
    ensures
        b == (wanted@.interp == current@.interp && met),
{
    str_eq(wanted.interp.as_str(), current.interp.as_str()) && met
}

/// The text of the segment for the version `version`, as it is written
/// out, of a ruby with the gemset `gemset`; `matches` says whether the ruby
/// is the one asked for.
pub fn ruby_text_for(theme: &Theme, gemset: Option<&String>, version: &str, matches: bool) -> (s:
    String)
    ensures
        s@ == ruby_text(
            theme,
            match gemset {
                Some(g) => Some(g@),
                None => None,
            },
            version@,
            matches,
        ),
{
    let mut text = match gemset {
        Some(g) => {
            let mut t = concat2(g.as_str(), " (v");
            t.append(version);
            t.append(")");
            t
        },
        None => String::from_str(version),
    };
    if !matches {
        text.append(theme.mismatch_symbol.as_str());
    }
    text
}

/// The segment that shows `text`.
pub fn ruby_segment(theme: &Theme, text: String) -> (segment: Segment)
    ensures
        segment@ == (SegmentView {
            fg: theme.fg,
            bg: theme.bg,
            separator: Separator::Thick,
            text: text@,
            source: "Rvm"@,
        }),
{
    Segment { fg: theme.fg, bg: theme.bg, separator: Separator::Thick, text, source: "Rvm" }
}

fn matches_requested(current: &Gemset, requested: &Option<String>) -> (r: Result<bool, SegmentError>)
    ensures
        r == ruby_matches(
            current@,
            match requested {
                Some(t) => Some(t@),
                None => None,
            },
        ),
{
    match requested {
        None => Ok(true),
        Some(text) => match Gemset::from_str(text.as_str()) {
            None => Err(SegmentError::BadRequestedRubyVersion),
            Some(wanted) => match admits(wanted.version.as_str(), current.version.as_str()) {
                Err(_) => Err(SegmentError::BadRequestedRubyVersion),
                Ok(met) => Ok(interpreter_matches(&wanted, current, met)),
            },
        },
    }
}

/// The segment for the ruby that `gem_home` holds.
pub fn ruby_to_segments(
    theme: &Theme,
    gems: &str,
    gem_home: &str,
    requested: &Option<String>,
) -> (r: Result<Vec<Segment>, SegmentError>)
    ensures
        crate::segment::outcome(r) == ruby_segments(
            theme,
            gems@,
            gem_home@,
            match requested {
                Some(t) => Some(t@),
                None => None,
            },
        ),
{
    let name = replace_all(gem_home, gems, "");
    proof {
        reveal_strlit("");
        assert(""@ =~= Seq::<char>::empty());
    }
    let current = match Gemset::from_str(name.as_str()) {
        Some(current) => current,
        None => {
            return Err(SegmentError::BadRubyVersion);
        },
    };
    let version = match show_version(current.version.as_str()) {
        Ok(version) => version,
        Err(_) => {
            return Err(SegmentError::BadRubyVersion);
        },
    };
    let matches = match matches_requested(&current, requested) {
        Ok(matches) => matches,
        Err(e) => {
            return Err(e);
        },
    };
    let gemset: Option<&String> = match &current.gemset {
        Some(g) => Some(g),
        None => None,
    };
    let text = ruby_text_for(theme, gemset, version.as_str(), matches);
    let segments = vec![ruby_segment(theme, text)];
    assert(views(segments@) =~= ruby_segments(
        theme,
        gems@,
        gem_home@,
        match requested {
            Some(t) => Some(t@),
            None => None,
        },
    )->Ok_0);
    Ok(segments)
}

impl ToSegment for Rvm {
    type Args = Args;

    type Theme = Theme;

    open spec fn decoded(blob: ArgsBlob) -> Result<Args, DecodeError> {
        match blob {
            ArgsBlob::Object(fields) => args_of(fields@),
            _ => Err(DecodeError::NotAnObject),
        }
    }

    open spec fn segments(args: Option<Args>, state: &ApplicationState) -> Result<
        Seq<SegmentView>,
        SegmentError,
    > {
        rvm_segments(
            match args {
                Some(a) => a,
                None => Args { force_show: false },
            },
            state,
        )
    }

    fn decode(blob: &ArgsBlob) -> (r: Result<Args, DecodeError>) {
        match blob {
            ArgsBlob::Object(fields) => {
                let names: Vec<&'static str> = vec!["force_show"];
                let kinds: Vec<FieldKind> = vec![FieldKind::Flag];
                assert(names@ =~= field_names());
                assert(kinds@ =~= field_kinds());
                match read_fields(fields, &names, &kinds) {
                    Err(e) => Err(e),
                    Ok(slots) => Ok(Args { force_show: flag_of(fields, slots[0], false) }),
                }
            },
            _ => Err(DecodeError::NotAnObject),
        }
    }

    fn to_segment(args: Option<Args>, state: &ApplicationState) -> (r: Result<
        Vec<Segment>,
        SegmentError,
    >) {
        let args = match args {
            Some(a) => a,
            None => Args::default(),
        };
        if state.env.get("rvm_version").is_none() {
            return Err(SegmentError::NoRvm);
        }
        if state.env.get("PWD").is_none() {
            return Err(SegmentError::NoWorkingDirectory);
        }
        if state.env.get("HOME").is_none() {
            return Err(SegmentError::NoHome);
        }
        let rvm_path = match state.env.get("rvm_path") {
            Some(p) => p,
            None => {
                return Err(SegmentError::NoRvm);
            },
        };
        if !args.force_show && !state.host.project.gemfile_found {
            assert(views(Seq::<Segment>::empty()) =~= Seq::<SegmentView>::empty());
            return Ok(Vec::new());
        }
        let requested: Option<String> = match &state.host.project.ruby_version {
            RubyVersionFile::Missing => None,
            RubyVersionFile::Unreadable => {
                return Err(SegmentError::BadRequestedRubyVersion);
            },
            RubyVersionFile::Contents(c) => Some(trim_trailing(c.as_str(), '\n')),
        };
        let gem_home = match state.env.get("GEM_HOME") {
            Some(g) => g,
            None => {
                return Err(SegmentError::NoRvm);
            },
        };
        let gems = gems_directory(rvm_path.as_str());
        ruby_to_segments(&state.theme.rvm, gems.as_str(), gem_home.as_str(), &requested)
    }
}

} // verus!
