//! `promptr` renders a command prompt as a sequence of colored segments.
//!
//! The library holds the segment pipeline: the color model, the segment
//! providers, the dispatcher that evaluates a configuration against a snapshot
//! of the environment, and the renderer that turns the segments into one
//! escaped string. Every function is verified against its contract.

use crate::args::ArgsBlob;
use crate::segment::{
    generic_segments, lemma_views_add, views, Segment, SegmentError, SegmentView, ToSegment,
};
use crate::text::str_eq;
use vstd::prelude::*;

pub mod ansi;
pub mod args;
pub mod env;
pub mod pattern;
pub mod render;
pub mod segment;
pub mod shell;
pub mod text;
pub mod version;

verus! {

/// The version of the configuration format.
pub const SCHEMA_VERSION: u32 = 12;

/// Separator shown between segments.
///
/// Typically the thick separator is used unless the background of two
/// adjacent segments is the same.
#[derive(Copy, Clone, Debug, PartialEq, Eq, Structural)]
pub enum Separator {
    Thin,
    Thick,
}

/// One configured segment: the name of a provider and its arguments. Every
/// provider fills in the arguments that are left out.
#[derive(Clone, Debug, PartialEq, Eq)]
pub struct SegmentConfig {
    pub name: String,
    pub args: Option<ArgsBlob>,
}

/// The contents of a configuration file.
#[derive(Clone, Debug, PartialEq, Eq)]
pub struct PromptrConfig {
    /// The version of the format; it has to be [`SCHEMA_VERSION`].
    pub promptr_config: u32,
    /// The segments to render, from left to right.
    pub segments: Vec<SegmentConfig>,
    /// The colors and symbols of the providers.
    pub theme: Theme,
}

/// Contains colors for the active theme.
#[derive(Clone, Debug, PartialEq, Eq)]
pub struct Theme {
    /// Theme for the [`battery_status`](`segment::battery_status`) segment.
    pub battery: segment::battery_status::Theme,
    /// Theme for the [`command_status`](`segment::command_status`) segment.
    pub command_status: segment::command_status::Theme,
    /// Theme for the [`hostname`](`segment::hostname`) segment.
    pub hostname: segment::hostname::Theme,
    /// Theme for the version control segments, including [`git`](`segment::git`).
    pub vcs: segment::vcs::Theme,
    /// Theme for the [`username`](`segment::username`) segment.
    pub username: segment::username::Theme,
    /// Theme for the [`path`](`segment::path`) segment.
    pub path: segment::path::Theme,
    /// Theme for the [`paths`](`segment::paths`) segment.
    pub paths: segment::paths::Theme,
    /// Theme for the [`rvm`](`segment::rvm`) segment.
    pub rvm: segment::rvm::Theme,
    /// Theme for the [`screen`](`segment::screen`) segment.
    pub screen: segment::screen::Theme,
    /// A foreground color for thin separators. A configuration may set it;
    /// the renderer draws every separator in the background color of the
    /// segment that it trails and does not read it.
    pub thin_separator_fg: ansi::Color,
}

/// Global application state: the theme and what was captured from the shell
/// and the machine. It does not change while a prompt is computed.
#[derive(Debug)]
pub struct ApplicationState<'a> {
    pub theme: &'a Theme,
    pub env: env::Env,
    pub host: Host,
}

/// What the prompt learns from the machine, beside the environment.
#[derive(Clone, Debug)]
pub struct Host {
    /// The operating system.
    pub os: segment::hostname::Os,
    /// Whether the prompt runs inside a jail.
    pub jailed: bool,
    /// What was read from the battery, if one could be read.
    pub battery: Option<segment::battery_status::Reading>,
    /// What the working directory and its ancestors hold for RVM.
    pub project: segment::rvm::Project,
    /// The repository that holds the working directory, if there is one.
    pub repository: Option<segment::git::Snapshot>,
}

/// A configured segment that was left out of the prompt, and why.
#[derive(Copy, Clone, Debug, PartialEq, Eq, Structural)]
pub struct Warning {
    /// The position of the segment in the configuration.
    pub entry: usize,
    pub error: SegmentError,
}

/// The segments of a prompt, and the warnings for what was left out.
#[derive(Clone, Debug, PartialEq, Eq)]
pub struct Loaded {
    pub segments: Vec<Segment>,
    pub warnings: Vec<Warning>,
}

/// What has to be read from the machine before a prompt is computed.
#[derive(Copy, Clone, Debug, PartialEq, Eq, Structural)]
pub struct Needs {
    /// Whether the prompt runs inside a jail.
    pub jail: bool,
    /// The battery.
    pub battery: bool,
    /// The repository that holds the working directory.
    pub repository: bool,
    /// The project files in the working directory and its ancestors.
    pub project: bool,
}

/// Whether one of the configured segments has the name `name`.
pub open spec fn configures(entries: Seq<SegmentConfig>, name: Seq<char>) -> bool {
    exists|i: int| 0 <= i < entries.len() && (#[trigger] entries[i]).name@ == name
}

/// Whether one of the configured segments has the name `name`.
pub fn is_configured(entries: &Vec<SegmentConfig>, name: &str) -> (found: bool)
    ensures
        found == configures(entries@, name@),
{
    let mut i: usize = 0;
    while i < entries.len()
        invariant
            i <= entries.len(),
            forall|j: int| 0 <= j < i ==> (#[trigger] entries@[j]).name@ != name@,
        decreases entries.len() - i,
    {
        if str_eq(entries[i].name.as_str(), name) {
            return true;
        }
        i += 1;
    }
    false
}

impl Needs {
    /// What the configured segments read from the machine: the hostname
    /// segment the jail, the battery segment the battery, the git segment
    /// the repository and the rvm segment the project files.
    pub fn of(entries: &Vec<SegmentConfig>) -> (needs: Needs)
        ensures
            needs.jail == configures(entries@, "hostname"@),
            needs.battery == configures(entries@, "battery"@),
            needs.repository == configures(entries@, "git"@),
            needs.project == configures(entries@, "rvm"@),
    {
        Needs {
            jail: is_configured(entries, "hostname"),
            battery: is_configured(entries, "battery"),
            repository: is_configured(entries, "git"),
            project: is_configured(entries, "rvm"),
        }
    }
}

impl Host {
    /// A machine of which nothing is known: no battery, no repository, no
    /// project.
    pub fn unknown() -> (host: Host)
        ensures
            host.os == segment::hostname::Os::Other,
            !host.jailed,
            host.battery is None,
            host.repository is None,
            !host.project.gemfile_found,
            host.project.ruby_version is Missing,
    {
        Host {
            os: segment::hostname::Os::Other,
            jailed: false,
            battery: None,
            project: segment::rvm::Project {
                gemfile_found: false,
                ruby_version: segment::rvm::RubyVersionFile::Missing,
            },
            repository: None,
        }
    }
}

impl Theme {
    /// Whether the theme is the one that a configuration starts from.
    pub open spec fn is_default(&self) -> bool {
        &&& self.battery.is_default()
        &&& self.command_status.is_default()
        &&& self.hostname.is_default()
        &&& self.vcs.is_default()
        &&& self.username.is_default()
        &&& self.path.is_default()
        &&& self.paths.is_default()
        &&& self.rvm.is_default()
        &&& self.screen.is_default()
        &&& self.thin_separator_fg == ansi::Color::Numbered(244)
    }
}

impl Default for Theme {
    fn default() -> (theme: Self)
        ensures
            theme.is_default(),
    {
        Theme {
            battery: segment::battery_status::Theme::default(),
            command_status: segment::command_status::Theme::default(),
            hostname: segment::hostname::Theme::default(),
            vcs: segment::vcs::Theme::default(),
            username: segment::username::Theme::default(),
            path: segment::path::Theme::default(),
            paths: segment::paths::Theme::default(),
            rvm: segment::rvm::Theme::default(),
            screen: segment::screen::Theme::default(),
            thin_separator_fg: ansi::Color::Numbered(244),
        }
    }
}

impl SegmentConfig {
    /// Whether the arguments are left out when the configuration is written:
    /// there are none, or they are `null`.
    pub fn serialize_optional_json(value: &Option<ArgsBlob>) -> (skip: bool)
        ensures
            skip == (*value is None || *value == Some(ArgsBlob::Null)),
    {
        match value {
            Some(value) => match value {
                ArgsBlob::Null => true,
                _ => false,
            },
            None => true,
        }
    }
}

impl PromptrConfig {
    /// Whether the configuration is the one that is used where none is
    /// given: the user, the working directory and the command status, in the
    /// default theme.
    pub open spec fn is_default(&self) -> bool {
        &&& self.promptr_config == SCHEMA_VERSION
        &&& self.segments@.len() == 3
        &&& self.segments@[0].name@ == "username"@
        &&& self.segments@[0].args is None
        &&& self.segments@[1].name@ == "paths"@
        &&& self.segments@[1].args is None
        &&& self.segments@[2].name@ == "command_status"@
        &&& self.segments@[2].args is None
        &&& self.theme.is_default()
    }

    /// The configuration to work with, given what was loaded: the loaded
    /// one where there is one of the right version, else the default.
    pub fn or_default(loaded: Option<PromptrConfig>) -> (config: PromptrConfig)
        ensures
            match loaded {
                Some(c) => if c.promptr_config == SCHEMA_VERSION {
                    config == c
                } else {
                    config.is_default()
                },
                None => config.is_default(),
            },
            config.promptr_config == SCHEMA_VERSION,
    {
        match loaded {
            Some(c) => if c.promptr_config == SCHEMA_VERSION {
                c
            } else {
                PromptrConfig::default()
            },
            None => PromptrConfig::default(),
        }
    }
}

impl Default for PromptrConfig {
    /// Default segments to render.
    fn default() -> (config: Self)
        ensures
            config.is_default(),
    {
        PromptrConfig {
            promptr_config: 12,
            segments: vec![
                SegmentConfig { name: String::from_str("username"), args: None },
                SegmentConfig { name: String::from_str("paths"), args: None },
                SegmentConfig { name: String::from_str("command_status"), args: None },
            ],
            theme: Theme::default(),
        }
    }
}

// ---------------------------------------------------------------------------
// The dispatcher
// ---------------------------------------------------------------------------

/// Whether a provider has the name `name`.
pub open spec fn is_known(name: Seq<char>) -> bool {
    ||| name == "command_status"@
    ||| name == "hostname"@
    ||| name == "paths"@
    ||| name == "rvm"@
    ||| name == "screen"@
    ||| name == "username"@
    ||| name == "battery"@
    ||| name == "git"@
}

/// The arguments of a configured segment, by reference.
pub open spec fn args_ref(entry: &SegmentConfig) -> Option<&ArgsBlob> {
    match &entry.args {
        Some(blob) => Some(blob),
        None => None,
    }
}

/// What one configured segment gives: the segments of the provider that it
/// names, for its arguments; an error where no provider has the name, where
/// the arguments are refused, and where the provider fails.
pub open spec fn entry_segments(entry: &SegmentConfig, state: &ApplicationState) -> Result<
    Seq<SegmentView>,
    SegmentError,
> {
    if entry.name@ == "command_status"@ {
        generic_segments::<segment::command_status::CommandStatus>(args_ref(entry), state)
    } else if entry.name@ == "hostname"@ {
        generic_segments::<segment::hostname::Hostname>(args_ref(entry), state)
    } else if entry.name@ == "paths"@ {
        generic_segments::<segment::paths::Paths>(args_ref(entry), state)
    } else if entry.name@ == "rvm"@ {
        generic_segments::<segment::rvm::Rvm>(args_ref(entry), state)
    } else if entry.name@ == "screen"@ {
        generic_segments::<segment::screen::Screen>(args_ref(entry), state)
    } else if entry.name@ == "username"@ {
        generic_segments::<segment::username::Username>(args_ref(entry), state)
    } else if entry.name@ == "battery"@ {
        generic_segments::<segment::battery_status::BatteryStatus>(args_ref(entry), state)
    } else if entry.name@ == "git"@ {
        generic_segments::<segment::git::Git>(args_ref(entry), state)
    } else {
        Err(SegmentError::UnknownSegment)
    }
}

/// The segments that one configured segment adds to the prompt: those that
/// its provider gives, or none where there is an error.
pub open spec fn entry_part(entry: &SegmentConfig, state: &ApplicationState) -> Seq<SegmentView> {
    match entry_segments(entry, state) {
        Ok(s) => s,
        Err(_) => Seq::empty(),
    }
}

/// The segments of the first `upto` configured segments, in the order of
/// the configuration.
pub open spec fn loaded_segments(
    entries: Seq<SegmentConfig>,
    state: &ApplicationState,
    upto: int,
) -> Seq<SegmentView>
    decreases upto,
{
    if upto <= 0 {
        Seq::empty()
    } else {
        loaded_segments(entries, state, upto - 1) + entry_part(&entries[upto - 1], state)
    }
}

/// The warnings of the first `upto` configured segments: one for each that
/// gives an error, in the order of the configuration.
pub open spec fn loaded_warnings(
    entries: Seq<SegmentConfig>,
    state: &ApplicationState,
    upto: int,
) -> Seq<Warning>
    decreases upto,
{
    if upto <= 0 {
        Seq::empty()
    } else {
        match entry_segments(&entries[upto - 1], state) {
            Ok(_) => loaded_warnings(entries, state, upto - 1),
            Err(e) => loaded_warnings(entries, state, upto - 1).push(
                Warning { entry: (upto - 1) as usize, error: e },
            ),
        }
    }
}

/// The segments of a configuration are those of its first part followed by
/// those of the rest.
pub proof fn lemma_loaded_segments_add(
    a: Seq<SegmentConfig>,
    b: Seq<SegmentConfig>,
    state: &ApplicationState,
    upto: int,
)
    requires
        0 <= upto <= b.len(),
    ensures
        loaded_segments(a + b, state, a.len() + upto) == loaded_segments(a, state, a.len() as int)
            + loaded_segments(b, state, upto),
    decreases upto,
{
    if upto == 0 {
        lemma_loaded_segments_prefix(a, a + b, state, a.len() as int);
        assert(loaded_segments(a, state, a.len() as int) + Seq::<SegmentView>::empty()
            =~= loaded_segments(a, state, a.len() as int));
    } else {
        lemma_loaded_segments_add(a, b, state, upto - 1);
        assert((a + b)[a.len() + upto - 1] == b[upto - 1]);
        assert(loaded_segments(a + b, state, a.len() + upto) =~= loaded_segments(
            a,
            state,
            a.len() as int,
        ) + loaded_segments(b, state, upto));
    }
}

/// The segments of the first `upto` configured segments depend on these
/// alone.
pub proof fn lemma_loaded_segments_prefix(
    a: Seq<SegmentConfig>,
    b: Seq<SegmentConfig>,
    state: &ApplicationState,
    upto: int,
)
    requires
        0 <= upto <= a.len(),
        upto <= b.len(),
        forall|i: int| 0 <= i < upto ==> a[i] == b[i],
    ensures
        loaded_segments(a, state, upto) == loaded_segments(b, state, upto),
    decreases upto,
{
    if upto > 0 {
        lemma_loaded_segments_prefix(a, b, state, upto - 1);
    }
}

/// A warning that is due after the first `upto` configured segments is
/// still due at the end.
pub proof fn lemma_warning_stays(
    entries: Seq<SegmentConfig>,
    state: &ApplicationState,
    upto: int,
    end: int,
    warning: Warning,
)
    requires
        0 <= upto <= end,
        loaded_warnings(entries, state, upto).contains(warning),
    ensures
        loaded_warnings(entries, state, end).contains(warning),
    decreases end - upto,
{
    if upto < end {
        lemma_warning_stays(entries, state, upto, end - 1, warning);
        let before = loaded_warnings(entries, state, end - 1);
        let at = choose|i: int| 0 <= i < before.len() && before[i] == warning;
        match entry_segments(&entries[end - 1], state) {
            Ok(_) => {},
            Err(e) => {
                assert(before.push(Warning { entry: (end - 1) as usize, error: e })[at] == warning);
            },
        }
    }
}

/// A configured segment whose name no provider has is skipped: the prompt
/// holds the segments of all other configured segments, as if the unknown
/// one were not there, and a warning names its position.
pub proof fn lemma_unknown_segment_skipped(
    before: Seq<SegmentConfig>,
    unknown: SegmentConfig,
    after: Seq<SegmentConfig>,
    state: &ApplicationState,
)
    requires
        !is_known(unknown.name@),
        before.len() + 1 + after.len() <= usize::MAX,
    ensures
        entry_segments(&unknown, state) == Err::<Seq<SegmentView>, SegmentError>(
            SegmentError::UnknownSegment,
        ),
        loaded_segments(
            before + seq![unknown] + after,
            state,
            (before + seq![unknown] + after).len() as int,
        ) == loaded_segments(before + after, state, (before + after).len() as int),
        loaded_warnings(
            before + seq![unknown] + after,
            state,
            (before + seq![unknown] + after).len() as int,
        ).contains(Warning { entry: before.len() as usize, error: SegmentError::UnknownSegment }),
{
    let all = before + seq![unknown] + after;
    let head = before + seq![unknown];
    lemma_loaded_segments_add(head, after, state, after.len() as int);
    lemma_loaded_segments_add(before, seq![unknown], state, 1);
    lemma_loaded_segments_add(before, after, state, after.len() as int);
    assert(loaded_segments(seq![unknown], state, 0) =~= Seq::<SegmentView>::empty());
    assert(loaded_segments(seq![unknown], state, 1) =~= Seq::<SegmentView>::empty());
    assert(loaded_segments(head, state, before.len() as int + 1) =~= loaded_segments(
        before,
        state,
        before.len() as int,
    ));
    let warning = Warning { entry: before.len() as usize, error: SegmentError::UnknownSegment };
    assert(all[before.len() as int] == unknown);
    let got = loaded_warnings(all, state, before.len() as int + 1);
    assert(got == loaded_warnings(all, state, before.len() as int).push(warning));
    assert(got[got.len() - 1] == warning);
    lemma_warning_stays(all, state, before.len() as int + 1, all.len() as int, warning);
}

/// Evaluates one configured segment.
pub fn dispatch(entry: &SegmentConfig, state: &ApplicationState) -> (r: Result<
    Vec<Segment>,
    SegmentError,
>)
    ensures
        segment::outcome(r) == entry_segments(entry, state),
{
    let name = entry.name.as_str();
    let args: Option<&ArgsBlob> = match &entry.args {
        Some(blob) => Some(blob),
        None => None,
    };
    if str_eq(name, "command_status") {
        segment::command_status::CommandStatus::to_segment_generic(args, state)
    } else if str_eq(name, "hostname") {
        segment::hostname::Hostname::to_segment_generic(args, state)
    } else if str_eq(name, "paths") {
        segment::paths::Paths::to_segment_generic(args, state)
    } else if str_eq(name, "rvm") {
        segment::rvm::Rvm::to_segment_generic(args, state)
    } else if str_eq(name, "screen") {
        segment::screen::Screen::to_segment_generic(args, state)
    } else if str_eq(name, "username") {
        segment::username::Username::to_segment_generic(args, state)
    } else if str_eq(name, "battery") {
        segment::battery_status::BatteryStatus::to_segment_generic(args, state)
    } else if str_eq(name, "git") {
        segment::git::Git::to_segment_generic(args, state)
    } else {
        Err(SegmentError::UnknownSegment)
    }
}

/// Evaluates the configured segments in order. A segment that gives an
/// error is left out with a warning; the others are not affected.
pub fn evaluate(entries: &Vec<SegmentConfig>, state: &ApplicationState) -> (loaded: Loaded)
    ensures
        views(loaded.segments@) == loaded_segments(entries@, state, entries@.len() as int),
        loaded.warnings@ == loaded_warnings(entries@, state, entries@.len() as int),
{
    let mut segments: Vec<Segment> = Vec::new();
    let mut warnings: Vec<Warning> = Vec::new();
    assert(views(segments@) =~= Seq::<SegmentView>::empty());
    let mut i: usize = 0;
    while i < entries.len()
        invariant
            i <= entries.len(),
            views(segments@) == loaded_segments(entries@, state, i as int),
            warnings@ == loaded_warnings(entries@, state, i as int),
        decreases entries.len() - i,
    {
        match dispatch(&entries[i], state) {
            Ok(mut found) => {
                proof {
                    lemma_views_add(segments@, found@);
                }
                segments.append(&mut found);
            },
            Err(e) => {
                warnings.push(Warning { entry: i, error: e });
                assert(views(segments@) + Seq::<SegmentView>::empty() =~= views(segments@));
            },
        }
        i += 1;
    }
    Loaded { segments, warnings }
}

/// What evaluating the configuration `config` gives for the environment
/// `env` on the machine `host`.
pub open spec fn loads(config: &PromptrConfig, env: env::Env, host: Host, loaded: Loaded) -> bool {
    &&& views(loaded.segments@) == loaded_segments(
        config.segments@,
        &(ApplicationState { theme: &config.theme, env, host }),
        config.segments@.len() as int,
    )
    &&& loaded.warnings@ == loaded_warnings(
        config.segments@,
        &(ApplicationState { theme: &config.theme, env, host }),
        config.segments@.len() as int,
    )
}

/// Runs through the configuration and computes each segment.
///
/// The providers see the theme of the configuration, the environment `env`
/// and the machine `host`. A configuration of another version than
/// [`SCHEMA_VERSION`] is rejected as a whole: the default configuration is
/// evaluated in its place.
pub fn load_segments(config: &PromptrConfig, env: env::Env, host: Host) -> (loaded: Loaded)
    ensures
        config.promptr_config == SCHEMA_VERSION ==> loads(config, env, host, loaded),
        config.promptr_config != SCHEMA_VERSION ==> exists|fallback: PromptrConfig|
            fallback.is_default() && #[trigger] loads(&fallback, env, host, loaded),
{
    if config.promptr_config == SCHEMA_VERSION {
        let state = ApplicationState { theme: &config.theme, env, host };
        evaluate(&config.segments, &state)
    } else {
        let fallback = PromptrConfig::default();
        let state = ApplicationState { theme: &fallback.theme, env, host };
        let loaded = evaluate(&fallback.segments, &state);
        assert(fallback.is_default() && loads(&fallback, env, host, loaded));
        loaded
    }
}

} // verus!
