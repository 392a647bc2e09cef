use promptr::args::{ArgField, ArgValue, ArgsBlob, DecodeError};
use promptr::env::Env;
use promptr::render::render;
use promptr::segment::SegmentError;
use promptr::{
    dispatch, evaluate, load_segments, ApplicationState, Host, PromptrConfig, SegmentConfig, Theme,
    Warning, SCHEMA_VERSION,
};

fn shell_env() -> Env {
    let mut env = Env::new();
    env.insert(String::from("USER"), String::from("newbie"));
    env.insert(String::from("PWD"), String::from("/home/newbie/src"));
    env.insert(String::from("HOME"), String::from("/home/newbie"));
    env.insert(String::from("code"), String::from("1"));
    env.insert(String::from("hostname"), String::from("box.example.org"));
    env
}

fn entry(name: &str) -> SegmentConfig {
    SegmentConfig { name: String::from(name), args: None }
}

fn texts(config: &PromptrConfig) -> (Vec<String>, Vec<Warning>) {
    let loaded = load_segments(config, shell_env(), Host::unknown());
    (loaded.segments.iter().map(|s| s.text.clone()).collect(), loaded.warnings)
}

#[test]
fn default_config() {
    let config = PromptrConfig::default();
    assert_eq!(12, config.promptr_config);
    assert_eq!(SCHEMA_VERSION, config.promptr_config);
    assert_eq!(vec![entry("username"), entry("paths"), entry("command_status")], config.segments);
    assert_eq!(Theme::default(), config.theme);
}

#[test]
fn default_config_renders() {
    let (shown, warnings) = texts(&PromptrConfig::default());
    assert_eq!(vec!["newbie", "~", "src", "\\$"], shown);
    assert_eq!(Vec::<Warning>::new(), warnings);
}

#[test]
fn unknown_segment_is_skipped_with_a_warning() {
    let mut config = PromptrConfig::default();
    config.segments.insert(1, entry("no_such_segment"));
    let (shown, warnings) = texts(&config);
    assert_eq!(vec!["newbie", "~", "src", "\\$"], shown);
    assert_eq!(vec![Warning { entry: 1, error: SegmentError::UnknownSegment }], warnings);
}

#[test]
fn segment_that_fails_is_skipped_with_a_warning() {
    let mut config = PromptrConfig::default();
    config.segments = vec![entry("screen"), entry("rvm"), entry("battery"), entry("git"), entry("hostname"), entry("path")];
    let (shown, warnings) = texts(&config);
    assert_eq!(vec!["box"], shown);
    assert_eq!(
        vec![
            Warning { entry: 1, error: SegmentError::NoRvm },
            Warning { entry: 2, error: SegmentError::NoBattery },
            Warning { entry: 5, error: SegmentError::UnknownSegment },
        ],
        warnings
    );
}

#[test]
fn bad_arguments_drop_the_segment() {
    let mut config = PromptrConfig::default();
    config.segments[1].args = Some(ArgsBlob::Object(vec![ArgField {
        name: String::from("show_root"),
        value: ArgValue::Text(String::from("yes")),
    }]));
    config.segments[2].args = Some(ArgsBlob::Object(vec![ArgField {
        name: String::from("anything"),
        value: ArgValue::Null,
    }]));
    let (shown, warnings) = texts(&config);
    assert_eq!(vec!["newbie"], shown);
    assert_eq!(
        vec![
            Warning { entry: 1, error: SegmentError::BadArgs(DecodeError::InvalidValue(0)) },
            Warning { entry: 2, error: SegmentError::BadArgs(DecodeError::UnknownField(0)) },
        ],
        warnings
    );
}

#[test]
fn segments_keep_the_order_of_the_configuration() {
    let mut config = PromptrConfig::default();
    config.segments = vec![entry("command_status"), entry("paths"), entry("username"), entry("paths")];
    let (shown, _) = texts(&config);
    assert_eq!(vec!["\\$", "~", "src", "newbie", "~", "src"], shown);
}

#[test]
fn empty_configuration_gives_an_empty_prompt() {
    let theme = Theme::default();
    let state = ApplicationState { theme: &theme, env: shell_env(), host: Host::unknown() };
    let loaded = evaluate(&vec![], &state);
    assert!(loaded.segments.is_empty());
    assert!(loaded.warnings.is_empty());
    assert_eq!("\\[\\e[0m\\] ", render(&loaded.segments));
}

#[test]
fn dispatch_knows_every_provider() {
    let theme = Theme::default();
    let state = ApplicationState { theme: &theme, env: shell_env(), host: Host::unknown() };
    for name in ["command_status", "hostname", "paths", "screen", "username", "git"] {
        assert!(dispatch(&entry(name), &state).is_ok(), "{}", name);
    }
    assert_eq!(Err(SegmentError::NoRvm), dispatch(&entry("rvm"), &state));
    assert_eq!(Err(SegmentError::NoBattery), dispatch(&entry("battery"), &state));
    for name in ["", "Username", "username ", "path", "vcs"] {
        assert_eq!(Err(SegmentError::UnknownSegment), dispatch(&entry(name), &state), "{:?}", name);
    }
}

#[test]
fn config_of_another_version_is_replaced_by_the_default() {
    let mut old = PromptrConfig::default();
    old.promptr_config = 11;
    old.segments = vec![entry("git")];
    assert_eq!(PromptrConfig::default(), PromptrConfig::or_default(Some(old)));
    assert_eq!(PromptrConfig::default(), PromptrConfig::or_default(None));
    let mut current = PromptrConfig::default();
    current.segments = vec![entry("git")];
    assert_eq!(current.clone(), PromptrConfig::or_default(Some(current)));
}

#[test]
fn null_arguments_are_not_written() {
    assert!(SegmentConfig::serialize_optional_json(&None));
    assert!(SegmentConfig::serialize_optional_json(&Some(ArgsBlob::Null)));
    assert!(!SegmentConfig::serialize_optional_json(&Some(ArgsBlob::Other)));
    assert!(!SegmentConfig::serialize_optional_json(&Some(ArgsBlob::Object(vec![]))));
}

#[test]
fn whole_prompt() {
    let loaded = load_segments(&PromptrConfig::default(), shell_env(), Host::unknown());
    let thin = "\u{e0b1}";
    let thick = "\u{e0b0}";
    assert_eq!(
        format!(
            "{user}{thick}{home}{thick}{src}{thick}{status}{thick}\\[\\e[0m\\] ",
            user = "\\[\\e[38;5;250m\\]\\[\\e[48;5;240m\\] newbie \\[\\e[48;5;31m\\]\\[\\e[38;5;240m\\]",
            home = "\\[\\e[38;5;15m\\]\\[\\e[48;5;31m\\] ~ \\[\\e[48;5;237m\\]\\[\\e[38;5;31m\\]",
            src = "\\[\\e[38;5;254m\\]\\[\\e[48;5;237m\\] src \\[\\e[48;5;161m\\]\\[\\e[38;5;237m\\]",
            status = "\\[\\e[38;5;15m\\]\\[\\e[48;5;161m\\] \\$ \\[\\e[0m\\]\\[\\e[38;5;161m\\]",
            thick = thick,
        ),
        render(&loaded.segments)
    );
    assert!(!render(&loaded.segments).contains(thin));
}

#[test]
fn needs_follow_the_configured_segments() {
    let none = promptr::Needs { jail: false, battery: false, repository: false, project: false };
    assert_eq!(none, promptr::Needs::of(&vec![]));
    assert_eq!(none, promptr::Needs::of(&PromptrConfig::default().segments));
    assert_eq!(
        promptr::Needs { repository: true, ..none },
        promptr::Needs::of(&vec![entry("username"), entry("git")])
    );
    assert_eq!(
        promptr::Needs { jail: true, battery: true, repository: true, project: true },
        promptr::Needs::of(&vec![entry("rvm"), entry("git"), entry("battery"), entry("hostname"), entry("git")])
    );
    assert!(promptr::is_configured(&vec![entry("a"), entry("b")], "b"));
    assert!(!promptr::is_configured(&vec![entry("a"), entry("b")], "c"));
}

#[test]
fn config_of_another_version_is_not_evaluated() {
    let mut config = PromptrConfig::default();
    config.promptr_config = 13;
    config.segments = vec![entry("hostname"), entry("no_such_segment")];
    let (shown, warnings) = texts(&config);
    assert_eq!(vec!["newbie", "~", "src", "\\$"], shown);
    assert_eq!(Vec::<Warning>::new(), warnings);
}

#[test]
fn default_theme_has_a_color_for_thin_separators() {
    assert_eq!(promptr::ansi::Color::Numbered(244), Theme::default().thin_separator_fg);
    let mut theme = Theme::default();
    theme.thin_separator_fg = promptr::ansi::Color::Numbered(1);
    let mut config = PromptrConfig::default();
    config.theme = theme;
    let loaded = load_segments(&config, shell_env(), Host::unknown());
    let plain = load_segments(&PromptrConfig::default(), shell_env(), Host::unknown());
    assert_eq!(render(&plain.segments), render(&loaded.segments));
}
