use promptr::env::Env;
use promptr::segment::rvm::{
    gems_directory, interpreter_matches, paths_equal, ruby_segment, ruby_text_for, searches, Args,
    Gemset, Project, RubyVersionFile, Rvm,
};
use promptr::segment::{Segment, SegmentError, ToSegment};
use promptr::{ApplicationState, Host, Separator, Theme};

fn rvm_env(gem_home: &str) -> Env {
    let mut env = Env::new();
    env.insert(String::from("rvm_version"), String::from("1.29.12 (latest)"));
    env.insert(String::from("PWD"), String::from("/home/u/project"));
    env.insert(String::from("HOME"), String::from("/home/u"));
    env.insert(String::from("rvm_path"), String::from("/home/u/.rvm"));
    env.insert(String::from("GEM_HOME"), String::from(gem_home));
    env
}

fn project<'a>(theme: &'a Theme, gem_home: &str, file: RubyVersionFile) -> ApplicationState<'a> {
    let mut host = Host::unknown();
    host.project = Project { gemfile_found: true, ruby_version: file };
    ApplicationState { theme, env: rvm_env(gem_home), host }
}

fn text_of(result: Result<Vec<Segment>, SegmentError>) -> String {
    let segments = result.unwrap();
    assert_eq!(1, segments.len());
    segments[0].text.clone()
}

#[test]
fn names_of_rubies() {
    assert_eq!(
        Some(Gemset {
            interp: String::from("ruby"),
            version: String::from("2.7.1"),
            gemset: Some(String::from("rails")),
        }),
        Gemset::from_str("ruby-2.7.1@rails")
    );
    assert_eq!(
        Some(Gemset { interp: String::from("jruby"), version: String::from("9.2"), gemset: None }),
        Gemset::from_str("jruby-9.2")
    );
    assert_eq!(
        Some(Gemset { interp: String::from("ruby"), version: String::from("3"), gemset: None }),
        Gemset::from_str("3")
    );
    assert_eq!(None, Gemset::from_str("ruby"));
    assert_eq!(None, Gemset::from_str(""));
}

#[test]
fn gems_directory_is_below_rvm_path() {
    assert_eq!("/home/u/.rvm/gems/", gems_directory("/home/u/.rvm"));
    assert_eq!("/home/u/.rvm/gems/", gems_directory("/home/u/.rvm/"));
    assert_eq!("gems/", gems_directory(""));
    assert_eq!("//gems/", gems_directory("//"));
    for path in ["/home/u/.rvm", "/home/u/.rvm/", "", "/", "a"] {
        let expected = std::path::Path::new(path).join("gems/");
        assert_eq!(expected.to_str().unwrap(), gems_directory(path));
    }
}

#[test]
fn current_ruby_with_gemset() {
    let theme = Theme::default();
    let state = project(&theme, "/home/u/.rvm/gems/ruby-2.7.1@rails", RubyVersionFile::Missing);
    assert_eq!(
        Ok(vec![Segment {
            fg: theme.rvm.fg,
            bg: theme.rvm.bg,
            separator: Separator::Thick,
            text: String::from("rails (v2.7.1)"),
            source: "Rvm",
        }]),
        Rvm::to_segment(None, &state)
    );
}

#[test]
fn current_ruby_without_gemset() {
    let theme = Theme::default();
    let state = project(&theme, "/home/u/.rvm/gems/ruby-3.1.2", RubyVersionFile::Missing);
    assert_eq!("3.1.2", text_of(Rvm::to_segment(None, &state)));
}

#[test]
fn requested_ruby_that_is_met() {
    let theme = Theme::default();
    for wanted in ["ruby-2.7.1\n", "2.7.1", "2.7\n\n", "ruby-2", "2.6"] {
        let state = project(
            &theme,
            "/home/u/.rvm/gems/ruby-2.7.1",
            RubyVersionFile::Contents(String::from(wanted)),
        );
        assert_eq!("2.7.1", text_of(Rvm::to_segment(None, &state)), "wanted {:?}", wanted);
    }
}

#[test]
fn requested_ruby_that_is_not_met() {
    let theme = Theme::default();
    for wanted in ["ruby-3.0.0\n", "2.7.2", "jruby-2.7.1", "2.8"] {
        let state = project(
            &theme,
            "/home/u/.rvm/gems/ruby-2.7.1",
            RubyVersionFile::Contents(String::from(wanted)),
        );
        assert_eq!("2.7.1 \u{2260}", text_of(Rvm::to_segment(None, &state)), "wanted {:?}", wanted);
    }
}

#[test]
fn versions_that_cannot_be_read() {
    let theme = Theme::default();
    let state = project(&theme, "/home/u/.rvm/gems/ruby-2.7", RubyVersionFile::Missing);
    assert_eq!(Err(SegmentError::BadRubyVersion), Rvm::to_segment(None, &state));
    let state = project(&theme, "/home/u/.rvm/gems/ruby", RubyVersionFile::Missing);
    assert_eq!(Err(SegmentError::BadRubyVersion), Rvm::to_segment(None, &state));
    let state = project(
        &theme,
        "/home/u/.rvm/gems/ruby-2.7.1",
        RubyVersionFile::Contents(String::from("latest")),
    );
    assert_eq!(Err(SegmentError::BadRequestedRubyVersion), Rvm::to_segment(None, &state));
    let state = project(&theme, "/home/u/.rvm/gems/ruby-2.7.1", RubyVersionFile::Unreadable);
    assert_eq!(Err(SegmentError::BadRequestedRubyVersion), Rvm::to_segment(None, &state));
}

#[test]
fn hidden_without_gemfile_unless_forced() {
    let theme = Theme::default();
    let mut state = project(&theme, "/home/u/.rvm/gems/ruby-2.7.1", RubyVersionFile::Missing);
    state.host.project.gemfile_found = false;
    assert_eq!(Ok(vec![]), Rvm::to_segment(None, &state));
    assert_eq!(Ok(vec![]), Rvm::to_segment(Some(Args { force_show: false }), &state));
    assert_eq!("2.7.1", text_of(Rvm::to_segment(Some(Args { force_show: true }), &state)));
}

#[test]
fn rvm_needs_its_variables() {
    let theme = Theme::default();
    for (missing, error) in [
        ("rvm_version", SegmentError::NoRvm),
        ("PWD", SegmentError::NoWorkingDirectory),
        ("HOME", SegmentError::NoHome),
        ("rvm_path", SegmentError::NoRvm),
        ("GEM_HOME", SegmentError::NoRvm),
    ] {
        let mut state = project(&theme, "/home/u/.rvm/gems/ruby-2.7.1", RubyVersionFile::Missing);
        state.env.remove(missing);
        assert_eq!(Err(error), Rvm::to_segment(None, &state), "without {}", missing);
    }
}

#[test]
fn search_skips_home_and_gems() {
    assert!(searches("/home/u/project", "/home/u", "/home/u/.rvm/gems/"));
    assert!(!searches("/home/u", "/home/u", "/home/u/.rvm/gems/"));
    assert!(!searches("/home/u/", "/home/u", "/home/u/.rvm/gems/"));
    assert!(!searches("/home/u/.rvm/gems", "/home/u", "/home/u/.rvm/gems/"));
    assert!(searches("/", "/home/u", "/home/u/.rvm/gems/"));
    assert!(paths_equal("/a//b/./c/", "/a/b/c"));
    assert!(!paths_equal("/a/b", "a/b"));
    assert!(!paths_equal("/a/b", "/a/B"));
    assert!(!paths_equal("/a/b", "/a/b/c"));
    for (a, b) in [("/a//b/./c/", "/a/b/c"), ("/a/b", "a/b"), ("./a", "a"), ("a/..", "a"), ("", ".")] {
        assert_eq!(std::path::Path::new(a) == std::path::Path::new(b), paths_equal(a, b), "{:?} {:?}", a, b);
    }
}

#[test]
fn text_for_a_version() {
    let theme = Theme::default();
    let rails = String::from("rails");
    assert_eq!("2.7.1", ruby_text_for(&theme.rvm, None, "2.7.1", true));
    assert_eq!("2.7.1 \u{2260}", ruby_text_for(&theme.rvm, None, "2.7.1", false));
    assert_eq!("rails (v2.7.1)", ruby_text_for(&theme.rvm, Some(&rails), "2.7.1", true));
    assert_eq!("rails (v2.7.1) \u{2260}", ruby_text_for(&theme.rvm, Some(&rails), "2.7.1", false));
    assert_eq!(
        Segment {
            fg: theme.rvm.fg,
            bg: theme.rvm.bg,
            separator: Separator::Thick,
            text: String::from("x"),
            source: "Rvm",
        },
        ruby_segment(&theme.rvm, String::from("x"))
    );
}

#[test]
fn interpreters_have_to_agree() {
    let ruby = Gemset { interp: String::from("ruby"), version: String::from("2.7.1"), gemset: None };
    let other = Gemset { interp: String::from("ruby"), version: String::from("3"), gemset: Some(String::from("g")) };
    let jruby = Gemset { interp: String::from("jruby"), version: String::from("2.7.1"), gemset: None };
    assert!(interpreter_matches(&ruby, &other, true));
    assert!(!interpreter_matches(&ruby, &other, false));
    assert!(!interpreter_matches(&jruby, &ruby, true));
    assert!(!interpreter_matches(&jruby, &ruby, false));
}
