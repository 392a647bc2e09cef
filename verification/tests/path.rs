use promptr::args::ArgsBlob;
use promptr::env::Env;
use promptr::segment::path::Path;
use promptr::segment::{SegmentError, ToSegment};
use promptr::{ApplicationState, Host, Separator, Theme};

fn state_in<'a>(theme: &'a Theme, pwd: &str) -> ApplicationState<'a> {
    let mut env = Env::new();
    env.insert(String::from("PWD"), String::from("/tmp/foo"));
    env.insert(String::from("HOME"), String::from("/home/username"));
    env.insert(String::from("PWD"), String::from(pwd));
    ApplicationState { theme, env, host: Host::unknown() }
}

#[test]
fn no_env() {
    let theme = Theme::default();
    let mut state = state_in(&theme, "/tmp/foo");
    state.env.remove("PWD");
    state.env.remove("HOME");
    let seg = Path::to_segment_generic(None, &state);
    assert!(seg.is_err());
}

#[test]
fn not_in_home_dir() {
    let theme = Theme::default();
    let state = state_in(&theme, "/tmp/foo");
    let seg = Path::to_segment_generic(None, &state).unwrap();
    assert_eq!(2, seg.len());
    assert_eq!("tmp", seg[0].text);
    assert_eq!("foo", seg[1].text);
}

#[test]
fn home_dir() {
    let theme = Theme::default();
    let state = state_in(&theme, "/home/username");
    let seg = Path::to_segment_generic(None, &state).unwrap();
    assert_eq!(1, seg.len());
    assert_eq!("~", seg[0].text);
}

#[test]
fn home_dir_subdir() {
    let theme = Theme::default();
    let state = state_in(&theme, "/home/username/something");
    let seg = Path::to_segment_generic(None, &state).unwrap();
    assert_eq!(2, seg.len());
    assert_eq!("~", seg[0].text);
    assert_eq!("something", seg[1].text);
}

#[test]
fn home_dir_no_expand() {
    let theme = Theme::default();
    let state = state_in(&theme, "/home/username/something");
    let args = ArgsBlob::Object(vec![]);
    let seg = Path::to_segment_generic(Some(&args), &state).unwrap();
    assert_eq!(2, seg.len());
    assert_eq!("~", seg[0].text);
    assert_eq!("something", seg[1].text);
}

#[test]
fn path_missing_variables() {
    let theme = Theme::default();
    let mut state = state_in(&theme, "/tmp/foo");
    state.env.remove("HOME");
    assert_eq!(Err(SegmentError::NoHome), Path::to_segment(None, &state));
    state.env.remove("PWD");
    assert_eq!(Err(SegmentError::NoWorkingDirectory), Path::to_segment(None, &state));
}

#[test]
fn path_segments_carry_their_own_sources() {
    let theme = Theme::default();
    let state = state_in(&theme, "/home/username/a/b");
    let seg = Path::to_segment(None, &state).unwrap();
    assert_eq!(3, seg.len());
    assert_eq!("Path::First::Home", seg[0].source);
    assert_eq!(theme.path.home_bg, seg[0].bg);
    assert_eq!(theme.path.home_fg, seg[0].fg);
    assert_eq!(Separator::Thick, seg[0].separator);
    assert_eq!("Path::Middle::Normal", seg[1].source);
    assert_eq!(Separator::Thin, seg[1].separator);
    assert_eq!("Path::Last::Normal", seg[2].source);
    assert_eq!(theme.path.last_fg, seg[2].fg);
    assert_eq!(Separator::Thick, seg[2].separator);
}
