use promptr::args::{ArgField, ArgValue, ArgsBlob};
use promptr::env::Env;
use promptr::segment::screen::Screen;
use promptr::segment::{SegmentError, ToSegment};
use promptr::{ApplicationState, Host, Theme};

fn session<'a>(theme: &'a Theme) -> ApplicationState<'a> {
    let mut env = Env::new();
    env.insert(String::from("STY"), String::from("1234.ttyNN.hostname"));
    env.insert(String::from("WINDOW"), String::from("1"));
    ApplicationState { theme, env, host: Host::unknown() }
}

fn flags(fields: &[(&str, bool)]) -> ArgsBlob {
    ArgsBlob::Object(
        fields
            .iter()
            .map(|(name, value)| ArgField { name: String::from(*name), value: ArgValue::Bool(*value) })
            .collect(),
    )
}

#[test]
fn no_screen() {
    let theme = Theme::default();
    let mut state = session(&theme);
    state.env.remove("STY");
    let seg = Screen::to_segment_generic(None, &state).unwrap();
    assert_eq!(0, seg.len());
}

#[test]
fn screen_no_window() {
    let theme = Theme::default();
    let mut state = session(&theme);
    state.env.remove("WINDOW");

    let seg = Screen::to_segment_generic(None, &state).unwrap();
    assert_eq!(0, seg.len());
}

#[test]
fn screen() {
    let theme = Theme::default();
    let state = session(&theme);
    let seg = Screen::to_segment_generic(None, &state).unwrap();
    assert_eq!(1, seg.len());
    let seg = &seg[0];
    assert_eq!("1[ttyNN.hostname] \u{1f4fa}", seg.text);
}

#[test]
fn screen_no_icon() {
    let theme = Theme::default();
    let state = session(&theme);
    let args = flags(&[("show_screen_icon", false)]);
    let seg = Screen::to_segment_generic(Some(&args), &state).unwrap();
    assert_eq!(1, seg.len());
    let seg = &seg[0];
    assert_eq!("1[ttyNN.hostname]", seg.text);
}

#[test]
fn screen_just_the_number() {
    let theme = Theme::default();
    let state = session(&theme);
    let args = flags(&[
        ("show_screen_icon", false),
        ("show_screen_name", false),
        ("show_screen_pid", false),
    ]);
    let seg = Screen::to_segment_generic(Some(&args), &state).unwrap();
    assert_eq!(1, seg.len());
    let seg = &seg[0];
    assert_eq!("1", seg.text);
}

#[test]
fn screen_with_pid() {
    let theme = Theme::default();
    let state = session(&theme);
    let args = flags(&[("show_screen_pid", true)]);
    let seg = Screen::to_segment_generic(Some(&args), &state).unwrap();
    assert_eq!("1[1234.ttyNN.hostname] \u{1f4fa}", seg[0].text);

    let args = flags(&[("show_screen_pid", true), ("show_window_number", false)]);
    let seg = Screen::to_segment_generic(Some(&args), &state).unwrap();
    assert_eq!("1234.ttyNN.hostname \u{1f4fa}", seg[0].text);
    assert_eq!(theme.screen.fg, seg[0].fg);
    assert_eq!(theme.screen.bg, seg[0].bg);
    assert_eq!("Screen", seg[0].source);
}

#[test]
fn screen_session_without_name() {
    let theme = Theme::default();
    let mut state = session(&theme);
    state.env.insert(String::from("STY"), String::from("1234"));
    assert_eq!(Err(SegmentError::BadScreenSession), Screen::to_segment(None, &state));
}
