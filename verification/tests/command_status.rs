use promptr::env::Env;
use promptr::segment::command_status::CommandStatus;
use promptr::segment::ToSegment;
use promptr::{ApplicationState, Host, Separator, Theme};

fn state_of<'a>(theme: &'a Theme, vars: &[(&str, &str)]) -> ApplicationState<'a> {
    let mut env = Env::new();
    for (key, value) in vars {
        env.insert(String::from(*key), String::from(*value));
    }
    ApplicationState { theme, env, host: Host::unknown() }
}

#[test]
fn no_exit_status_non_priv() {
    let theme = Theme::default();
    let state = state_of(&theme, &[]);
    let seg = CommandStatus::to_segment_generic(None, &state).unwrap();
    assert_eq!(1, seg.len());
    let seg = &seg[0];

    assert_eq!(r"\$", seg.text);
    assert_eq!(state.theme.command_status.success_bg, seg.bg);
}

#[test]
fn exit_success_non_priv() {
    let theme = Theme::default();
    let state = state_of(&theme, &[("code", "0"), ("uid", "1")]);
    let seg = CommandStatus::to_segment_generic(None, &state).unwrap();
    assert_eq!(1, seg.len());
    let seg = &seg[0];

    assert_eq!(r"\$", seg.text);
    assert_eq!(state.theme.command_status.success_bg, seg.bg);
}

#[test]
fn exit_fail_non_priv() {
    let theme = Theme::default();
    let state = state_of(&theme, &[("code", "255"), ("uid", "1")]);
    let seg = CommandStatus::to_segment_generic(None, &state).unwrap();
    assert_eq!(1, seg.len());
    let seg = &seg[0];

    assert_eq!(r"\$", seg.text);
    assert_eq!(state.theme.command_status.failure_bg, seg.bg);
}

#[test]
fn exit_success_priv() {
    let theme = Theme::default();
    let state = state_of(&theme, &[("code", "0"), ("uid", "0")]);
    let seg = CommandStatus::to_segment_generic(None, &state).unwrap();
    assert_eq!(1, seg.len());
    let seg = &seg[0];

    assert_eq!(r"#", seg.text);
    assert_eq!(state.theme.command_status.success_bg, seg.bg);
}

#[test]
fn exit_fail_priv() {
    let theme = Theme::default();
    let state = state_of(&theme, &[("code", "255"), ("uid", "0")]);
    let seg = CommandStatus::to_segment_generic(None, &state).unwrap();
    assert_eq!(1, seg.len());
    let seg = &seg[0];

    assert_eq!(r"#", seg.text);
    assert_eq!(state.theme.command_status.failure_bg, seg.bg);
}

#[test]
fn every_exit_status_selects_its_colors() {
    let theme = Theme::default();
    for status in 0u16..=255 {
        let code = status.to_string();
        let state = state_of(&theme, &[("code", code.as_str()), ("uid", "1000")]);
        let seg = CommandStatus::to_segment(None, &state).unwrap();
        assert_eq!(1, seg.len());
        if status == 0 {
            assert_eq!(theme.command_status.success_fg, seg[0].fg);
            assert_eq!(theme.command_status.success_bg, seg[0].bg);
        } else {
            assert_eq!(theme.command_status.failure_fg, seg[0].fg);
            assert_eq!(theme.command_status.failure_bg, seg[0].bg);
        }
        assert_eq!(r"\$", seg[0].text);
        assert_eq!(Separator::Thick, seg[0].separator);
        assert_eq!("CommandStatus", seg[0].source);
    }
}

#[test]
fn exit_status_that_is_no_number_counts_as_success() {
    let theme = Theme::default();
    for code in ["256", "abc", "", "-1", "1 ", "+", "1.0"] {
        let state = state_of(&theme, &[("code", code)]);
        let seg = CommandStatus::to_segment(None, &state).unwrap();
        assert_eq!(theme.command_status.success_bg, seg[0].bg, "code {:?}", code);
    }
    for code in ["+1", "001", "255"] {
        let state = state_of(&theme, &[("code", code)]);
        let seg = CommandStatus::to_segment(None, &state).unwrap();
        assert_eq!(theme.command_status.failure_bg, seg[0].bg, "code {:?}", code);
    }
}

#[test]
fn uid_that_is_no_number_is_not_root() {
    let theme = Theme::default();
    for uid in ["root", "", "4294967296", "-0"] {
        let state = state_of(&theme, &[("uid", uid)]);
        let seg = CommandStatus::to_segment(None, &state).unwrap();
        assert_eq!(r"\$", seg[0].text, "uid {:?}", uid);
    }
    for uid in ["0", "+0", "000"] {
        let state = state_of(&theme, &[("uid", uid)]);
        let seg = CommandStatus::to_segment(None, &state).unwrap();
        assert_eq!("#", seg[0].text, "uid {:?}", uid);
    }
}
