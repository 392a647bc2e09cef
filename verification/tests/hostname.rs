use promptr::args::{ArgField, ArgValue, ArgsBlob, DecodeError};
use promptr::env::Env;
use promptr::segment::hostname::{Hostname, Os};
use promptr::segment::{SegmentError, ToSegment};
use promptr::{ApplicationState, Host, Theme};

fn flags(fields: &[(&str, bool)]) -> ArgsBlob {
    ArgsBlob::Object(
        fields
            .iter()
            .map(|(name, value)| ArgField { name: String::from(*name), value: ArgValue::Bool(*value) })
            .collect(),
    )
}

fn zardoz<'a>(theme: &'a Theme, host: Host) -> ApplicationState<'a> {
    let mut env = Env::new();
    env.insert(String::from("hostname"), String::from("sean.connery.is.zardoz.com"));
    ApplicationState { theme, env, host }
}

#[test]
fn hostname() {
    let theme = Theme::default();
    let state = zardoz(&theme, Host::unknown());
    let args = flags(&[("show_jail_indicator", false)]);
    let seg = Hostname::to_segment_generic(Some(&args), &state).unwrap();
    assert_eq!(1, seg.len());
    let seg = &seg[0];

    assert_eq!("sean", seg.text);
}

#[test]
fn hostname_with_domain() {
    let theme = Theme::default();
    let state = zardoz(&theme, Host::unknown());
    let args = flags(&[("show_domain", true), ("show_jail_indicator", false)]);
    let seg = Hostname::to_segment_generic(Some(&args), &state).unwrap();
    assert_eq!(1, seg.len());
    let seg = &seg[0];

    assert_eq!("sean.connery.is.zardoz.com", seg.text);
}

#[test]
fn hostname_is_required() {
    let theme = Theme::default();
    let state = ApplicationState { theme: &theme, env: Env::new(), host: Host::unknown() };
    assert_eq!(Err(SegmentError::NoHostname), Hostname::to_segment(None, &state));
}

#[test]
fn hostname_without_dot_is_shown_whole() {
    let theme = Theme::default();
    let mut env = Env::new();
    env.insert(String::from("hostname"), String::from("zardoz"));
    let state = ApplicationState { theme: &theme, env, host: Host::unknown() };
    let seg = Hostname::to_segment(None, &state).unwrap();
    assert_eq!("zardoz", seg[0].text);
    assert_eq!(theme.hostname.fg, seg[0].fg);
    assert_eq!(theme.hostname.bg, seg[0].bg);
    assert_eq!("Hostname", seg[0].source);
}

#[test]
fn hostname_with_os_indicator() {
    let theme = Theme::default();
    let args = flags(&[("show_os_indicator", true)]);
    for (os, indicator) in [
        (Os::MacOs, "\u{1f34e}"),
        (Os::FreeBsd, "\u{1f47a}"),
        (Os::OpenBsd, "\u{1f421}"),
        (Os::Linux, "\u{1f427}"),
        (Os::Other, ""),
    ] {
        let mut host = Host::unknown();
        host.os = os;
        let state = zardoz(&theme, host);
        let seg = Hostname::to_segment_generic(Some(&args), &state).unwrap();
        assert_eq!(format!("sean{}", indicator), seg[0].text);
    }
}

#[test]
fn hostname_in_a_jail() {
    let theme = Theme::default();
    let mut host = Host::unknown();
    host.os = Os::FreeBsd;
    host.jailed = true;
    let state = zardoz(&theme, host.clone());
    let seg = Hostname::to_segment(None, &state).unwrap();
    assert_eq!("sean\u{1f510}", seg[0].text);

    let args = flags(&[("show_jail_indicator", false)]);
    let seg = Hostname::to_segment_generic(Some(&args), &state).unwrap();
    assert_eq!("sean", seg[0].text);

    let args = flags(&[("show_os_indicator", true)]);
    let seg = Hostname::to_segment_generic(Some(&args), &state).unwrap();
    assert_eq!("sean\u{1f47a}\u{1f510}", seg[0].text);

    host.os = Os::Linux;
    let state = zardoz(&theme, host);
    let seg = Hostname::to_segment(None, &state).unwrap();
    assert_eq!("sean", seg[0].text);
}

#[test]
fn hostname_refuses_unknown_fields() {
    let theme = Theme::default();
    let state = zardoz(&theme, Host::unknown());
    let args = flags(&[("show_domain", true), ("show_domian", true)]);
    assert_eq!(
        Err(SegmentError::BadArgs(DecodeError::UnknownField(1))),
        Hostname::to_segment_generic(Some(&args), &state)
    );
}
