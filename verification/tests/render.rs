use promptr::ansi::Color;
use promptr::render::{render, separator_after};
use promptr::segment::Segment;
use promptr::Separator;

fn segment(bg: u8, text: &str, separator: Separator) -> Segment {
    Segment {
        bg: Color::Numbered(bg),
        fg: Color::Numbered(15),
        text: String::from(text),
        separator,
        source: "test",
    }
}

const THIN: &str = "\u{e0b1}";
const THICK: &str = "\u{e0b0}";

#[test]
fn separator_glyphs() {
    assert_eq!(THIN, Separator::Thin.to_string());
    assert_eq!(THICK, Separator::Thick.to_string());
}

#[test]
fn empty_prompt_is_a_reset_and_a_space() {
    assert_eq!("\\[\\e[0m\\] ", render(&vec![]));
}

#[test]
fn single_segment_keeps_its_separator() {
    assert_eq!(
        format!(
            "\\[\\e[38;5;15m\\]\\[\\e[48;5;240m\\] user \\[\\e[0m\\]\\[\\e[38;5;240m\\]{}\\[\\e[0m\\] ",
            THICK
        ),
        render(&vec![segment(240, "user", Separator::Thick)])
    );
    assert_eq!(
        format!(
            "\\[\\e[38;5;15m\\]\\[\\e[48;5;240m\\] user \\[\\e[0m\\]\\[\\e[38;5;240m\\]{}\\[\\e[0m\\] ",
            THIN
        ),
        render(&vec![segment(240, "user", Separator::Thin)])
    );
}

#[test]
fn equal_backgrounds_are_joined_by_a_thin_separator() {
    let prompt = render(&vec![
        segment(237, "a", Separator::Thick),
        segment(237, "b", Separator::Thick),
        segment(31, "c", Separator::Thick),
    ]);
    assert_eq!(
        format!(
            "{a}{thin}{b}{thick}{c}{thick}\\[\\e[0m\\] ",
            a = "\\[\\e[38;5;15m\\]\\[\\e[48;5;237m\\] a \\[\\e[48;5;237m\\]\\[\\e[38;5;237m\\]",
            b = "\\[\\e[38;5;15m\\]\\[\\e[48;5;237m\\] b \\[\\e[48;5;31m\\]\\[\\e[38;5;237m\\]",
            c = "\\[\\e[38;5;15m\\]\\[\\e[48;5;31m\\] c \\[\\e[0m\\]\\[\\e[38;5;31m\\]",
            thin = THIN,
            thick = THICK,
        ),
        prompt
    );
}

#[test]
fn different_backgrounds_keep_the_requested_separator() {
    let a = segment(1, "a", Separator::Thick);
    let b = segment(2, "b", Separator::Thin);
    let c = segment(2, "c", Separator::Thin);
    assert_eq!(Separator::Thick, separator_after(&a, Some(&b)));
    assert_eq!(Separator::Thin, separator_after(&b, Some(&a)));
    assert_eq!(Separator::Thin, separator_after(&b, Some(&c)));
    assert_eq!(Separator::Thin, separator_after(&a, Some(&a)));
    assert_eq!(Separator::Thick, separator_after(&a, None));
    assert_eq!(Separator::Thin, separator_after(&b, None));
}

#[test]
fn empty_text_is_rendered_as_a_blank() {
    let prompt = render(&vec![segment(1, "", Separator::Thick)]);
    assert!(prompt.contains("\\[\\e[48;5;1m\\]  \\[\\e[0m\\]"));
}

#[test]
fn true_colors_are_rendered() {
    let s = Segment {
        bg: Color::Rgb { r: 1, g: 20, b: 255 },
        fg: Color::Rgb { r: 0, g: 0, b: 0 },
        text: String::from("x"),
        separator: Separator::Thick,
        source: "test",
    };
    assert_eq!(
        format!(
            "\\[\\e[38;2;0;0;0m\\]\\[\\e[48;2;1;20;255m\\] x \\[\\e[0m\\]\\[\\e[38;2;1;20;255m\\]{}\\[\\e[0m\\] ",
            THICK
        ),
        render(&vec![s])
    );
}
