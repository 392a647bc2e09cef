use promptr::ansi::{escape, AnsiCommand, Color};

#[test]
fn numbered_color_sets_foreground() {
    assert_eq!("\\[\\e[38;5;240m\\]", Color::Numbered(240).set_fg());
}

#[test]
fn rgb_color_sets_background() {
    let c = Color::Rgb { r: 255, g: 80, b: 95 };
    assert_eq!("\\[\\e[48;2;255;80;95m\\]", c.set_bg());
}

#[test]
fn resets_have_no_arguments() {
    assert_eq!("\\[\\e[0m\\]", Color::reset_colors());
    assert_eq!("\\[\\e[49m\\]", Color::reset_bg());
    assert_eq!("\\[\\e[39m\\]", Color::reset_fg());
}

#[test]
fn escape_with_and_without_arguments() {
    assert_eq!("\\[\\e[1m\\]", escape(AnsiCommand::BoldOn, None));
    assert_eq!("\\[\\e[22;x m\\]", escape(AnsiCommand::BoldOff, Some(String::from("x "))));
}

#[test]
fn commands_have_their_numbers() {
    for (command, number) in [
        (AnsiCommand::SetFgColor, 38),
        (AnsiCommand::SetBgColor, 48),
        (AnsiCommand::DefaultForegroundColor, 39),
        (AnsiCommand::DefaultBackgroundColor, 49),
        (AnsiCommand::DefaultColorAndStyle, 0),
        (AnsiCommand::BoldOn, 1),
        (AnsiCommand::BoldOff, 22),
    ] {
        assert_eq!(number, command.number());
        assert_eq!(number.to_string(), command.to_string());
    }
}

#[test]
fn colors_as_arguments() {
    assert_eq!("5;0", Color::Numbered(0).to_string());
    assert_eq!("5;255", Color::Numbered(255).to_string());
    assert_eq!("2;0;10;200", Color::Rgb { r: 0, g: 10, b: 200 }.to_string());
}

#[test]
fn colors_are_equal_by_their_parts() {
    assert_eq!(Color::Numbered(3), Color::Numbered(3));
    assert_ne!(Color::Numbered(3), Color::Numbered(4));
    assert_ne!(Color::Numbered(3), Color::Rgb { r: 3, g: 3, b: 3 });
    assert_eq!(Color::Rgb { r: 1, g: 2, b: 3 }, Color::Rgb { r: 1, g: 2, b: 3 });
}
