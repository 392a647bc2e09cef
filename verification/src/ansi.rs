//! Colors and the ANSI escape sequences that select them.

use crate::text::{concat2, decimal, decimal_string, opt_string};
use vstd::prelude::*;

verus! {

/// A color that an [`AnsiCommand`] can select.
#[derive(Copy, Clone, Debug, PartialEq, Eq, Structural)]
pub enum Color {
    /// A color of the 256-color palette.
    Numbered(u8),
    /// A 24-bit color.
    Rgb { r: u8, g: u8, b: u8 },
}

/// The SGR (Select Graphic Rendition) commands that the prompt uses.
#[derive(Copy, Clone, Debug, PartialEq, Eq, Structural)]
pub enum AnsiCommand {
    SetFgColor,
    SetBgColor,
    DefaultForegroundColor,
    DefaultBackgroundColor,
    DefaultColorAndStyle,
    BoldOn,
    BoldOff,
}

impl AnsiCommand {
    /// The SGR parameter that stands for the command.
    pub open spec fn code(self) -> nat {
        match self {
            AnsiCommand::SetFgColor => 38,
            AnsiCommand::SetBgColor => 48,
            AnsiCommand::DefaultForegroundColor => 39,
            AnsiCommand::DefaultBackgroundColor => 49,
            AnsiCommand::DefaultColorAndStyle => 0,
            AnsiCommand::BoldOn => 1,
            AnsiCommand::BoldOff => 22,
        }
    }

    /// The SGR parameter that stands for the command.
    pub fn number(self) -> (n: u8)
        ensures
            n == self.code(),
    {
        match self {
            AnsiCommand::SetFgColor => 38,
            AnsiCommand::SetBgColor => 48,
            AnsiCommand::DefaultForegroundColor => 39,
            AnsiCommand::DefaultBackgroundColor => 49,
            AnsiCommand::DefaultColorAndStyle => 0,
            AnsiCommand::BoldOn => 1,
            AnsiCommand::BoldOff => 22,
        }
    }

    /// The command's parameter in decimal.
    pub fn to_string(self) -> (s: String)
        ensures
            s@ == decimal(self.code()),
    {
        decimal_string(self.number() as u128)
    }
}

/// The escape sequence for `cmd` with the arguments `args`, bracketed so that
/// a shell does not count it towards the width of the prompt:
/// `\[\e[` `cmd` `;` `args` `m\]`, or without `;` and arguments where there
/// are none.
pub open spec fn escaped(cmd: AnsiCommand, args: Option<Seq<char>>) -> Seq<char> {
    match args {
        Some(a) => "\\[\\e["@ + decimal(cmd.code()) + ";"@ + a + "m\\]"@,
        None => "\\[\\e["@ + decimal(cmd.code()) + "m\\]"@,
    }
}

/// Writes an ANSI escape sequence out to a `String`.
pub fn escape(cmd: AnsiCommand, args: Option<String>) -> (s: String)
    ensures
        s@ == escaped(cmd, opt_string(args)),
{
    let mut s = concat2("\\[\\e[", cmd.to_string().as_str());
    match args {
        Some(a) => {
            s.append(";");
            s.append(a.as_str());
        },
        None => {},
    }
    s.append("m\\]");
    s
}

impl Color {
    /// The arguments that select this color in a color-setting command:
    /// `5;n` for a palette color, `2;r;g;b` for a 24-bit color.
    pub open spec fn sgr(self) -> Seq<char> {
        match self {
            Color::Numbered(n) => "5;"@ + decimal(n as nat),
            Color::Rgb { r, g, b } => "2;"@ + decimal(r as nat) + ";"@ + decimal(g as nat) + ";"@
                + decimal(b as nat),
        }
    }

    /// The escape sequence that makes this color the foreground.
    pub open spec fn fg_escape(self) -> Seq<char> {
        escaped(AnsiCommand::SetFgColor, Some(self.sgr()))
    }

    /// The escape sequence that makes this color the background.
    pub open spec fn bg_escape(self) -> Seq<char> {
        escaped(AnsiCommand::SetBgColor, Some(self.sgr()))
    }

    /// The escape sequence that resets colors and style.
    pub open spec fn reset_escape() -> Seq<char> {
        escaped(AnsiCommand::DefaultColorAndStyle, None)
    }

    /// Converts the color to the arguments of a color-setting command.
    pub fn to_string(&self) -> (s: String)
        ensures
            s@ == self.sgr(),
    {
        match self {
            Color::Numbered(n) => concat2("5;", decimal_string(*n as u128).as_str()),
            Color::Rgb { r, g, b } => {
                let mut s = concat2("2;", decimal_string(*r as u128).as_str());
                s.append(";");
                s.append(decimal_string(*g as u128).as_str());
                s.append(";");
                s.append(decimal_string(*b as u128).as_str());
                s
            },
        }
    }

    pub fn set_fg(&self) -> (s: String)
        ensures
            s@ == self.fg_escape(),
    {
        escape(AnsiCommand::SetFgColor, Some(self.to_string()))
    }

    pub fn set_bg(&self) -> (s: String)
        ensures
            s@ == self.bg_escape(),
    {
        escape(AnsiCommand::SetBgColor, Some(self.to_string()))
    }

    pub fn reset_colors() -> (s: String)
        ensures
            s@ == Color::reset_escape(),
    {
        escape(AnsiCommand::DefaultColorAndStyle, None)
    }

    pub fn reset_bg() -> (s: String)
        ensures
            s@ == escaped(AnsiCommand::DefaultBackgroundColor, None),
    {
        escape(AnsiCommand::DefaultBackgroundColor, None)
    }

    pub fn reset_fg() -> (s: String)
        ensures
            s@ == escaped(AnsiCommand::DefaultForegroundColor, None),
    {
        escape(AnsiCommand::DefaultForegroundColor, None)
    }
}

} // verus!
