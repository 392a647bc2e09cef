//! There are no segments here, just the theme of the version control
//! segments.

use crate::ansi::Color;
use vstd::prelude::*;

verus! {

/// The symbols of the version control segments.
#[derive(Clone, Debug, PartialEq, Eq)]
pub struct Symbols {
    pub detached: String,
    pub ahead: String,
    pub behind: String,
    pub staged: String,
    pub changed: String,
    pub new: String,
    pub conflicted: String,
    pub stash: String,
    pub cherry_pick: String,
    pub git: String,
}

/// Theme for the version control segments.
#[derive(Clone, Debug, PartialEq, Eq)]
pub struct Theme {
    pub git_ahead_fg: Color,
    pub git_ahead_bg: Color,
    pub git_behind_fg: Color,
    pub git_behind_bg: Color,
    pub git_staged_fg: Color,
    pub git_staged_bg: Color,
    pub git_changed_fg: Color,
    pub git_changed_bg: Color,
    pub git_untracked_fg: Color,
    pub git_untracked_bg: Color,
    pub git_conflict_fg: Color,
    pub git_conflict_bg: Color,
    pub git_in_progress_fg: Color,
    pub git_in_progress_bg: Color,
    pub git_stashed_fg: Color,
    pub git_stashed_bg: Color,
    pub repo_clean_fg: Color,
    pub repo_clean_bg: Color,
    pub repo_dirty_fg: Color,
    pub repo_dirty_bg: Color,
    pub symbols: Symbols,
}

impl Symbols {
    /// Whether the symbols are those that a configuration starts from.
    pub open spec fn is_default(&self) -> bool {
        &&& self.detached@ == "\u{2693}"@
        &&& self.ahead@ == "\u{2B06}"@
        &&& self.behind@ == "\u{2B07}"@
        &&& self.staged@ == "\u{2714}"@
        &&& self.changed@ == "\u{270E}"@
        &&& self.new@ == "?"@
        &&& self.conflicted@ == "\u{273C}"@
        &&& self.stash@ == "\u{2398}"@
        &&& self.cherry_pick@ == "cherry-pick"@
        &&& self.git@ == "\u{E0A0}"@
    }
}

impl Theme {
    /// Whether the theme is the one that a configuration starts from.
    pub open spec fn is_default(&self) -> bool {
        &&& self.git_ahead_fg == Color::Numbered(250)
        &&& self.git_ahead_bg == Color::Numbered(240)
        &&& self.git_behind_fg == Color::Numbered(250)
        &&& self.git_behind_bg == Color::Numbered(240)
        &&& self.git_staged_fg == Color::Numbered(15)
        &&& self.git_staged_bg == Color::Numbered(22)
        &&& self.git_changed_fg == Color::Numbered(15)
        &&& self.git_changed_bg == Color::Numbered(130)
        &&& self.git_untracked_fg == Color::Numbered(15)
        &&& self.git_untracked_bg == Color::Numbered(52)
        &&& self.git_conflict_fg == Color::Numbered(15)
        &&& self.git_conflict_bg == Color::Numbered(9)
        &&& self.git_in_progress_fg == Color::Numbered(15)
        &&& self.git_in_progress_bg == Color::Numbered(208)
        &&& self.git_stashed_fg == Color::Numbered(0)
        &&& self.git_stashed_bg == Color::Numbered(221)
        &&& self.repo_clean_fg == Color::Numbered(0)
        &&& self.repo_clean_bg == Color::Numbered(148)
        &&& self.repo_dirty_fg == Color::Numbered(15)
        &&& self.repo_dirty_bg == Color::Numbered(161)
        &&& self.symbols.is_default()
    }
}

impl Default for Symbols {
    fn default() -> (symbols: Self)
        ensures
            symbols.is_default(),
    {
        Symbols {
            detached: String::from_str("\u{2693}"),
            ahead: String::from_str("\u{2B06}"),
            behind: String::from_str("\u{2B07}"),
            staged: String::from_str("\u{2714}"),
            changed: String::from_str("\u{270E}"),
            new: String::from_str("?"),
            conflicted: String::from_str("\u{273C}"),
            stash: String::from_str("\u{2398}"),
            cherry_pick: String::from_str("cherry-pick"),
            git: String::from_str("\u{E0A0}"),
        }
    }
}

impl Default for Theme {
    fn default() -> (theme: Self)
        ensures
            theme.is_default(),
    {
        Theme {
            git_ahead_fg: Color::Numbered(250),
            git_ahead_bg: Color::Numbered(240),
            git_behind_fg: Color::Numbered(250),
            git_behind_bg: Color::Numbered(240),
            git_staged_fg: Color::Numbered(15),
            git_staged_bg: Color::Numbered(22),
            git_changed_fg: Color::Numbered(15),
            git_changed_bg: Color::Numbered(130),
            git_untracked_fg: Color::Numbered(15),
            git_untracked_bg: Color::Numbered(52),
            git_conflict_fg: Color::Numbered(15),
            git_conflict_bg: Color::Numbered(9),
            git_in_progress_fg: Color::Numbered(15),
            git_in_progress_bg: Color::Numbered(208),
            git_stashed_fg: Color::Numbered(0),
            git_stashed_bg: Color::Numbered(221),
            repo_clean_fg: Color::Numbered(0),
            repo_clean_bg: Color::Numbered(148),
            repo_dirty_fg: Color::Numbered(15),
            repo_dirty_bg: Color::Numbered(161),
            symbols: Symbols::default(),
        }
    }
}

} // verus!
