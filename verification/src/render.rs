//! Turns a list of segments into the prompt: one string of escape sequences
//! and text.
//!
//! Each segment is written in its colors, followed by a separator. The
//! separator is drawn in the segment's background color on the background of
//! the segment that follows, so that it looks cut out of the segment it
//! trails. Between two segments of the same background it is thin, whatever
//! the first one asked for.

use crate::ansi::Color;
use crate::segment::{views, Segment, SegmentView};
use crate::Separator;
use vstd::prelude::*;

verus! {

impl Separator {
    /// The glyph of the separator.
    pub open spec fn glyph(self) -> Seq<char> {
        match self {
            Separator::Thin => "\u{e0b1}"@,
            Separator::Thick => "\u{e0b0}"@,
        }
    }

    /// The glyph of the separator.
    pub fn to_string(&self) -> (s: String)
        ensures
            s@ == self.glyph(),
    {
        match self {
            Separator::Thin => String::from_str("\u{e0b1}"),
            Separator::Thick => String::from_str("\u{e0b0}"),
        }
    }
}

/// The separator shown after `cur`: thin where a segment of the same
/// background follows, else the one that `cur` asks for.
pub open spec fn shown_separator(cur: SegmentView, next: Option<SegmentView>) -> Separator {
    match next {
        Some(n) => if n.bg == cur.bg {
            Separator::Thin
        } else {
            cur.separator
        },
        None => cur.separator,
    }
}

/// What is written for `cur`, followed by `next` or by nothing: its colors,
/// its text between two spaces, the background of what follows (a reset
/// after the last segment), its own background as foreground, and the
/// separator.
pub open spec fn piece(cur: SegmentView, next: Option<SegmentView>) -> Seq<char> {
    cur.fg.fg_escape() + cur.bg.bg_escape() + " "@ + cur.text + " "@ + (match next {
        Some(n) => n.bg.bg_escape(),
        None => Color::reset_escape(),
    }) + cur.bg.fg_escape() + shown_separator(cur, next).glyph()
}

/// The segment that follows the one at `i`, if there is one.
pub open spec fn next_of(s: Seq<SegmentView>, i: int) -> Option<SegmentView> {
    if i + 1 < s.len() {
        Some(s[i + 1])
    } else {
        None
    }
}

/// What is written for the first `upto` segments of `s`.
pub open spec fn pieces(s: Seq<SegmentView>, upto: int) -> Seq<char>
    decreases upto,
{
    if upto <= 0 {
        Seq::empty()
    } else {
        pieces(s, upto - 1) + piece(s[upto - 1], next_of(s, upto - 1))
    }
}

/// The prompt for the segments `s`: what is written for each of them, then a
/// reset of colors and style and one space.
pub open spec fn rendered(s: Seq<SegmentView>) -> Seq<char> {
    pieces(s, s.len() as int) + Color::reset_escape() + " "@
}

/// The separator that is drawn after a segment: thin where the next segment
/// has the same background.
pub fn separator_after(cur: &Segment, next: Option<&Segment>) -> (separator: Separator)
    ensures
        separator == shown_separator(cur@, opt_segment(next)),
{
    match next {
        Some(n) => if n.bg == cur.bg {
            Separator::Thin
        } else {
            cur.separator
        },
        None => cur.separator,
    }
}

/// The view of an optional segment.
pub open spec fn opt_segment(segment: Option<&Segment>) -> Option<SegmentView> {
    match segment {
        Some(s) => Some(s@),
        None => None,
    }
}

/// Writes one segment and the separator after it.
fn write_piece(prompt: &mut String, cur: &Segment, next: Option<&Segment>)
    ensures
        final(prompt)@ == old(prompt)@ + piece(cur@, opt_segment(next)),
{
    let ghost before = prompt@;
    let separator = separator_after(cur, next);
    let mut text = cur.fg.set_fg();
    text.append(cur.bg.set_bg().as_str());
    text.append(" ");
    text.append(cur.text.as_str());
    text.append(" ");
    match next {
        Some(n) => text.append(n.bg.set_bg().as_str()),
        None => text.append(Color::reset_colors().as_str()),
    }
    text.append(cur.bg.set_fg().as_str());
    text.append(separator.to_string().as_str());
    assert(text@ =~= piece(cur@, opt_segment(next)));
    prompt.append(text.as_str());
}

/// Renders the segments as one prompt.
pub fn render(segments: &Vec<Segment>) -> (prompt: String)
    ensures
        prompt@ == rendered(views(segments@)),
{
    let ghost s = views(segments@);
    let mut prompt = String::new();
    let mut i: usize = 0;
    while i < segments.len()
        invariant
            i <= segments.len(),
            s == views(segments@),
            prompt@ == pieces(s, i as int),
        decreases segments.len() - i,
    {
        let cur = &segments[i];
        assert(s[i as int] == cur@);
        let next = if i + 1 < segments.len() {
            assert(s[i as int + 1] == segments@[i as int + 1]@);
            Some(&segments[i + 1])
        } else {
            None
        };
        assert(opt_segment(next) == next_of(s, i as int));
        write_piece(&mut prompt, cur, next);
        i += 1;
    }
    prompt.append(Color::reset_colors().as_str());
    prompt.append(" ");
    prompt
}

/// Between two segments of the same background the separator is thin, even
/// where the left one asked for a thick one.
pub proof fn lemma_equal_backgrounds_thin(s: Seq<SegmentView>, i: int)
    requires
        0 <= i,
        i + 1 < s.len(),
        s[i].bg == s[i + 1].bg,
    ensures
        shown_separator(s[i], next_of(s, i)) == Separator::Thin,
        piece(s[i], next_of(s, i)) == s[i].fg.fg_escape() + s[i].bg.bg_escape() + " "@ + s[i].text
            + " "@ + s[i + 1].bg.bg_escape() + s[i].bg.fg_escape() + Separator::Thin.glyph(),
{
}

/// The separator that is shown is the one asked for or a thin one: a thin
/// separator is never made thick.
pub proof fn lemma_never_thicker(cur: SegmentView, next: Option<SegmentView>)
    ensures
        shown_separator(cur, next) == cur.separator || shown_separator(cur, next)
            == Separator::Thin,
        cur.separator == Separator::Thin ==> shown_separator(cur, next) == Separator::Thin,
{
}

/// The last segment of a list is followed by the separator that it asks for
/// itself, on a reset background; the prompt then ends with a reset and one
/// space.
pub proof fn lemma_last_keeps_separator(s: Seq<SegmentView>)
    requires
        s.len() > 0,
    ensures
        shown_separator(s.last(), next_of(s, s.len() - 1)) == s.last().separator,
        rendered(s) == pieces(s, s.len() - 1) + (s.last().fg.fg_escape() + s.last().bg.bg_escape()
            + " "@ + s.last().text + " "@ + Color::reset_escape() + s.last().bg.fg_escape()
            + s.last().separator.glyph()) + Color::reset_escape() + " "@,
{
}

} // verus!
