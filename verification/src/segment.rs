//! Prompt segments and the providers that compute them.
//!
//! Each kind of segment is a module with three types: the provider itself,
//! which implements [`ToSegment`]; `Args`, the provider's arguments from the
//! configuration; and `Theme`, its colors and symbols.

use crate::ansi::Color;
use crate::args::{ArgsBlob, DecodeError};
use crate::{ApplicationState, Separator};
use vstd::prelude::*;

pub mod battery_status;
pub mod command_status;
pub mod git;
pub mod hostname;
pub mod path;
pub mod paths;
pub mod rvm;
pub mod screen;
pub mod username;
pub mod vcs;

verus! {

/// A rendered segment.
#[derive(Clone, Debug, PartialEq, Eq)]
pub struct Segment {
    /// Background color
    pub bg: Color,
    /// Foreground color
    pub fg: Color,
    /// Text to be rendered
    pub text: String,
    /// The separator asked for after the segment.
    pub separator: Separator,
    /// Where the segment comes from; shown when a segment is dumped.
    pub source: &'static str,
}

/// What a segment is, with its texts as sequences of characters.
pub struct SegmentView {
    pub bg: Color,
    pub fg: Color,
    pub text: Seq<char>,
    pub separator: Separator,
    pub source: Seq<char>,
}

impl View for Segment {
    type V = SegmentView;

    open spec fn view(&self) -> SegmentView {
        SegmentView {
            bg: self.bg,
            fg: self.fg,
            text: self.text@,
            separator: self.separator,
            source: self.source@,
        }
    }
}

/// The views of a list of segments.
pub open spec fn views(s: Seq<Segment>) -> Seq<SegmentView> {
    s.map_values(|x: Segment| x@)
}

/// Why a provider gave no segments.
#[derive(Copy, Clone, Debug, PartialEq, Eq, Structural)]
pub enum SegmentError {
    /// No provider has the configured name.
    UnknownSegment,
    /// The argument block was refused.
    BadArgs(DecodeError),
    /// `$USER` is not set.
    NoUser,
    /// `$hostname` is not set.
    NoHostname,
    /// `$PWD` is not set.
    NoWorkingDirectory,
    /// `$HOME` is not set.
    NoHome,
    /// `$STY` does not name a screen session.
    BadScreenSession,
    /// The repository is bare.
    BareRepository,
    /// The stashes could not be listed.
    NoStashes,
    /// The current branch could not be resolved.
    NoBranch,
    /// The distance to the upstream branch could not be computed.
    NoTracking,
    /// The status of the working tree could not be read.
    NoStatus,
    /// The progress of the rebase could not be read.
    NoRebaseProgress,
    /// No battery could be read.
    NoBattery,
    /// The battery is in a state that has no symbol.
    UnknownBatteryState,
    /// A variable that RVM sets is missing.
    NoRvm,
    /// The current ruby version could not be parsed.
    BadRubyVersion,
    /// The requested ruby version could not be parsed.
    BadRequestedRubyVersion,
}

/// The views of two lists in a row are the views of the first followed by
/// the views of the second.
pub proof fn lemma_views_add(a: Seq<Segment>, b: Seq<Segment>)
    ensures
        views(a + b) == views(a) + views(b),
{
    assert(views(a + b) =~= views(a) + views(b));
}

/// Appending a segment to a list appends its view to the list's views.
pub proof fn lemma_views_push(s: Seq<Segment>, x: Segment)
    ensures
        views(s.push(x)) == views(s).push(x@),
{
    assert(views(s.push(x)) =~= views(s).push(x@));
}

/// What a provider returned, with the segments by their views.
pub open spec fn outcome(r: Result<Vec<Segment>, SegmentError>) -> Result<
    Seq<SegmentView>,
    SegmentError,
> {
    match r {
        Ok(v) => Ok(views(v@)),
        Err(e) => Err(e),
    }
}

/// The segments that the provider `P` gives for an argument block as the
/// configuration holds it: those for the decoded arguments, or the refusal of
/// the block.
pub open spec fn generic_segments<P: ToSegment>(
    json: Option<&ArgsBlob>,
    state: &ApplicationState,
) -> Result<Seq<SegmentView>, SegmentError> {
    match json {
        Some(blob) => match P::decoded(*blob) {
            Ok(args) => P::segments(Some(args), state),
            Err(e) => Err(SegmentError::BadArgs(e)),
        },
        None => P::segments(None, state),
    }
}

/// What every provider can do.
pub trait ToSegment: Sized {
    /// The provider's arguments.
    type Args;

    /// The provider's colors and symbols.
    type Theme;

    /// The arguments that an argument block stands for.
    spec fn decoded(blob: ArgsBlob) -> Result<Self::Args, DecodeError>;

    /// The segments that the provider gives for `args` in `state`.
    spec fn segments(args: Option<Self::Args>, state: &ApplicationState) -> Result<
        Seq<SegmentView>,
        SegmentError,
    >;

    /// Reads the provider's arguments from an argument block.
    fn decode(blob: &ArgsBlob) -> (r: Result<Self::Args, DecodeError>)
        ensures
            r == Self::decoded(*blob),
    ;

    /// Computes the provider's segments.
    fn to_segment(args: Option<Self::Args>, state: &ApplicationState) -> (r: Result<
        Vec<Segment>,
        SegmentError,
    >)
        ensures
            outcome(r) == Self::segments(args, state),
    ;

    /// Decodes the argument block, if there is one, and computes the segments.
    fn to_segment_generic(json: Option<&ArgsBlob>, state: &ApplicationState) -> (r: Result<
        Vec<Segment>,
        SegmentError,
    >)
        ensures
            outcome(r) == (match json {
                Some(blob) => match Self::decoded(*blob) {
                    Ok(args) => Self::segments(Some(args), state),
                    Err(e) => Err(SegmentError::BadArgs(e)),
                },
                None => Self::segments(None, state),
            }),
    {
        let args = match json {
            Some(blob) => {
                match Self::decode(blob) {
                    Ok(args) => Some(args),
                    Err(e) => {
                        return Err(SegmentError::BadArgs(e));
                    },
                }
            },
            None => None,
        };
        Self::to_segment(args, state)
    }
}

} // verus!
