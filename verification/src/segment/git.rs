//! The `Git` segment shows the state of a git repository.
//!
//! It gives, in this order and each only where it applies: the current
//! branch, the distance to the upstream branch, an operation in progress, and
//! the numbers of staged, changed, untracked and stashed items.
//!
//! The provider works on a [`Snapshot`]: what was read from the repository
//! before the prompt is computed.

use crate::args::{flag_at, flag_of, read_fields, slots_after, ArgField, ArgsBlob, DecodeError, FieldKind};
use crate::segment::vcs::Theme as VcsTheme;
use crate::segment::{lemma_views_push, views, Segment, SegmentError, SegmentView, ToSegment};
use crate::text::{
    concat2, concat3, decimal, decimal_string, parse_bounded, parse_number, trim_trailing,
    without_trailing,
};
use crate::{ApplicationState, Separator};
use vstd::prelude::*;

verus! {

pub struct Git {}

/// Arguments for the [`Git`] segment.
#[derive(Copy, Clone, Debug, PartialEq, Eq, Structural)]
pub struct Args {
    /// Whether the git badge stands before the branch. The badge is shown
    /// whatever this says: to leave it out, set the symbol to nothing.
    pub show_vcs_badge: bool,
    /// Show the number of stashes after the untracked items.
    pub show_stash: bool,
    /// Whether to show a segment when an operation is in progress. The
    /// options below choose among the operations.
    pub show_in_progress: bool,
    /// Show a segment if we're bisecting.
    pub show_bisect: bool,
    /// Show a segment if we're picking cherries.
    pub show_cherry_pick: bool,
    /// Show a segment if we're mid-merge.
    pub show_merge: bool,
    /// Show a segment if we're in the middle of a rebase.
    pub show_rebase: bool,
}

/// High level statistics for a repository.
#[derive(Copy, Clone, Debug, PartialEq, Eq, Structural)]
pub struct Stats {
    /// Number of files with unstaged changes
    pub changed: usize,
    /// Number of files with conflicts
    pub conflicted: usize,
    /// Number of files staged for commit
    pub staged: usize,
    /// Number of untracked files
    pub untracked: usize,
    /// Number of stashes
    pub stashed: usize,
}

/// What `HEAD` was found to be.
#[derive(Clone, Debug, PartialEq, Eq)]
pub enum Head {
    /// A branch, with its short name.
    Named(String),
    /// A reference whose name cannot be shown.
    Unnamed,
    /// A commit that no branch points to.
    Detached,
    /// A branch without commits, or one that does not exist.
    Unborn,
    /// `HEAD` could not be resolved for another reason.
    Failed,
}

/// How far the current branch is from its upstream branch, or where finding
/// that out stopped.
#[derive(Copy, Clone, Debug, PartialEq, Eq, Structural)]
pub enum Tracking {
    /// Whether `HEAD` is detached could not be told.
    Unknown,
    /// `HEAD` is detached.
    Detached,
    /// `HEAD` does not resolve, as in a repository without commits.
    NoHead,
    /// `HEAD` has no short name.
    NoShorthand,
    /// No local branch has the name of `HEAD`.
    NoLocalBranch,
    /// `HEAD` points to no commit.
    NoTarget,
    /// The branch has no upstream branch.
    NoUpstream,
    /// The upstream branch points to no commit.
    NoUpstreamTarget,
    /// The distance could not be computed.
    NoDistance,
    /// The number of commits that only the branch has, and the number that
    /// only the upstream branch has.
    Distance { ahead: usize, behind: usize },
}

/// The operation that a repository is in the middle of.
#[derive(Copy, Clone, Debug, PartialEq, Eq, Structural)]
pub enum Operation {
    Clean,
    Merge,
    Revert,
    RevertSequence,
    CherryPick,
    CherryPickSequence,
    Bisect,
    Rebase,
    RebaseInteractive,
    RebaseMerge,
    ApplyMailbox,
    ApplyMailboxOrRebase,
}

/// What was read from a repository.
#[derive(Clone, Debug, PartialEq, Eq)]
pub struct Snapshot {
    /// Whether the repository has no working tree.
    pub bare: bool,
    /// The status flags of each entry of the status list, or `None` where
    /// the list could not be read.
    pub statuses: Option<Vec<u32>>,
    /// The number of stashes, or `None` where they could not be listed.
    pub stashes: Option<usize>,
    pub head: Head,
    pub tracking: Tracking,
    pub operation: Operation,
    /// During an interactive rebase, the content of the file that counts its
    /// steps; `None` where it could not be read.
    pub rebase_total: Option<String>,
    /// During an interactive rebase, the content of the file that counts the
    /// steps done; `None` where it could not be read.
    pub rebase_done: Option<String>,
}

// ---------------------------------------------------------------------------
// Status flags
// ---------------------------------------------------------------------------

/// The entry is new in the index.
pub const INDEX_NEW: u32 = 0x0001;

/// The entry is modified in the index.
pub const INDEX_MODIFIED: u32 = 0x0002;

/// The entry is deleted in the index.
pub const INDEX_DELETED: u32 = 0x0004;

/// The entry is renamed in the index.
pub const INDEX_RENAMED: u32 = 0x0008;

/// The entry's type has changed in the index.
pub const INDEX_TYPECHANGE: u32 = 0x0010;

/// The entry is new in the working tree.
pub const WT_NEW: u32 = 0x0080;

/// The entry is modified in the working tree.
pub const WT_MODIFIED: u32 = 0x0100;

/// The entry is deleted in the working tree.
pub const WT_DELETED: u32 = 0x0200;

/// The entry's type has changed in the working tree.
pub const WT_TYPECHANGE: u32 = 0x0400;

/// The entry is renamed in the working tree.
pub const WT_RENAMED: u32 = 0x0800;

/// Any change in the index.
pub const INDEX_ANY: u32 = 0x001f;

/// Any change to a tracked file in the working tree.
pub const WT_ANY: u32 = 0x0f00;

/// An entry is untracked where it is new in the working tree and nothing
/// else.
pub open spec fn is_untracked(flags: u32) -> bool {
    flags == WT_NEW
}

/// An entry is staged where the index holds a change of it.
pub open spec fn is_staged(flags: u32) -> bool {
    flags & INDEX_ANY != 0
}

/// An entry is changed where the working tree holds a change of it and the
/// index holds none.
pub open spec fn is_changed(flags: u32) -> bool {
    flags & INDEX_ANY == 0 && flags & WT_ANY != 0
}

/// How many of the entries are untracked.
pub open spec fn untracked_count(s: Seq<u32>) -> nat
    decreases s.len(),
{
    if s.len() == 0 {
        0
    } else {
        untracked_count(s.drop_last()) + if is_untracked(s.last()) {
            1nat
        } else {
            0nat
        }
    }
}

/// How many of the entries are staged.
pub open spec fn staged_count(s: Seq<u32>) -> nat
    decreases s.len(),
{
    if s.len() == 0 {
        0
    } else {
        staged_count(s.drop_last()) + if is_staged(s.last()) {
            1nat
        } else {
            0nat
        }
    }
}

/// How many of the entries are changed.
pub open spec fn changed_count(s: Seq<u32>) -> nat
    decreases s.len(),
{
    if s.len() == 0 {
        0
    } else {
        changed_count(s.drop_last()) + if is_changed(s.last()) {
            1nat
        } else {
            0nat
        }
    }
}

/// The statistics of a status list and a number of stashes. No entry counts
/// as conflicted.
pub open spec fn stats_of(statuses: Seq<u32>, stashes: usize) -> Stats {
    Stats {
        changed: changed_count(statuses) as usize,
        conflicted: 0,
        staged: staged_count(statuses) as usize,
        untracked: untracked_count(statuses) as usize,
        stashed: stashes,
    }
}

/// No entry is counted twice: an entry is untracked, staged, changed or none
/// of these.
pub proof fn lemma_buckets_disjoint(s: Seq<u32>)
    ensures
        untracked_count(s) + staged_count(s) + changed_count(s) <= s.len(),
    decreases s.len(),
{
    if s.len() > 0 {
        lemma_buckets_disjoint(s.drop_last());
        let flags = s.last();
        assert(flags == 0x0080u32 ==> flags & 0x001fu32 == 0 && flags & 0x0f00u32 == 0)
            by (bit_vector);
    }
}

/// Sorts the entries of a status list into untracked, staged and changed in
/// one pass.
pub fn scan(statuses: &Vec<u32>, stashes: usize) -> (stats: Stats)
    ensures
        stats == stats_of(statuses@, stashes),
        stats.untracked == untracked_count(statuses@),
        stats.staged == staged_count(statuses@),
        stats.changed == changed_count(statuses@),
{
    let mut untracked: usize = 0;
    let mut staged: usize = 0;
    let mut changed: usize = 0;
    let mut i: usize = 0;
    while i < statuses.len()
        invariant
            i <= statuses.len(),
            untracked <= i,
            staged <= i,
            changed <= i,
            untracked == untracked_count(statuses@.take(i as int)),
            staged == staged_count(statuses@.take(i as int)),
            changed == changed_count(statuses@.take(i as int)),
        decreases statuses.len() - i,
    {
        assert(statuses@.take(i as int + 1).drop_last() =~= statuses@.take(i as int));
        let flags = statuses[i];
        if flags == WT_NEW {
            untracked += 1;
        }
        if flags & INDEX_ANY != 0 {
            staged += 1;
        } else if flags & WT_ANY != 0 {
            changed += 1;
        }
        i += 1;
    }
    assert(statuses@.take(i as int) =~= statuses@);
    Stats { changed, conflicted: 0, staged, untracked, stashed: stashes }
}

impl Stats {
    /// Whether anything is changed, conflicted, staged or untracked. Stashes
    /// do not count.
    pub open spec fn is_dirty(&self) -> bool {
        self.changed + self.conflicted + self.staged + self.untracked > 0
    }

    /// Returns true if there are local modifications, conflicts, staged, or
    /// new files.
    pub fn dirty(&self) -> (filthy: bool)
        ensures
            filthy == self.is_dirty(),
    {
        self.changed > 0 || self.conflicted > 0 || self.staged > 0 || self.untracked > 0
    }
}

// ---------------------------------------------------------------------------
// Arguments
// ---------------------------------------------------------------------------

impl Args {
    /// The arguments of a segment that is configured without any.
    pub open spec fn initial() -> Args {
        Args {
            show_vcs_badge: true,
            show_stash: true,
            show_in_progress: true,
            show_bisect: true,
            show_cherry_pick: true,
            show_merge: true,
            show_rebase: true,
        }
    }
}

impl Default for Args {
    fn default() -> (args: Self)
        ensures
            args == Args::initial(),
    {
        Args {
            show_vcs_badge: true,
            show_stash: true,
            show_in_progress: true,
            show_bisect: true,
            show_cherry_pick: true,
            show_merge: true,
            show_rebase: true,
        }
    }
}

/// The names of the fields of [`Args`].
pub open spec fn field_names() -> Seq<&'static str> {
    seq![
        "show_vcs_badge",
        "show_stash",
        "show_in_progress",
        "show_bisect",
        "show_cherry_pick",
        "show_merge",
        "show_rebase",
    ]
}

/// The kinds of the fields of [`Args`].
pub open spec fn field_kinds() -> Seq<FieldKind> {
    seq![
        FieldKind::Flag,
        FieldKind::Flag,
        FieldKind::Flag,
        FieldKind::Flag,
        FieldKind::Flag,
        FieldKind::Flag,
        FieldKind::Flag,
    ]
}

/// The arguments that the members of an argument block stand for.
pub open spec fn args_of(fields: Seq<ArgField>) -> Result<Args, DecodeError> {
    match slots_after(fields, field_names(), field_kinds(), fields.len() as int) {
        Err(e) => Err(e),
        Ok(slots) => Ok(
            Args {
                show_vcs_badge: flag_at(fields, slots[0], true),
                show_stash: flag_at(fields, slots[1], true),
                show_in_progress: flag_at(fields, slots[2], true),
                show_bisect: flag_at(fields, slots[3], true),
                show_cherry_pick: flag_at(fields, slots[4], true),
                show_merge: flag_at(fields, slots[5], true),
                show_rebase: flag_at(fields, slots[6], true),
            },
        ),
    }
}

// ---------------------------------------------------------------------------
// The segments
// ---------------------------------------------------------------------------

/// The name shown for `HEAD`: the branch's short name, or a placeholder
/// where there is none to show.
pub open spec fn head_name(head: Head) -> Seq<char> {
    match head {
        Head::Named(name) => name@,
        _ => "HEAD (no branch)"@,
    }
}

/// The branch segment: the badge, a space and the name of `HEAD`, in the
/// dirty colors where the working tree is dirty and in the clean ones where
/// it is not. There is none where `HEAD` could not be resolved.
pub open spec fn branch_segments(head: Head, stats: Stats, theme: &VcsTheme) -> Seq<SegmentView> {
    match head {
        Head::Failed => Seq::empty(),
        _ => seq![
            SegmentView {
                bg: if stats.is_dirty() {
                    theme.repo_dirty_bg
                } else {
                    theme.repo_clean_bg
                },
                fg: if stats.is_dirty() {
                    theme.repo_dirty_fg
                } else {
                    theme.repo_clean_fg
                },
                separator: Separator::Thick,
                text: theme.symbols.git@ + " "@ + head_name(head),
                source: "Git::Branch"@,
            },
        ],
    }
}

/// The segment for commits that the upstream branch lacks. Its separator is
/// thin where a segment for the other direction follows.
pub open spec fn ahead_segment(ahead: usize, behind: usize, theme: &VcsTheme) -> SegmentView {
    SegmentView {
        bg: theme.git_ahead_bg,
        fg: theme.git_ahead_fg,
        separator: if behind > 0 {
            Separator::Thin
        } else {
            Separator::Thick
        },
        text: decimal(ahead as nat) + theme.symbols.ahead@,
        source: "Git::Ahead"@,
    }
}

/// The segment for commits that only the upstream branch has.
pub open spec fn behind_segment(behind: usize, theme: &VcsTheme) -> SegmentView {
    SegmentView {
        bg: theme.git_behind_bg,
        fg: theme.git_behind_fg,
        separator: Separator::Thick,
        text: decimal(behind as nat) + theme.symbols.behind@,
        source: "Git::Behind"@,
    }
}

/// The segments for the distance to the upstream branch: one for each
/// direction in which the distance is not zero.
pub open spec fn tracking_segments(tracking: Tracking, theme: &VcsTheme) -> Seq<SegmentView> {
    match tracking {
        Tracking::Distance { ahead, behind } => (if ahead > 0 {
            seq![ahead_segment(ahead, behind, theme)]
        } else {
            Seq::empty()
        }) + (if behind > 0 {
            seq![behind_segment(behind, theme)]
        } else {
            Seq::empty()
        }),
        _ => Seq::empty(),
    }
}

/// A branch that differs from its upstream branch in both directions gives
/// two segments, the first with a thin separator and the second with a
/// thick one; a branch that differs in one direction gives one segment with
/// a thick separator, which reads the number of commits and the symbol of
/// the direction; a branch that does not differ gives none.
pub proof fn lemma_distance_segments(ahead: usize, behind: usize, theme: &VcsTheme)
    ensures
        ({
            let s = tracking_segments(Tracking::Distance { ahead, behind }, theme);
            &&& (ahead > 0 && behind > 0 ==> s.len() == 2 && s[0].separator == Separator::Thin
                && s[1].separator == Separator::Thick && s[0].text == decimal(ahead as nat)
                + theme.symbols.ahead@ && s[1].text == decimal(behind as nat)
                + theme.symbols.behind@)
            &&& (ahead > 0 && behind == 0 ==> s.len() == 1 && s[0].separator == Separator::Thick
                && s[0].text == decimal(ahead as nat) + theme.symbols.ahead@)
            &&& (ahead == 0 && behind > 0 ==> s.len() == 1 && s[0].separator == Separator::Thick
                && s[0].text == decimal(behind as nat) + theme.symbols.behind@)
            &&& (ahead == 0 && behind == 0 ==> s.len() == 0)
        }),
{
}

/// Whether finding the distance stopped at something that is out of order.
/// A detached `HEAD`, a repository without commits, a branch without
/// upstream and a distance that cannot be computed are in order.
pub open spec fn tracking_failed(tracking: Tracking) -> bool {
    match tracking {
        Tracking::Unknown => true,
        Tracking::NoShorthand => true,
        Tracking::NoLocalBranch => true,
        Tracking::NoTarget => true,
        Tracking::NoUpstreamTarget => true,
        _ => false,
    }
}

/// The number that one of the rebase counters holds: its text without the
/// newlines at its end, read as a decimal number.
pub open spec fn rebase_counter(text: Option<String>) -> Option<nat> {
    match text {
        Some(t) => parse_bounded(without_trailing(t@, '\n'), usize::MAX as nat),
        None => None,
    }
}

/// The text of an interactive rebase: the steps done and the steps in all.
pub open spec fn rebase_text(done: nat, total: nat) -> Seq<char> {
    "int rebase "@ + decimal(done) + "/"@ + decimal(total)
}

/// A segment for an operation in progress.
pub open spec fn progress_segment(theme: &VcsTheme, text: Seq<char>, source: Seq<char>) -> SegmentView {
    SegmentView {
        fg: theme.git_in_progress_fg,
        bg: theme.git_in_progress_bg,
        separator: Separator::Thick,
        text,
        source,
    }
}

/// The segment for the operation in progress, where there is one and the
/// arguments ask for it. An interactive rebase whose counters cannot be read
/// is an error.
pub open spec fn progress_segments(repo: &Snapshot, args: Args, theme: &VcsTheme) -> Result<
    Seq<SegmentView>,
    SegmentError,
> {
    if !args.show_in_progress {
        Ok(Seq::empty())
    } else {
        match repo.operation {
            Operation::Bisect => if args.show_bisect {
                Ok(seq![progress_segment(theme, "bisect"@, "Git::Bisect"@)])
            } else {
                Ok(Seq::empty())
            },
            Operation::CherryPick | Operation::CherryPickSequence => if args.show_cherry_pick {
                Ok(seq![progress_segment(theme, theme.symbols.cherry_pick@, "Git::CherryPick"@)])
            } else {
                Ok(Seq::empty())
            },
            Operation::Merge => if args.show_merge {
                Ok(seq![progress_segment(theme, "merge"@, "Git::Merge"@)])
            } else {
                Ok(Seq::empty())
            },
            Operation::Rebase | Operation::RebaseMerge => if args.show_rebase {
                Ok(seq![progress_segment(theme, "rebase"@, "Git::Rebase"@)])
            } else {
                Ok(Seq::empty())
            },
            Operation::RebaseInteractive => if args.show_rebase {
                match (rebase_counter(repo.rebase_total), rebase_counter(repo.rebase_done)) {
                    (Some(total), Some(done)) => Ok(
                        seq![progress_segment(theme, rebase_text(done, total), "Git::Rebase"@)],
                    ),
                    _ => Err(SegmentError::NoRebaseProgress),
                }
            } else {
                Ok(Seq::empty())
            },
            _ => Ok(Seq::empty()),
        }
    }
}

/// The segment for a count: the number and the symbol, or nothing where the
/// count is zero.
pub open spec fn count_segments(
    count: usize,
    symbol: Seq<char>,
    fg: crate::ansi::Color,
    bg: crate::ansi::Color,
    source: Seq<char>,
) -> Seq<SegmentView> {
    if count > 0 {
        seq![
            SegmentView {
                fg,
                bg,
                separator: Separator::Thick,
                text: decimal(count as nat) + symbol,
                source,
            },
        ]
    } else {
        Seq::empty()
    }
}

/// The segment for staged files: their number and the theme's symbol.
pub open spec fn staged_segments(stats: Stats, theme: &VcsTheme) -> Seq<SegmentView> {
    count_segments(
        stats.staged,
        theme.symbols.staged@,
        theme.git_staged_fg,
        theme.git_staged_bg,
        "Git::Staged"@,
    )
}

/// The segment for changed files: their number and the theme's symbol.
pub open spec fn changed_segments(stats: Stats, theme: &VcsTheme) -> Seq<SegmentView> {
    count_segments(
        stats.changed,
        theme.symbols.changed@,
        theme.git_changed_fg,
        theme.git_changed_bg,
        "Git::Changed"@,
    )
}

/// The segment for untracked files: their number and the theme's symbol.
pub open spec fn untracked_segments(stats: Stats, theme: &VcsTheme) -> Seq<SegmentView> {
    count_segments(
        stats.untracked,
        theme.symbols.new@,
        theme.git_untracked_fg,
        theme.git_untracked_bg,
        "Git::Untracked"@,
    )
}

/// The segment for stashes: their number and the theme's symbol. It is shown
/// only where the arguments ask for it.
pub open spec fn stashed_segments(stats: Stats, args: Args, theme: &VcsTheme) -> Seq<SegmentView> {
    if args.show_stash {
        count_segments(
            stats.stashed,
            theme.symbols.stash@,
            theme.git_stashed_fg,
            theme.git_stashed_bg,
            "Git::Stashed"@,
        )
    } else {
        Seq::empty()
    }
}

/// The segments of a repository. A bare repository, a status list or stashes
/// that could not be read, and unreadable progress of an interactive rebase
/// are errors; a branch or a distance that could not be found only leaves
/// its own segment out.
pub open spec fn repository_segments(repo: &Snapshot, args: Args, theme: &VcsTheme) -> Result<
    Seq<SegmentView>,
    SegmentError,
> {
    if repo.bare {
        Err(SegmentError::BareRepository)
    } else {
        match (repo.statuses, repo.stashes) {
            (None, _) => Err(SegmentError::NoStatus),
            (Some(_), None) => Err(SegmentError::NoStashes),
            (Some(statuses), Some(stashes)) => {
                let stats = stats_of(statuses@, stashes);
                match progress_segments(repo, args, theme) {
                    Err(e) => Err(e),
                    Ok(progress) => Ok(
                        branch_segments(repo.head, stats, theme) + tracking_segments(
                            repo.tracking,
                            theme,
                        ) + progress + staged_segments(stats, theme) + changed_segments(
                            stats,
                            theme,
                        ) + untracked_segments(stats, theme) + stashed_segments(stats, args, theme),
                    ),
                }
            },
        }
    }
}

fn push_segment(segments: &mut Vec<Segment>, segment: Segment)
    ensures
        views(final(segments)@) == views(old(segments)@).push(segment@),
        final(segments)@ == old(segments)@.push(segment),
{
    proof {
        lemma_views_push(segments@, segment);
    }
    segments.push(segment);
}

fn push_count(
    count: usize,
    symbol: &str,
    fg: crate::ansi::Color,
    bg: crate::ansi::Color,
    source: &'static str,
    segments: &mut Vec<Segment>,
)
    ensures
        views(final(segments)@) == views(old(segments)@) + count_segments(
            count,
            symbol@,
            fg,
            bg,
            source@,
        ),
{
    if count > 0 {
        let text = concat2(decimal_string(count as u128).as_str(), symbol);
        push_segment(segments, Segment { fg, bg, separator: Separator::Thick, text, source });
        assert(views(segments@) =~= views(old(segments)@) + count_segments(
            count,
            symbol@,
            fg,
            bg,
            source@,
        ));
    } else {
        assert(views(segments@) =~= views(old(segments)@) + Seq::<SegmentView>::empty());
    }
}

/// Appends the segment for the operation in progress, if there is one to
/// show.
pub fn seg_in_progress(
    repo: &Snapshot,
    args: &Args,
    theme: &VcsTheme,
    segments: &mut Vec<Segment>,
) -> (r: Result<(), SegmentError>)
    ensures
        match r {
            Ok(()) => progress_segments(repo, *args, theme) is Ok && views(final(segments)@) == views(
                old(segments)@,
            ) + progress_segments(repo, *args, theme)->Ok_0,
            Err(e) => progress_segments(repo, *args, theme) == Err::<Seq<SegmentView>, SegmentError>(
                e,
            ) && final(segments)@ == old(segments)@,
        },
{
    let ghost before = views(segments@);
    let ghost none = Seq::<SegmentView>::empty();
    assert(before + none =~= before);
    if !args.show_in_progress {
        return Ok(());
    }
    let fg = theme.git_in_progress_fg;
    let bg = theme.git_in_progress_bg;
    match repo.operation {
        Operation::Bisect => {
            if args.show_bisect {
                push_segment(
                    segments,
                    Segment {
                        fg,
                        bg,
                        separator: Separator::Thick,
                        text: String::from_str("bisect"),
                        source: "Git::Bisect",
                    },
                );
            }
        },
        Operation::CherryPick | Operation::CherryPickSequence => {
            if args.show_cherry_pick {
                push_segment(
                    segments,
                    Segment {
                        fg,
                        bg,
                        separator: Separator::Thick,
                        text: theme.symbols.cherry_pick.clone(),
                        source: "Git::CherryPick",
                    },
                );
            }
        },
        Operation::Merge => {
            if args.show_merge {
                push_segment(
                    segments,
                    Segment {
                        fg,
                        bg,
                        separator: Separator::Thick,
                        text: String::from_str("merge"),
                        source: "Git::Merge",
                    },
                );
            }
        },
        Operation::Rebase | Operation::RebaseMerge => {
            if args.show_rebase {
                push_segment(
                    segments,
                    Segment {
                        fg,
                        bg,
                        separator: Separator::Thick,
                        text: String::from_str("rebase"),
                        source: "Git::Rebase",
                    },
                );
            }
        },
        Operation::RebaseInteractive => {
            if args.show_rebase {
                let total = match read_counter(&repo.rebase_total) {
                    Some(n) => n,
                    None => {
                        return Err(SegmentError::NoRebaseProgress);
                    },
                };
                let done = match read_counter(&repo.rebase_done) {
                    Some(n) => n,
                    None => {
                        return Err(SegmentError::NoRebaseProgress);
                    },
                };
                let mut text = concat2("int rebase ", decimal_string(done as u128).as_str());
                text.append("/");
                text.append(decimal_string(total as u128).as_str());
                push_segment(
                    segments,
                    Segment { fg, bg, separator: Separator::Thick, text, source: "Git::Rebase" },
                );
            }
        },
        _ => {},
    }
    assert(views(segments@) =~= before + progress_segments(repo, *args, theme)->Ok_0);
    Ok(())
}

fn read_counter(text: &Option<String>) -> (n: Option<u64>)
    ensures
        match n {
            Some(v) => rebase_counter(*text) == Some(v as nat),
            None => rebase_counter(*text) is None,
        },
{
    match text {
        Some(t) => {
            let trimmed = trim_trailing(t.as_str(), '\n');
            parse_number(trimmed.as_str(), usize::MAX as u64)
        },
        None => None,
    }
}

/// Appends the segments for the distance to the upstream branch. Where
/// finding the distance stopped at something out of order, nothing is
/// appended and the result is an error.
pub fn seg_ahead_behind(repo: &Snapshot, theme: &VcsTheme, segments: &mut Vec<Segment>) -> (r: Result<
    (),
    SegmentError,
>)
    ensures
        views(final(segments)@) == views(old(segments)@) + tracking_segments(repo.tracking, theme),
        r is Err <==> tracking_failed(repo.tracking),
        r is Err ==> r == Err::<(), SegmentError>(SegmentError::NoTracking),
{
    let ghost before = views(segments@);
    assert(before + Seq::<SegmentView>::empty() =~= before);
    match repo.tracking {
        Tracking::Distance { ahead, behind } => {
            if ahead > 0 {
                let first_separator = if behind > 0 {
                    Separator::Thin
                } else {
                    Separator::Thick
                };
                let text = concat2(
                    decimal_string(ahead as u128).as_str(),
                    theme.symbols.ahead.as_str(),
                );
                push_segment(
                    segments,
                    Segment {
                        bg: theme.git_ahead_bg,
                        fg: theme.git_ahead_fg,
                        separator: first_separator,
                        text,
                        source: "Git::Ahead",
                    },
                );
            }
            if behind > 0 {
                let text = concat2(
                    decimal_string(behind as u128).as_str(),
                    theme.symbols.behind.as_str(),
                );
                push_segment(
                    segments,
                    Segment {
                        bg: theme.git_behind_bg,
                        fg: theme.git_behind_fg,
                        separator: Separator::Thick,
                        text,
                        source: "Git::Behind",
                    },
                );
            }
            assert(views(segments@) =~= before + tracking_segments(repo.tracking, theme));
            Ok(())
        },
        Tracking::Unknown => Err(SegmentError::NoTracking),
        Tracking::NoShorthand => Err(SegmentError::NoTracking),
        Tracking::NoLocalBranch => Err(SegmentError::NoTracking),
        Tracking::NoTarget => Err(SegmentError::NoTracking),
        Tracking::NoUpstreamTarget => Err(SegmentError::NoTracking),
        _ => Ok(()),
    }
}

/// Appends the segment for untracked files, if there are any.
pub fn seg_untracked(stats: &Stats, theme: &VcsTheme, segments: &mut Vec<Segment>)
    ensures
        views(final(segments)@) == views(old(segments)@) + untracked_segments(*stats, theme),
{
    push_count(
        stats.untracked,
        theme.symbols.new.as_str(),
        theme.git_untracked_fg,
        theme.git_untracked_bg,
        "Git::Untracked",
        segments,
    );
}

/// Appends the segment for changed files, if there are any.
pub fn seg_changed(stats: &Stats, theme: &VcsTheme, segments: &mut Vec<Segment>)
    ensures
        views(final(segments)@) == views(old(segments)@) + changed_segments(*stats, theme),
{
    push_count(
        stats.changed,
        theme.symbols.changed.as_str(),
        theme.git_changed_fg,
        theme.git_changed_bg,
        "Git::Changed",
        segments,
    );
}

/// Appends the segment for staged files, if there are any.
pub fn seg_staged(stats: &Stats, theme: &VcsTheme, segments: &mut Vec<Segment>)
    ensures
        views(final(segments)@) == views(old(segments)@) + staged_segments(*stats, theme),
{
    push_count(
        stats.staged,
        theme.symbols.staged.as_str(),
        theme.git_staged_fg,
        theme.git_staged_bg,
        "Git::Staged",
        segments,
    );
}

/// Appends the segment for stashes, if there are any and they are asked for.
pub fn seg_stashed(stats: &Stats, args: &Args, theme: &VcsTheme, segments: &mut Vec<Segment>)
    ensures
        views(final(segments)@) == views(old(segments)@) + stashed_segments(*stats, *args, theme),
{
    if args.show_stash {
        push_count(
            stats.stashed,
            theme.symbols.stash.as_str(),
            theme.git_stashed_fg,
            theme.git_stashed_bg,
            "Git::Stashed",
            segments,
        );
    } else {
        assert(views(segments@) + Seq::<SegmentView>::empty() =~= views(segments@));
    }
}

/// Appends the branch segment. Where `HEAD` could not be resolved, nothing
/// is appended and the result is an error.
pub fn seg_current_branch(
    repo: &Snapshot,
    stats: &Stats,
    theme: &VcsTheme,
    segments: &mut Vec<Segment>,
) -> (r: Result<(), SegmentError>)
    ensures
        views(final(segments)@) == views(old(segments)@) + branch_segments(repo.head, *stats, theme),
        r is Err <==> repo.head is Failed,
        r is Err ==> r == Err::<(), SegmentError>(SegmentError::NoBranch),
{
    let ghost before = views(segments@);
    let (fg, bg) = if stats.dirty() {
        (theme.repo_dirty_fg, theme.repo_dirty_bg)
    } else {
        (theme.repo_clean_fg, theme.repo_clean_bg)
    };
    let text = match &repo.head {
        Head::Failed => {
            assert(before + Seq::<SegmentView>::empty() =~= before);
            return Err(SegmentError::NoBranch);
        },
        Head::Named(name) => concat3(theme.symbols.git.as_str(), " ", name.as_str()),
        _ => concat3(theme.symbols.git.as_str(), " ", "HEAD (no branch)"),
    };
    push_segment(
        segments,
        Segment { bg, fg, separator: Separator::Thick, text, source: "Git::Branch" },
    );
    assert(views(segments@) =~= before + branch_segments(repo.head, *stats, theme));
    Ok(())
}

/// What was left out of the segments of a repository without failing the
/// provider: the branch where `HEAD` could not be resolved, and the distance
/// where finding it stopped at something out of order.
pub open spec fn skipped(repo: &Snapshot) -> Seq<SegmentError> {
    (if repo.head is Failed {
        seq![SegmentError::NoBranch]
    } else {
        Seq::empty()
    }) + (if tracking_failed(repo.tracking) {
        seq![SegmentError::NoTracking]
    } else {
        Seq::empty()
    })
}

/// The parts of a repository's state that its segments leave out, each as
/// the error that it is logged with.
pub fn skipped_parts(repo: &Snapshot) -> (errors: Vec<SegmentError>)
    ensures
        errors@ == skipped(repo),
{
    let mut errors: Vec<SegmentError> = Vec::new();
    match &repo.head {
        Head::Failed => errors.push(SegmentError::NoBranch),
        _ => {},
    }
    let failed = match repo.tracking {
        Tracking::Unknown => true,
        Tracking::NoShorthand => true,
        Tracking::NoLocalBranch => true,
        Tracking::NoTarget => true,
        Tracking::NoUpstreamTarget => true,
        _ => false,
    };
    if failed {
        errors.push(SegmentError::NoTracking);
    }
    assert(errors@ =~= skipped(repo));
    errors
}

/// The segments of a repository.
pub fn repository_to_segments(repo: &Snapshot, args: &Args, theme: &VcsTheme) -> (r: Result<
    Vec<Segment>,
    SegmentError,
>)
    ensures
        crate::segment::outcome(r) == repository_segments(repo, *args, theme),
{
    if repo.bare {
        return Err(SegmentError::BareRepository);
    }
    let statuses = match &repo.statuses {
        Some(statuses) => statuses,
        None => {
            return Err(SegmentError::NoStatus);
        },
    };
    let stashes = match repo.stashes {
        Some(stashes) => stashes,
        None => {
            return Err(SegmentError::NoStashes);
        },
    };
    let stats = scan(statuses, stashes);
    let mut segments: Vec<Segment> = Vec::new();
    assert(views(segments@) =~= Seq::<SegmentView>::empty());
    let _ = seg_current_branch(repo, &stats, theme, &mut segments);
    let _ = seg_ahead_behind(repo, theme, &mut segments);
    match seg_in_progress(repo, args, theme, &mut segments) {
        Ok(()) => {},
        Err(e) => {
            return Err(e);
        },
    }
    seg_staged(&stats, theme, &mut segments);
    seg_changed(&stats, theme, &mut segments);
    seg_untracked(&stats, theme, &mut segments);
    seg_stashed(&stats, args, theme, &mut segments);
    assert(views(segments@) =~= repository_segments(repo, *args, theme)->Ok_0);
    Ok(segments)
}

impl ToSegment for Git {
    type Args = Args;

    type Theme = VcsTheme;

    open spec fn decoded(blob: ArgsBlob) -> Result<Args, DecodeError> {
        match blob {
            ArgsBlob::Object(fields) => args_of(fields@),
            _ => Err(DecodeError::NotAnObject),
        }
    }

    /// No segments outside a repository; inside one, its segments.
    open spec fn segments(args: Option<Args>, state: &ApplicationState) -> Result<
        Seq<SegmentView>,
        SegmentError,
    > {
        let args = match args {
            Some(a) => a,
            None => Args::initial(),
        };
        match state.host.repository {
            None => Ok(Seq::empty()),
            Some(repo) => repository_segments(&repo, args, &state.theme.vcs),
        }
    }

    fn decode(blob: &ArgsBlob) -> (r: Result<Args, DecodeError>) {
        match blob {
            ArgsBlob::Object(fields) => {
                let names: Vec<&'static str> = vec![
                    "show_vcs_badge",
                    "show_stash",
                    "show_in_progress",
                    "show_bisect",
                    "show_cherry_pick",
                    "show_merge",
                    "show_rebase",
                ];
                let kinds: Vec<FieldKind> = vec![
                    FieldKind::Flag,
                    FieldKind::Flag,
                    FieldKind::Flag,
                    FieldKind::Flag,
                    FieldKind::Flag,
                    FieldKind::Flag,
                    FieldKind::Flag,
                ];
                assert(names@ =~= field_names());
                assert(kinds@ =~= field_kinds());
                match read_fields(fields, &names, &kinds) {
                    Err(e) => Err(e),
                    Ok(slots) => Ok(
                        Args {
                            show_vcs_badge: flag_of(fields, slots[0], true),
                            show_stash: flag_of(fields, slots[1], true),
                            show_in_progress: flag_of(fields, slots[2], true),
                            show_bisect: flag_of(fields, slots[3], true),
                            show_cherry_pick: flag_of(fields, slots[4], true),
                            show_merge: flag_of(fields, slots[5], true),
                            show_rebase: flag_of(fields, slots[6], true),
                        },
                    ),
                }
            },
            _ => Err(DecodeError::NotAnObject),
        }
    }

    fn to_segment(args: Option<Args>, state: &ApplicationState) -> (r: Result<
        Vec<Segment>,
        SegmentError,
    >) {
        let args = match args {
            Some(a) => a,
            None => Args::default(),
        };
        match &state.host.repository {
            None => {
                assert(views(Seq::<Segment>::empty()) =~= Seq::<SegmentView>::empty());
                Ok(Vec::new())
            },
            Some(repo) => repository_to_segments(repo, &args, &state.theme.vcs),
        }
    }
}

} // verus!
