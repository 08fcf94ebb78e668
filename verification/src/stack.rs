//! Filtering and layout of the captured frames for the report.
//!
//! The reporter recognizes three verbosity levels from the environment's
//! backtrace variable: unset asks for no listing, just a one-line hint; the
//! designated full keyword asks for the whole capture; any other value asks
//! for a listing trimmed to the frames between the subsystem's own entry
//! and the standard library's short-backtrace boundary.

use crate::frames::Frame;
use crate::text::{contains_seq, str_contains, str_eq};
use vstd::prelude::*;

verus! {

/// How much of the capture the report shows.
#[derive(Clone, Copy, Debug, PartialEq, Eq, Structural)]
pub enum Verbosity {
    /// No symbolication: only the hint that a backtrace can be requested.
    Quiet,
    /// Symbolicate, then keep only the frames between the subsystem's own
    /// entry and the short-backtrace boundary.
    Trimmed,
    /// Symbolicate the whole capture.
    Full,
}

/// The verbosity the backtrace variable chooses: unset asks for the hint
/// alone, the full keyword for the whole capture, anything else for the
/// trimmed listing.
pub open spec fn spec_verbosity(value: Option<Seq<char>>) -> Verbosity {
    match value {
        Option::None => Verbosity::Quiet,
        Option::Some(v) => if v == "full"@ {
            Verbosity::Full
        } else {
            Verbosity::Trimmed
        },
    }
}

/// The view of an optional environment value.
pub open spec fn opt_view(value: Option<&str>) -> Option<Seq<char>> {
    match value {
        Option::Some(s) => Option::Some(s@),
        Option::None => Option::None,
    }
}

/// Decide the verbosity from the backtrace variable's value, `None` when
/// the variable is unset.
pub fn verbosity_from_env(value: Option<&str>) -> (v: Verbosity)
    ensures
        v == spec_verbosity(opt_view(value)),
{
    match value {
        Some(s) => if str_eq(s, "full") {
            Verbosity::Full
        } else {
            Verbosity::Trimmed
        },
        None => Verbosity::Quiet,
    }
}

/// The frame's resolved name equals `needle`; a frame that resolved to no
/// name passes every test.
pub open spec fn frame_matches_name(f: Frame, needle: Seq<char>) -> bool {
    match f.name {
        Option::Some(n) => n@ == needle,
        Option::None => true,
    }
}

/// The frame's resolved name mentions `needle`; a frame that resolved to no
/// name passes every test.
pub open spec fn frame_mentions(f: Frame, needle: Seq<char>) -> bool {
    match f.name {
        Option::Some(n) => contains_seq(n@, needle),
        Option::None => true,
    }
}

/// Apply a predicate to a frame's resolved symbol name. A frame that never
/// resolved to a name passes any predicate, so an unsymbolicated capture is
/// never silently dropped.
pub fn resolve<F: Fn(&str) -> bool + Copy>(frame: &Frame, predicate: F) -> (r: bool)
    requires
        forall|s: &str| #[trigger] predicate.requires((s,)),
    ensures
        match frame.name {
            Option::Some(n) => exists|s: &str| s@ == n@ && #[trigger] predicate.ensures((s,), r),
            Option::None => r == true,
        },
{
    match &frame.name {
        Some(n) => predicate(n.as_str()),
        None => true,
    }
}

/// Whether the frame's name equals `needle` (or the frame has no name).
pub fn frame_matches_exact(frame: &Frame, needle: &str) -> (r: bool)
    ensures
        r == frame_matches_name(*frame, needle@),
{
    let p = |s: &str| -> (b: bool)
        ensures
            b == (s@ == needle@),
        { str_eq(s, needle) };
    let r = resolve(frame, p);
    proof {
        match &frame.name {
            Option::Some(n) => {
                let s = choose|s: &str| s@ == n@ && p.ensures((s,), r);
                assert(r == (n@ == needle@));
            },
            Option::None => {},
        }
    }
    r
}

/// Whether the frame's name mentions `needle` (or the frame has no name).
pub fn frame_mentions_needle(frame: &Frame, needle: &str) -> (r: bool)
    ensures
        r == frame_mentions(*frame, needle@),
{
    let p = |s: &str| -> (b: bool)
        ensures
            b == contains_seq(s@, needle@),
        { str_contains(s, needle) };
    let r = resolve(frame, p);
    proof {
        match &frame.name {
            Option::Some(n) => {
                let s = choose|s: &str| s@ == n@ && p.ensures((s,), r);
                assert(r == contains_seq(n@, needle@));
            },
            Option::None => {},
        }
    }
    r
}

/// The least index at or after `i` of a frame satisfying `pred`, or the
/// length when there is none.
pub open spec fn first_index_where(frames: Seq<Frame>, pred: spec_fn(Frame) -> bool, i: int) -> int
    decreases frames.len() - i,
        when 0 <= i <= frames.len()
{
    if i >= frames.len() {
        frames.len() as int
    } else if pred(frames[i]) {
        i
    } else {
        first_index_where(frames, pred, i + 1)
    }
}

/// `first_index_where` is exactly the least such index: a scan that saw no
/// hit strictly before `j`, and a hit (or the end) at `j`, found it.
pub proof fn lemma_first_index_where(
    frames: Seq<Frame>,
    pred: spec_fn(Frame) -> bool,
    i: int,
    j: int,
)
    requires
        0 <= i <= j <= frames.len(),
        forall|k: int| i <= k < j ==> !#[trigger] pred(frames[k]),
        j == frames.len() || pred(frames[j]),
    ensures
        first_index_where(frames, pred, i) == j,
    decreases j - i,
{
    if i < j {
        lemma_first_index_where(frames, pred, i + 1, j);
    }
}

/// A frame naming the subsystem's entry sentinel.
pub open spec fn name_pred(needle: Seq<char>) -> spec_fn(Frame) -> bool {
    |f: Frame| frame_matches_name(f, needle)
}

/// A frame mentioning a boundary marker.
pub open spec fn mention_pred(needle: Seq<char>) -> spec_fn(Frame) -> bool {
    |f: Frame| frame_mentions(f, needle)
}

/// The marker the standard library plants under a program's entry point;
/// everything at or after the first frame mentioning it is scaffolding.
pub open spec fn spec_boundary_marker() -> Seq<char> {
    "__rust_begin_short_backtrace"@
}

/// The executable boundary marker.
pub fn boundary_marker() -> (s: &'static str)
    ensures
        s@ == spec_boundary_marker(),
{
    "__rust_begin_short_backtrace"
}

/// The index range a trimmed listing keeps: everything after the first
/// frame naming the entry sentinel, up to the first later frame mentioning
/// the boundary marker — or the whole capture when the entry sentinel never
/// occurs, in which case the boundary is not even looked for.
pub open spec fn spec_selection(frames: Seq<Frame>, entry: Seq<char>, boundary: Seq<char>) -> (
    int,
    int,
) {
    let hit = first_index_where(frames, name_pred(entry), 0);
    if hit == frames.len() {
        (0, frames.len() as int)
    } else {
        let start = hit + 1;
        (start, first_index_where(frames, mention_pred(boundary), start))
    }
}

/// What the reporter writes for one fault episode.
pub struct ReportLayout {
    /// The frames to symbolicate and list, in capture order.
    pub frames: Vec<Frame>,
    /// Whether to add the note that frames were omitted and a fuller
    /// listing can be requested.
    pub omitted_note: bool,
    /// Whether the report is only the hint that a backtrace can be
    /// requested at all.
    pub hint_only: bool,
}

/// Lay the report out: the hint alone when the verbosity asks for quiet,
/// the whole capture for the full keyword, and the trimmed range otherwise.
/// `entry_sentinel` is the platform's name for the subsystem's own entry
/// frame.
pub fn plan_report(frames: Vec<Frame>, verbosity: Verbosity, entry_sentinel: &str) -> (r:
    ReportLayout)
    ensures
        verbosity == Verbosity::Quiet ==> r.hint_only && !r.omitted_note && r.frames@
            == Seq::<Frame>::empty(),
        verbosity == Verbosity::Full ==> !r.hint_only && !r.omitted_note && r.frames@ == frames@,
        verbosity == Verbosity::Trimmed ==> !r.hint_only && r.omitted_note && r.frames@ == frames@
            .subrange(
            spec_selection(frames@, entry_sentinel@, spec_boundary_marker()).0,
            spec_selection(frames@, entry_sentinel@, spec_boundary_marker()).1,
        ),
{
    match verbosity {
        Verbosity::Quiet => ReportLayout { frames: Vec::new(), omitted_note: false, hint_only: true },
        Verbosity::Full => ReportLayout { frames, omitted_note: false, hint_only: false },
        Verbosity::Trimmed => {
            let n = frames.len();
            let mut i: usize = 0;
            let mut hit: usize = n;
            while i < n && hit == n
                invariant
                    n == frames@.len(),
                    i <= n,
                    forall|k: int|
                        0 <= k < i ==> !#[trigger] frame_matches_name(
                            frames@[k],
                            entry_sentinel@,
                        ),
                    hit == n || (hit == i && i < n && frame_matches_name(
                        frames@[hit as int],
                        entry_sentinel@,
                    )),
                decreases n - i + (if hit == n { 1int } else { 0int }),
            {
                if frame_matches_exact(&frames[i], entry_sentinel) {
                    hit = i;
                } else {
                    i = i + 1;
                }
            }
            proof {
                if hit == n {
                    lemma_first_index_where(frames@, name_pred(entry_sentinel@), 0, n as int);
                } else {
                    lemma_first_index_where(frames@, name_pred(entry_sentinel@), 0, hit as int);
                }
            }
            let ghost selection = spec_selection(frames@, entry_sentinel@, spec_boundary_marker());
            let start: usize = if hit == n { 0 } else { hit + 1 };
            let bm = boundary_marker();
            let mut stop: usize = n;
            if hit < n {
                let mut j: usize = start;
                while j < n && stop == n
                    invariant
                        n == frames@.len(),
                        bm@ == spec_boundary_marker(),
                        start <= j <= n,
                        forall|k: int|
                            start <= k < j ==> !#[trigger] frame_mentions(
                                frames@[k],
                                spec_boundary_marker(),
                            ),
                        stop == n || (stop == j && j < n && frame_mentions(
                            frames@[stop as int],
                            spec_boundary_marker(),
                        )),
                    decreases n - j + (if stop == n { 1int } else { 0int }),
                {
                    if frame_mentions_needle(&frames[j], bm) {
                        stop = j;
                    } else {
                        j = j + 1;
                    }
                }
                proof {
                    if stop == n {
                        lemma_first_index_where(
                            frames@,
                            mention_pred(spec_boundary_marker()),
                            start as int,
                            n as int,
                        );
                    } else {
                        lemma_first_index_where(
                            frames@,
                            mention_pred(spec_boundary_marker()),
                            start as int,
                            stop as int,
                        );
                    }
                }
            }
            proof {
                assert(selection.0 == start);
                assert(selection.1 == stop);
            }
            let mut kept: Vec<Frame> = Vec::new();
            let mut k: usize = start;
            while k < stop
                invariant
                    n == frames@.len(),
                    start <= k <= stop <= n,
                    kept@ =~= frames@.subrange(start as int, k as int),
                decreases stop - k,
            {
                kept.push(frames[k].duplicate());
                proof {
                    assert(frames@.subrange(start as int, (k + 1) as int) =~= frames@.subrange(
                        start as int,
                        k as int,
                    ).push(frames@[k as int]));
                }
                k = k + 1;
            }
            proof {
                assert(kept@ =~= frames@.subrange(selection.0, selection.1));
            }
            ReportLayout { frames: kept, omitted_note: true, hint_only: false }
        },
    }
}

} // verus!
