//! Rendering a captured stack and stripping its scaffolding.
//!
//! The fault path renders the captured stack as text, one frame per line,
//! and then trims it: everything before the first line that names this
//! crate is runtime scaffolding above the handler, and everything from the
//! standard library's short-backtrace boundary on is scaffolding below the
//! program's entry point. The capture and the rendering come from the
//! standard library and are opaque; the trimming is this library's own
//! logic, stated and proved exactly, for any text.

use crate::stack::spec_boundary_marker;
use crate::text::{contains_seq, str_contains};
use vstd::prelude::*;

verus! {

#[verifier::external_type_specification]
#[verifier::external_body]
pub struct ExStdBacktrace(std::backtrace::Backtrace);

/// The end of the line beginning at `i`: the position of the next line
/// break at or after `i`, or the end of the text.
pub open spec fn line_end(s: Seq<char>, i: int) -> int
    decreases s.len() - i,
        when 0 <= i <= s.len()
{
    if i >= s.len() {
        s.len() as int
    } else if s[i] == '\n' {
        i
    } else {
        line_end(s, i + 1)
    }
}

/// The end of a line lies between its start and the end of the text.
pub proof fn lemma_line_end_bounds(s: Seq<char>, i: int)
    requires
        0 <= i <= s.len(),
    ensures
        i <= line_end(s, i) <= s.len(),
    decreases s.len() - i,
{
    if i < s.len() && s[i] != '\n' {
        lemma_line_end_bounds(s, i + 1);
    }
}

/// `line_end` is exactly the next break: a scan that saw no break strictly
/// before `j`, and a break (or the end) at `j`, found it.
pub proof fn lemma_line_end_found(s: Seq<char>, i: int, j: int)
    requires
        0 <= i <= j <= s.len(),
        forall|k: int| i <= k < j ==> s[k] != '\n',
        j == s.len() || s[j] == '\n',
    ensures
        line_end(s, i) == j,
    decreases j - i,
{
    if i < j {
        lemma_line_end_found(s, i + 1, j);
    }
}

/// The start of the first line at or after line start `i` that mentions
/// `needle`, or `None` when no later line does.
pub open spec fn first_marked_line_start(s: Seq<char>, needle: Seq<char>, i: int) -> Option<int>
    decreases s.len() - i,
        when 0 <= i <= s.len()
        via first_marked_line_start_decreases
{
    let e = line_end(s, i);
    if contains_seq(s.subrange(i, e), needle) {
        Option::Some(i)
    } else if e >= s.len() {
        Option::None
    } else {
        first_marked_line_start(s, needle, e + 1)
    }
}

#[via_fn]
proof fn first_marked_line_start_decreases(s: Seq<char>, needle: Seq<char>, i: int) {
    lemma_line_end_bounds(s, i);
}

/// Where the kept text ends, the line at `i` being kept: at the end of the
/// text when no further line break follows, and otherwise just after this
/// line's break — extended line by line until the next line mentions
/// `boundary`.
pub open spec fn kept_end(s: Seq<char>, boundary: Seq<char>, i: int) -> int
    decreases s.len() - i,
        when 0 <= i <= s.len()
        via kept_end_decreases
{
    let e = line_end(s, i);
    if e >= s.len() {
        s.len() as int
    } else {
        let next = e + 1;
        if contains_seq(s.subrange(next, line_end(s, next)), boundary) {
            next
        } else {
            kept_end(s, boundary, next)
        }
    }
}

#[via_fn]
proof fn kept_end_decreases(s: Seq<char>, boundary: Seq<char>, i: int) {
    lemma_line_end_bounds(s, i);
}

/// The marker that identifies this crate's own frames in a rendered
/// capture.
pub open spec fn spec_crate_marker() -> Seq<char> {
    "batman"@
}

/// The executable crate marker.
pub fn crate_marker() -> (s: &'static str)
    ensures
        s@ == spec_crate_marker(),
{
    "batman"
}

/// What trimming keeps of a rendered capture: the contiguous segment from
/// the start of the first line naming this crate through the last line
/// before the short-backtrace boundary. A text with no line naming the
/// crate is kept whole — a diagnostic is never thrown away for looking
/// unfamiliar.
pub open spec fn spec_trimmed(s: Seq<char>) -> Seq<char> {
    match first_marked_line_start(s, spec_crate_marker(), 0) {
        Option::Some(start) => s.subrange(start, kept_end(s, spec_boundary_marker(), start)),
        Option::None => s,
    }
}

/// The position of the line break that ends the line beginning at `from`,
/// or the end of the text.
fn find_line_end(text: &str, from: usize) -> (e: usize)
    requires
        from <= text@.len(),
    ensures
        from <= e <= text@.len(),
        e == line_end(text@, from as int),
{
    let n = text.unicode_len();
    let mut i: usize = from;
    while i < n
        invariant
            n == text@.len(),
            from <= i <= n,
            forall|k: int| from <= k < i ==> text@[k] != '\n',
        decreases n - i,
    {
        if text.get_char(i) == '\n' {
            proof {
                lemma_line_end_found(text@, from as int, i as int);
            }
            return i;
        }
        i = i + 1;
    }
    proof {
        lemma_line_end_found(text@, from as int, n as int);
    }
    n
}

/// Strip a rendered capture down to its interesting segment: drop every
/// line before the first one naming this crate, and every line from the
/// short-backtrace boundary on. A text with no line naming the crate is
/// returned whole.
pub fn trim_frames(text: &str) -> (r: String)
    ensures
        r@ == spec_trimmed(text@),
{
    let n = text.unicode_len();
    let marker = crate_marker();
    let mut ls: usize = 0;
    let mut start: usize = 0;
    let mut have_start = false;
    let mut searching = true;
    while searching
        invariant
            n == text@.len(),
            marker@ == spec_crate_marker(),
            ls <= n,
            searching ==> first_marked_line_start(text@, spec_crate_marker(), 0)
                == first_marked_line_start(text@, spec_crate_marker(), ls as int),
            !searching ==> (match first_marked_line_start(text@, spec_crate_marker(), 0) {
                Option::Some(p) => have_start && start == p && start <= n,
                Option::None => !have_start,
            }),
        decreases n - ls + (if searching { 1int } else { 0int }),
    {
        let le = find_line_end(text, ls);
        let line = text.substring_char(ls, le);
        if str_contains(line, marker) {
            start = ls;
            have_start = true;
            searching = false;
        } else if le >= n {
            have_start = false;
            searching = false;
        } else {
            ls = le + 1;
        }
    }
    if !have_start {
        let r = text.to_owned();
        return r;
    }
    let boundary = crate::stack::boundary_marker();
    let mut cur: usize = start;
    let mut end: usize = n;
    let mut scanning = true;
    while scanning
        invariant
            n == text@.len(),
            boundary@ == spec_boundary_marker(),
            start <= cur <= n,
            scanning ==> kept_end(text@, spec_boundary_marker(), start as int) == kept_end(
                text@,
                spec_boundary_marker(),
                cur as int,
            ),
            !scanning ==> start <= end <= n && end == kept_end(
                text@,
                spec_boundary_marker(),
                start as int,
            ),
        decreases n - cur + (if scanning { 1int } else { 0int }),
    {
        let le = find_line_end(text, cur);
        if le >= n {
            end = n;
            scanning = false;
        } else {
            let next = le + 1;
            let ne = find_line_end(text, next);
            let line = text.substring_char(next, ne);
            if str_contains(line, boundary) {
                end = next;
                scanning = false;
            } else {
                cur = next;
            }
        }
    }
    let kept = text.substring_char(start, end);
    kept.to_owned()
}

/// Relies on `std::backtrace::Backtrace::force_capture`: captures the
/// calling thread's stack unconditionally. The value depends on the call
/// site and the machine, so nothing is stated of it.
#[verifier::external_body]
fn capture() -> std::backtrace::Backtrace {
    std::backtrace::Backtrace::force_capture()
}

/// Relies on the `Display` implementation of `std::backtrace::Backtrace`:
/// renders the captured frames as text, one frame per line. The text
/// depends on the symbols present on the machine, so nothing is stated of
/// it.
#[verifier::external_body]
fn render(bt: &std::backtrace::Backtrace) -> String {
    format!("{}", bt)
}

/// A captured stack of the calling thread, held for rendering and
/// trimming.
pub struct Backtrace {
    inner: std::backtrace::Backtrace,
}

impl Backtrace {
    /// Capture the calling thread's stack.
    pub fn new() -> Self {
        Backtrace { inner: capture() }
    }

    /// Render this capture and strip its scaffolding. The rendered text is
    /// opaque to any contract; `trim_frames` carries the exact statement of
    /// the trimming, for any text.
    pub fn as_string(&self) -> String {
        let text = render(&self.inner);
        trim_frames(text.as_str())
    }
}

} // verus!
