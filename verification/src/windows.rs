//! The text of the fault notice on Windows.
//!
//! The vectored exception handler prints one notice — a fixed line, then
//! the trimmed backtrace — and aborts. The notice is composed and proved
//! here; the handler registration and the abort live outside this library.

use vstd::prelude::*;

verus! {

/// The notice the exception handler prints before aborting.
pub open spec fn spec_exception_notice(trimmed: Seq<char>) -> Seq<char> {
    "Caught exception\n"@ + trimmed
}

/// Compose the exception notice around the trimmed backtrace text.
pub fn exception_notice(trimmed: &str) -> (r: String)
    ensures
        r@ == spec_exception_notice(trimmed@),
{
    let mut s = String::from_str("Caught exception\n");
    s.append(trimmed);
    proof {
        assert(s@ =~= spec_exception_notice(trimmed@));
    }
    s
}

} // verus!
