//! The text of the fault notice on POSIX systems.
//!
//! When the fault handler fires it prints one notice — the signal's number,
//! abbreviation and system description, then the trimmed backtrace — and
//! aborts. The system description arrives from the platform as an opaque
//! string; everything else about the notice is composed and proved here.

use vstd::prelude::*;

verus! {

/// The POSIX signal numbers this subsystem can name, as this platform
/// assigns them.
pub const SIGHUP: i32 = 1;

pub const SIGINT: i32 = 2;

pub const SIGQUIT: i32 = 3;

pub const SIGILL: i32 = 4;

pub const SIGABRT: i32 = 6;

pub const SIGFPE: i32 = 8;

pub const SIGSEGV: i32 = 11;

pub const SIGPIPE: i32 = 13;

pub const SIGALRM: i32 = 14;

pub const SIGTERM: i32 = 15;

/// The conventional abbreviation of a signal number; `UNKNOWN` for any
/// number without one.
pub open spec fn spec_sigabbr(signo: i32) -> Seq<char> {
    if signo == SIGHUP {
        "SIGHUP"@
    } else if signo == SIGINT {
        "SIGINT"@
    } else if signo == SIGQUIT {
        "SIGQUIT"@
    } else if signo == SIGILL {
        "SIGILL"@
    } else if signo == SIGABRT {
        "SIGABRT"@
    } else if signo == SIGFPE {
        "SIGFPE"@
    } else if signo == SIGSEGV {
        "SIGSEGV"@
    } else if signo == SIGPIPE {
        "SIGPIPE"@
    } else if signo == SIGALRM {
        "SIGALRM"@
    } else if signo == SIGTERM {
        "SIGTERM"@
    } else {
        "UNKNOWN"@
    }
}

/// The abbreviated name of a signal.
pub fn sigabbr(signo: i32) -> (r: &'static str)
    ensures
        r@ == spec_sigabbr(signo),
{
    if signo == SIGHUP {
        "SIGHUP"
    } else if signo == SIGINT {
        "SIGINT"
    } else if signo == SIGQUIT {
        "SIGQUIT"
    } else if signo == SIGILL {
        "SIGILL"
    } else if signo == SIGABRT {
        "SIGABRT"
    } else if signo == SIGFPE {
        "SIGFPE"
    } else if signo == SIGSEGV {
        "SIGSEGV"
    } else if signo == SIGPIPE {
        "SIGPIPE"
    } else if signo == SIGALRM {
        "SIGALRM"
    } else if signo == SIGTERM {
        "SIGTERM"
    } else {
        "UNKNOWN"
    }
}

/// One decimal digit as text.
pub open spec fn digit_seq(d: nat) -> Seq<char> {
    if d == 0 {
        "0"@
    } else if d == 1 {
        "1"@
    } else if d == 2 {
        "2"@
    } else if d == 3 {
        "3"@
    } else if d == 4 {
        "4"@
    } else if d == 5 {
        "5"@
    } else if d == 6 {
        "6"@
    } else if d == 7 {
        "7"@
    } else if d == 8 {
        "8"@
    } else {
        "9"@
    }
}

/// One decimal digit as an executable string.
fn digit_str(d: u32) -> (r: &'static str)
    requires
        d < 10,
    ensures
        r@ == digit_seq(d as nat),
{
    if d == 0 {
        "0"
    } else if d == 1 {
        "1"
    } else if d == 2 {
        "2"
    } else if d == 3 {
        "3"
    } else if d == 4 {
        "4"
    } else if d == 5 {
        "5"
    } else if d == 6 {
        "6"
    } else if d == 7 {
        "7"
    } else if d == 8 {
        "8"
    } else {
        "9"
    }
}

/// The decimal digits of a nonnegative number, most significant first.
pub open spec fn spec_decimal_digits(n: nat) -> Seq<char>
    decreases n,
{
    if n < 10 {
        digit_seq(n)
    } else {
        spec_decimal_digits(n / 10) + digit_seq(n % 10)
    }
}

/// The decimal text of a number, with a leading minus sign when negative.
pub open spec fn spec_decimal_i32(v: i32) -> Seq<char> {
    if v < 0 {
        "-"@ + spec_decimal_digits((-v) as nat)
    } else {
        spec_decimal_digits(v as nat)
    }
}

/// Render a number in decimal.
fn decimal_u32(n: u32) -> (r: String)
    ensures
        r@ == spec_decimal_digits(n as nat),
    decreases n,
{
    if n < 10 {
        let mut s = String::new();
        s.append(digit_str(n));
        proof {
            assert(s@ =~= spec_decimal_digits(n as nat));
        }
        s
    } else {
        let mut s = decimal_u32(n / 10);
        s.append(digit_str(n % 10));
        proof {
            assert(s@ =~= spec_decimal_digits(n as nat));
        }
        s
    }
}

/// Render a signal number in decimal, sign included.
pub fn decimal_i32(v: i32) -> (r: String)
    ensures
        r@ == spec_decimal_i32(v),
{
    if v < 0 {
        let mag: u32 = (-(v as i64)) as u32;
        let mut s = String::from_str("-");
        let digits = decimal_u32(mag);
        s.append(digits.as_str());
        proof {
            assert(s@ =~= spec_decimal_i32(v));
        }
        s
    } else {
        decimal_u32(v as u32)
    }
}

/// The notice the fault handler prints before aborting: the signal's
/// number, abbreviation and system description, then the trimmed
/// backtrace.
pub open spec fn spec_fault_notice(signo: i32, desc: Seq<char>, trimmed: Seq<char>) -> Seq<char> {
    "Caught signal "@ + spec_decimal_i32(signo) + " ("@ + spec_sigabbr(signo) + "): "@ + desc
        + "\n"@ + trimmed
}

/// Compose the fault notice. `desc` is the system's description of the
/// signal, as handed over by the platform; `trimmed` is the trimmed
/// backtrace text.
pub fn fault_notice(signo: i32, desc: &str, trimmed: &str) -> (r: String)
    ensures
        r@ == spec_fault_notice(signo, desc@, trimmed@),
{
    let mut s = String::from_str("Caught signal ");
    let number = decimal_i32(signo);
    s.append(number.as_str());
    s.append(" (");
    s.append(sigabbr(signo));
    s.append("): ");
    s.append(desc);
    s.append("\n");
    s.append(trimmed);
    proof {
        assert(s@ =~= spec_fault_notice(signo, desc@, trimmed@));
    }
    s
}

} // verus!
