//! Report layout, backtrace trimming, notices and register values, on
//! concrete inputs.

use batman::backtrace::trim_frames;
use batman::frames::Frame;
use batman::stack::{
    frame_matches_exact, frame_mentions_needle, plan_report, resolve, verbosity_from_env,
    Verbosity,
};
use batman::text::{str_contains, str_eq};
use batman::unix::{decimal_i32, fault_notice, sigabbr, SIGFPE};
use batman::windows::exception_notice;
use batman::x86_64::{unmask_mxcsr, unmask_x87_control_word};

fn named(s: &str) -> Frame {
    Frame { name: Some(String::from(s)) }
}

#[test]
fn verbosity_levels_from_environment() {
    assert_eq!(verbosity_from_env(None), Verbosity::Quiet);
    assert_eq!(verbosity_from_env(Some("full")), Verbosity::Full);
    assert_eq!(verbosity_from_env(Some("1")), Verbosity::Trimmed);
    assert_eq!(verbosity_from_env(Some("")), Verbosity::Trimmed);
    assert_eq!(verbosity_from_env(Some("FULL")), Verbosity::Trimmed);
}

#[test]
fn resolve_applies_predicate_to_name() {
    assert!(resolve(&named("abc"), |n: &str| str_eq(n, "abc")));
    assert!(!resolve(&named("abc"), |n: &str| str_eq(n, "xyz")));
    // A frame without a resolved name passes any predicate.
    assert!(resolve(&Frame { name: None }, |n: &str| str_eq(n, "xyz")));
}

#[test]
fn frame_tests_match_and_mention() {
    assert!(frame_matches_exact(&named("<unknown>"), "<unknown>"));
    assert!(!frame_matches_exact(&named("x <unknown> y"), "<unknown>"));
    assert!(frame_mentions_needle(&named("core __rust_begin_short_backtrace etc"),
        "__rust_begin_short_backtrace"));
    assert!(!frame_mentions_needle(&named("main"), "__rust_begin_short_backtrace"));
}

#[test]
fn quiet_report_is_hint_only() {
    let frames = vec![named("a"), named("b")];
    let r = plan_report(frames, Verbosity::Quiet, "<unknown>");
    assert!(r.hint_only);
    assert!(!r.omitted_note);
    assert!(r.frames.is_empty());
}

#[test]
fn full_report_keeps_every_frame() {
    let frames = vec![named("a"), named("<unknown>"), named("b")];
    let r = plan_report(frames, Verbosity::Full, "<unknown>");
    assert!(!r.hint_only);
    assert!(!r.omitted_note);
    assert_eq!(r.frames.len(), 3);
    assert_eq!(r.frames[0].name, Some(String::from("a")));
    assert_eq!(r.frames[2].name, Some(String::from("b")));
}

#[test]
fn trimmed_report_keeps_frames_between_the_sentinels() {
    let frames = vec![
        named("runtime scaffolding"),
        named("<unknown>"),
        named("divide"),
        named("compute"),
        named("std::sys::__rust_begin_short_backtrace::h12"),
        named("main"),
    ];
    let r = plan_report(frames, Verbosity::Trimmed, "<unknown>");
    assert!(!r.hint_only);
    assert!(r.omitted_note);
    assert_eq!(r.frames.len(), 2);
    assert_eq!(r.frames[0].name, Some(String::from("divide")));
    assert_eq!(r.frames[1].name, Some(String::from("compute")));
}

#[test]
fn trimmed_report_without_entry_sentinel_keeps_everything() {
    // When the entry sentinel never occurs the scan is exhausted and the
    // boundary is not even looked for.
    let frames = vec![named("a"), named("__rust_begin_short_backtrace"), named("b")];
    let r = plan_report(frames, Verbosity::Trimmed, "<unknown>");
    assert_eq!(r.frames.len(), 3);
    assert!(r.omitted_note);
}

#[test]
fn trim_keeps_segment_between_markers() {
    let text = "scaffolding\nat batman::handler\nat compute\nat __rust_begin_short_backtrace\nat main";
    assert_eq!(trim_frames(text), "at batman::handler\nat compute\n");
}

#[test]
fn trim_without_boundary_keeps_to_the_end() {
    let text = "scaffolding\nat batman::handler\nat compute";
    assert_eq!(trim_frames(text), "at batman::handler\nat compute");
}

#[test]
fn trim_without_crate_marker_keeps_everything() {
    let text = "at first\nat second";
    assert_eq!(trim_frames(text), text);
}

#[test]
fn trim_ignores_boundary_on_the_marker_line_itself() {
    let text = "x\nbatman __rust_begin_short_backtrace\nkept\n__rust_begin_short_backtrace\ntail";
    assert_eq!(trim_frames(text), "batman __rust_begin_short_backtrace\nkept\n");
}

#[test]
fn text_search() {
    assert!(str_eq("abc", "abc"));
    assert!(!str_eq("abc", "abd"));
    assert!(!str_eq("abc", "ab"));
    assert!(str_contains("hello world", "lo wo"));
    assert!(str_contains("hello", ""));
    assert!(!str_contains("hello", "world"));
    assert!(!str_contains("ab", "abc"));
}

#[test]
fn signal_names() {
    assert_eq!(sigabbr(SIGFPE), "SIGFPE");
    assert_eq!(sigabbr(1), "SIGHUP");
    assert_eq!(sigabbr(15), "SIGTERM");
    assert_eq!(sigabbr(99), "UNKNOWN");
}

#[test]
fn decimal_rendering() {
    assert_eq!(decimal_i32(0), "0");
    assert_eq!(decimal_i32(8), "8");
    assert_eq!(decimal_i32(230), "230");
    assert_eq!(decimal_i32(-17), "-17");
    assert_eq!(decimal_i32(i32::MIN), "-2147483648");
}

#[test]
fn fault_notice_text() {
    let n = fault_notice(SIGFPE, "Floating point exception", "trace text");
    assert_eq!(n, "Caught signal 8 (SIGFPE): Floating point exception\ntrace text");
}

#[test]
fn exception_notice_text() {
    assert_eq!(exception_notice("trace text"), "Caught exception\ntrace text");
}

#[test]
fn register_values_clear_exactly_the_two_masks() {
    // The power-on x87 control word has every exception masked.
    assert_eq!(unmask_x87_control_word(0x037F), 0x037A);
    // Already-unmasked bits stay unmasked, everything else is kept.
    assert_eq!(unmask_x87_control_word(0x037A), 0x037A);
    // The power-on MXCSR value, all exceptions masked.
    assert_eq!(unmask_mxcsr(0x1F80), 0x1D00);
    assert_eq!(unmask_mxcsr(0x1D00), 0x1D00);
    // Sticky flag bits are left alone.
    assert_eq!(unmask_mxcsr(0x1F85), 0x1D05);
}
