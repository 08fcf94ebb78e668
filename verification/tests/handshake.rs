//! The beacon handshake, the bounded wait and the frame buffer, on
//! concrete values.

use batman::frames::{Frame, FrameBuffer, MAX_FRAMES};
use batman::protocol::{
    next_poll, Beacons, ProtocolViolation, ReporterWake, POLL_RETRY_BUDGET,
};

#[test]
fn guard_admits_exactly_one_thread() {
    let mut b = Beacons::start();
    assert!(b.acquire_handling());
    // A second fault, on any thread, loses and parks forever.
    assert!(!b.acquire_handling());
    assert!(!b.acquire_handling());
}

#[test]
fn publish_is_one_shot() {
    let mut b = Beacons::start();
    assert!(b.acquire_handling());
    assert_eq!(b.publish_frames(), Ok(()));
    assert_eq!(b.publish_frames(), Err(ProtocolViolation::DoublePublish));
}

#[test]
fn reporter_wake_decisions() {
    let mut b = Beacons::start();
    // Spurious wakeup: nothing published yet.
    assert_eq!(b.reporter_wake_step(), ReporterWake::KeepWaiting);
    b.acquire_handling();
    b.publish_frames().unwrap();
    assert_eq!(b.reporter_wake_step(), ReporterWake::Report);
    b.mark_frames_handled();
    // An already-handled episode on a wakeup is a fatal logic error.
    assert_eq!(b.reporter_wake_step(), ReporterWake::Fatal);
}

#[test]
fn bounded_wait_steps() {
    assert_eq!(next_poll(5, false), Some(4));
    assert_eq!(next_poll(5, true), None);
    assert_eq!(next_poll(0, false), None);
    assert_eq!(next_poll(0, true), None);
}

#[test]
fn bounded_wait_ends_within_budget_even_if_reporter_never_finishes() {
    let mut counter = POLL_RETRY_BUDGET;
    let mut sleeps = 0u32;
    while let Some(rest) = next_poll(counter, false) {
        counter = rest;
        sleeps += 1;
        assert!(sleeps <= POLL_RETRY_BUDGET);
    }
    assert_eq!(sleeps, POLL_RETRY_BUDGET);
}

#[test]
fn bounded_wait_stops_early_once_reporter_finishes() {
    let mut counter = POLL_RETRY_BUDGET;
    counter = next_poll(counter, false).unwrap();
    counter = next_poll(counter, false).unwrap();
    assert_eq!(next_poll(counter, true), None);
}

#[test]
fn empty_buffer_drains_to_nothing() {
    let b = FrameBuffer::new();
    assert!(b.drain().is_empty());
}

#[test]
fn buffer_round_trip_keeps_order() {
    let mut b = FrameBuffer::new();
    assert!(b.record(Frame { name: Some(String::from("first")) }));
    assert!(b.record(Frame { name: None }));
    assert!(b.record(Frame { name: Some(String::from("third")) }));
    let frames = b.drain();
    assert_eq!(frames.len(), 3);
    assert_eq!(frames[0].name, Some(String::from("first")));
    assert_eq!(frames[1].name, None);
    assert_eq!(frames[2].name, Some(String::from("third")));
}

#[test]
fn buffer_stops_accepting_at_capacity() {
    let mut b = FrameBuffer::new();
    for i in 0..MAX_FRAMES {
        assert!(b.record(Frame { name: Some(format!("frame {}", i)) }));
    }
    // The capture walk is told to stop once the buffer is full.
    assert!(!b.record(Frame { name: Some(String::from("overflow")) }));
    let frames = b.drain();
    assert_eq!(frames.len(), MAX_FRAMES);
    assert_eq!(frames[0].name, Some(String::from("frame 0")));
    assert_eq!(frames[MAX_FRAMES - 1].name, Some(format!("frame {}", MAX_FRAMES - 1)));
}
