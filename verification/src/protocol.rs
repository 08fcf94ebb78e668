//! The lock-free handshake between the fault handler and the reporter.
//!
//! Three process-wide atomic booleans carry one fault episode: a reentrancy
//! guard that lets exactly one faulting thread proceed, an availability
//! beacon the handler publishes once the frame buffer is fully written, and
//! a completion beacon the reporter publishes once the report is out. Each
//! beacon moves from false to true at most once and is never cleared. The
//! handler then waits a bounded number of sleeps and terminates the process
//! whether or not the reporter ever finished.
//!
//! Every decision of the handshake is a function here; the caller performs
//! the atomic access it stands for and the sleeps in between.

use vstd::prelude::*;

verus! {

/// The values of the three beacons at one instant.
#[derive(Clone, Copy, Debug, PartialEq, Eq, Structural)]
pub struct Beacons {
    /// The reentrancy guard: true once a faulting thread has claimed the
    /// fault episode for itself.
    pub handling: bool,
    /// True once the fault handler has published a fully written frame
    /// buffer.
    pub frames_available: bool,
    /// True once the reporter has drained the buffer and written the
    /// report.
    pub frames_handled: bool,
}

/// A fatal logic error in the handshake: a beacon was already set where the
/// protocol says it cannot be. The detecting party terminates the process
/// at once; no caller remains to receive an error value.
#[derive(Clone, Copy, Debug, PartialEq, Eq, Structural)]
pub enum ProtocolViolation {
    /// The availability beacon had already been published.
    DoublePublish,
    /// The reporter woke to an episode already marked handled.
    AlreadyHandled,
}

/// What the reporter does on a wakeup.
#[derive(Clone, Copy, Debug, PartialEq, Eq, Structural)]
pub enum ReporterWake {
    /// Woken without a published buffer: go back to waiting.
    KeepWaiting,
    /// A published buffer awaits: drain it and write the report.
    Report,
    /// The episode is already marked handled: a fatal logic error.
    Fatal,
}

/// Taking the guard: the guard is set afterwards in every case, and the
/// caller won only if it was clear before.
pub open spec fn spec_acquire(s: Beacons) -> (Beacons, bool) {
    (
        Beacons {
            handling: true,
            frames_available: s.frames_available,
            frames_handled: s.frames_handled,
        },
        !s.handling,
    )
}

/// Publishing the availability beacon: refused as a fatal violation when it
/// is already set, and setting it, touching nothing else, when it is not.
pub open spec fn spec_publish(s: Beacons) -> (Beacons, Result<(), ProtocolViolation>) {
    if s.frames_available {
        (s, Result::Err(ProtocolViolation::DoublePublish))
    } else {
        (
            Beacons {
                handling: s.handling,
                frames_available: true,
                frames_handled: s.frames_handled,
            },
            Result::Ok(()),
        )
    }
}

/// The reporter's wakeup decision: wait on without a published buffer,
/// report on a fresh one, and treat an already-handled episode as fatal.
pub open spec fn spec_reporter_wake(s: Beacons) -> ReporterWake {
    if !s.frames_available {
        ReporterWake::KeepWaiting
    } else if s.frames_handled {
        ReporterWake::Fatal
    } else {
        ReporterWake::Report
    }
}

/// Publishing the completion beacon: sets it and touches nothing else.
pub open spec fn spec_mark_handled(s: Beacons) -> Beacons {
    Beacons { handling: s.handling, frames_available: s.frames_available, frames_handled: true }
}

impl Beacons {
    /// The state at process start: nothing claimed, nothing published.
    pub fn start() -> (s: Self)
        ensures
            s == (Beacons { handling: false, frames_available: false, frames_handled: false }),
    {
        Beacons { handling: false, frames_available: false, frames_handled: false }
    }

    /// The fault handler's first step: try to claim the episode. Stands for
    /// a compare-and-swap of the guard from false to true. A caller that
    /// loses must never return to the code that faulted: it parks forever,
    /// which is acceptable because the winner is already terminating the
    /// process.
    pub fn acquire_handling(&mut self) -> (won: bool)
        ensures
            *final(self) == spec_acquire(*old(self)).0,
            won == spec_acquire(*old(self)).1,
    {
        let won = !self.handling;
        self.handling = true;
        won
    }

    /// The fault handler's publication step, after the last frame write:
    /// stands for a compare-and-swap of the availability beacon from false
    /// to true. An already-set beacon is unreachable for the thread holding
    /// the guard, so it is a fatal violation: the caller terminates at once.
    pub fn publish_frames(&mut self) -> (r: Result<(), ProtocolViolation>)
        ensures
            *final(self) == spec_publish(*old(self)).0,
            r == spec_publish(*old(self)).1,
    {
        if self.frames_available {
            Err(ProtocolViolation::DoublePublish)
        } else {
            self.frames_available = true;
            Ok(())
        }
    }

    /// The reporter's decision on a wakeup.
    pub fn reporter_wake_step(&self) -> (w: ReporterWake)
        ensures
            w == spec_reporter_wake(*self),
    {
        if !self.frames_available {
            ReporterWake::KeepWaiting
        } else if self.frames_handled {
            ReporterWake::Fatal
        } else {
            ReporterWake::Report
        }
    }

    /// The reporter's final step: publish the completion beacon.
    pub fn mark_frames_handled(&mut self)
        ensures
            *final(self) == spec_mark_handled(*old(self)),
    {
        self.frames_handled = true;
    }
}

/// Sleep quantum of the fault handler's bounded wait, in milliseconds.
pub const POLL_SLEEP_MS: u32 = 100;

/// How many sleeps the fault handler grants the reporter before terminating
/// the process regardless: three seconds at the normal quantum, more on a
/// platform whose only sleep primitive is coarser.
pub const POLL_RETRY_BUDGET: u32 = 30;

/// One decision of the bounded wait, `counter` sleeps remaining and
/// `frames_handled` the completion beacon as last read.
pub open spec fn spec_next_poll(counter: u32, frames_handled: bool) -> Option<u32> {
    if !frames_handled && counter > 0 {
        Option::Some((counter - 1) as u32)
    } else {
        Option::None
    }
}

/// One decision of the fault handler's bounded wait. `Some(rest)` says:
/// sleep one quantum, then ask again with `rest`. `None` says: stop waiting
/// and terminate the process now — either the reporter finished or the
/// budget ran out.
pub fn next_poll(counter: u32, frames_handled: bool) -> (r: Option<u32>)
    ensures
        r == spec_next_poll(counter, frames_handled),
{
    if !frames_handled && counter > 0 {
        Some(counter - 1)
    } else {
        None
    }
}

/// The bounded wait always ends: every sleep strictly shrinks the budget,
/// so the handler stops after at most the initial budget of sleeps and the
/// process terminates within the timeout whether or not the reporter ever
/// finishes.
pub proof fn lemma_bounded_wait_terminates(counter: u32, frames_handled: bool)
    ensures
        match spec_next_poll(counter, frames_handled) {
            Option::Some(rest) => rest < counter,
            Option::None => true,
        },
        spec_next_poll(counter, true) is None,
        spec_next_poll(0, frames_handled) is None,
{
}

/// Only one thread ever proceeds past the guard: after any acquisition the
/// guard is held, so every later attempt loses and its thread never returns
/// to user code.
pub proof fn lemma_guard_exclusive(s: Beacons)
    ensures
        !spec_acquire(spec_acquire(s).0).1,
        s.handling ==> !spec_acquire(s).1,
{
}

/// The availability beacon is published at most once per episode: a publish
/// onto a set beacon is refused as fatal, so a second successful publish is
/// impossible.
pub proof fn lemma_publish_one_shot(s: Beacons)
    ensures
        spec_publish(s).1 is Ok ==> spec_publish(spec_publish(s).0).1 is Err,
        s.frames_available ==> spec_publish(s).1 is Err,
{
}

/// No operation of the handshake ever clears a set beacon: progress is
/// monotone, which is what makes the one-shot reading of each beacon sound.
pub proof fn lemma_beacons_monotone(s: Beacons)
    ensures
        s.handling ==> spec_acquire(s).0.handling && spec_publish(s).0.handling
            && spec_mark_handled(s).handling,
        s.frames_available ==> spec_acquire(s).0.frames_available
            && spec_publish(s).0.frames_available && spec_mark_handled(s).frames_available,
        s.frames_handled ==> spec_acquire(s).0.frames_handled && spec_publish(s).0.frames_handled
            && spec_mark_handled(s).frames_handled,
{
}

} // verus!
