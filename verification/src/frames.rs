//! The fixed-capacity frame buffer a fault episode hands to the reporter.
//!
//! The buffer is statically shaped: a fixed number of optional slots and an
//! implicit write cursor, never resized and never reallocated, because the
//! fault handler may not allocate. It is written only by the fault handler,
//! before the availability beacon is published, and read only by the
//! reporter, after it observes that beacon; the beacons alone order the two
//! sides. The handler appends frames in capture order and stops at
//! capacity; the reporter drains every written slot, stopping at the first
//! empty one.

use vstd::prelude::*;

verus! {

/// How many frames one fault episode can hand over.
pub const MAX_FRAMES: usize = 200;

/// One captured stack frame, reduced to what the report reads: the resolved
/// symbol name, when symbolication found one.
#[derive(Debug)]
pub struct Frame {
    /// The resolved symbol name; `None` when the frame had none.
    pub name: Option<String>,
}

impl Frame {
    /// A frame equal to this one, built from a fresh copy of its name.
    pub fn duplicate(&self) -> (r: Frame)
        ensures
            r == *self,
    {
        match &self.name {
            Some(n) => Frame { name: Some(n.clone()) },
            None => Frame { name: None },
        }
    }
}

/// The frame buffer: `MAX_FRAMES` optional slots, of which a prefix is
/// written.
pub struct FrameBuffer {
    slots: Vec<Option<Frame>>,
    count: usize,
}

impl FrameBuffer {
    /// The slots, as the reporter would see them.
    pub closed spec fn slots_view(&self) -> Seq<Option<Frame>> {
        self.slots@
    }

    /// How many frames have been written.
    pub closed spec fn count_view(&self) -> nat {
        self.count as nat
    }

    /// Well-formed: the capacity is fixed and the written slots are exactly
    /// the prefix below the cursor.
    pub open spec fn wf(&self) -> bool {
        &&& self.slots_view().len() == MAX_FRAMES
        &&& self.count_view() <= MAX_FRAMES
        &&& forall|i: int| 0 <= i < self.count_view() ==> (#[trigger] self.slots_view()[i]) is Some
        &&& forall|i: int|
            self.count_view() <= i < MAX_FRAMES ==> (#[trigger] self.slots_view()[i]) is None
    }

    /// The frames written so far, in capture order.
    pub open spec fn captured(&self) -> Seq<Frame> {
        Seq::new(self.count_view(), |i: int| self.slots_view()[i]->Some_0)
    }

    /// An empty buffer: every slot unwritten.
    pub fn new() -> (b: Self)
        ensures
            b.wf(),
            b.captured() == Seq::<Frame>::empty(),
    {
        let mut slots: Vec<Option<Frame>> = Vec::new();
        while slots.len() < MAX_FRAMES
            invariant
                slots@.len() <= MAX_FRAMES,
                forall|i: int| 0 <= i < slots@.len() ==> (#[trigger] slots@[i]) is None,
            decreases MAX_FRAMES - slots@.len(),
        {
            slots.push(None);
        }
        let b = FrameBuffer { slots, count: 0 };
        proof {
            assert(b.captured() =~= Seq::<Frame>::empty());
        }
        b
    }

    /// One step of the capture walk: append the frame just unwound, unless
    /// the buffer is full. Returns whether the walk should continue, which
    /// is how the unwinding primitive is told to stop once capacity is
    /// reached.
    pub fn record(&mut self, frame: Frame) -> (accepted: bool)
        requires
            old(self).wf(),
        ensures
            final(self).wf(),
            accepted == (old(self).captured().len() < MAX_FRAMES),
            accepted ==> final(self).captured() == old(self).captured().push(frame),
            !accepted ==> *final(self) == *old(self),
    {
        if self.count >= MAX_FRAMES {
            return false;
        }
        self.slots.set(self.count, Some(frame));
        self.count = self.count + 1;
        proof {
            assert(self.captured() =~= old(self).captured().push(frame));
        }
        true
    }

    /// The reporter's drain: every written frame, in capture order,
    /// gathered by walking the slots and stopping at the first empty one.
    pub fn drain(&self) -> (frames: Vec<Frame>)
        requires
            self.wf(),
        ensures
            frames@ == self.captured(),
    {
        let mut frames: Vec<Frame> = Vec::new();
        let mut i: usize = 0;
        let mut found_empty = false;
        while i < MAX_FRAMES && !found_empty
            invariant
                self.wf(),
                i <= MAX_FRAMES,
                i <= self.count_view(),
                frames@ =~= self.captured().take(i as int),
                found_empty ==> i == self.count_view(),
            decreases MAX_FRAMES - i + (if found_empty { 0int } else { 1int }),
        {
            match &self.slots[i] {
                Some(frame) => {
                    frames.push(frame.duplicate());
                    i = i + 1;
                },
                None => {
                    found_empty = true;
                },
            }
        }
        proof {
            assert(i == self.count_view());
            assert(frames@ =~= self.captured());
        }
        frames
    }
}

} // verus!
