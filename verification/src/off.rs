use vstd::prelude::*;
use vstd::pervasive::VecAdditionalExecFns;
use crate::pixel::{Pixel, spec_pixel_off, all_off};

verus! {

/// The "off" animation: while active it blanks the whole strip every tick.
/// It is the universal fallback target of the orchestrator.
pub struct Off {
    pub running: bool,
}

/// Strip contents after one tick of the off animation: every pixel dark.
pub open spec fn off_next_strip(s: Seq<Pixel>) -> Seq<Pixel> {
    Seq::new(s.len(), |i: int| spec_pixel_off())
}

/// The still-running flag one tick of the off animation reports.
pub open spec fn off_still(a: Off) -> bool {
    a.running
}

impl Off {
    /// A fresh, not yet started instance.
    pub fn new() -> (a: Off)
        ensures
            a == (Off { running: false }),
    {
        Off { running: false }
    }

    /// Blanks every pixel of the buffer; the state is untouched and the
    /// report is the running flag, so a single `stop` makes the very next
    /// tick report completion.
    pub fn next_frame(&mut self, strip: &mut Vec<Pixel>) -> (still: bool)
        ensures
            *final(self) == *old(self),
            final(strip)@ == off_next_strip(old(strip)@),
            still == off_still(*old(self)),
    {
        let mut i: usize = 0;
        while i < strip.len()
            invariant
                0 <= i <= strip@.len(),
                strip@.len() == old(strip)@.len(),
                forall|j: int| 0 <= j < i ==> strip@[j] == spec_pixel_off(),
            decreases strip@.len() - i,
        {
            strip.set(i, Pixel::off());
            i += 1;
        }
        proof {
            assert(strip@ =~= off_next_strip(old(strip)@));
        }
        self.running
    }

    /// Begins a run: the next ticks report still-running.
    pub fn start(&mut self)
        ensures
            *final(self) == (Off { running: true }),
    {
        self.running = true;
    }

    /// Requests a halt: the very next tick reports completion.
    pub fn stop(&mut self)
        ensures
            *final(self) == (Off { running: false }),
    {
        self.running = false;
    }

    /// True once the animation is winding down (or was never started).
    pub fn stopping(&self) -> (r: bool)
        ensures
            r == !self.running,
    {
        !self.running
    }

    /// Registry name of this animation.
    pub fn name(&self) -> (r: &'static str)
        ensures
            r@ == "off"@,
    {
        "off"
    }

    /// Inter-frame delay in milliseconds.
    pub fn wait_time(&self) -> (r: u64)
        ensures
            r == 20,
    {
        20
    }
}

/// After `start`, a tick blanks the observed range and reports still-running;
/// after `stop`, the following tick reports completion.
pub proof fn lemma_off_lifecycle(s: Seq<Pixel>)
    ensures
        off_still(Off { running: true }) == true,
        all_off(off_next_strip(s)),
        off_still(Off { running: false }) == false,
{
}

} // verus!
