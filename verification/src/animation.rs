use vstd::prelude::*;
use crate::chase::{Chase, ChasePhase, chase_step};
use crate::off::{Off, off_next_strip, off_still};
use crate::pixel::{Pixel, spec_pixel_off, all_off};
use crate::rainbow::{Rainbow, rainbow_next_state, rainbow_next_strip, rainbow_still, tail_pixel_step};
use crate::static_rainbow::{
    SRainbow, FadePhase, srainbow_next_state, srainbow_next_strip, srainbow_still,
};

verus! {

/// The animation instances the orchestrator can own: a sum type over the
/// four frame state machines, with one dispatch function per capability.
pub enum Animation {
    Off(Off),
    Rainbow(Rainbow),
    SRainbow(SRainbow),
    Chase(Chase),
}

/// One tick of whichever animation is active, as a relation between the
/// state and strip before and after and the reported still-running flag.
pub open spec fn anim_step(
    pre: Animation,
    s: Seq<Pixel>,
    post: Animation,
    s2: Seq<Pixel>,
    ret: bool,
) -> bool {
    match (pre, post) {
        (Animation::Off(a), Animation::Off(b)) => {
            &&& b == a
            &&& s2 == off_next_strip(s)
            &&& ret == off_still(a)
        },
        (Animation::Rainbow(a), Animation::Rainbow(b)) => {
            &&& b == rainbow_next_state(a)
            &&& s2 == rainbow_next_strip(a, s)
            &&& ret == rainbow_still(a, s)
        },
        (Animation::SRainbow(a), Animation::SRainbow(b)) => {
            &&& b == srainbow_next_state(a)
            &&& s2 == srainbow_next_strip(a, s)
            &&& ret == srainbow_still(a)
        },
        (Animation::Chase(a), Animation::Chase(b)) => chase_step(a, s, b, s2, ret),
        _ => false,
    }
}

/// A freshly constructed, never started instance.
pub open spec fn is_initial(a: Animation) -> bool {
    match a {
        Animation::Off(x) => x == (Off { running: false }),
        Animation::Rainbow(x) => x.angle == 0 && !x.running,
        Animation::SRainbow(x) => x.angle == 0 && x.status == FadePhase::FadeIn && x.brightness
            == 0 && !x.running,
        Animation::Chase(x) => x.status == ChasePhase::Off && x.current_index == 0 && !x.running,
    }
}

/// What `start` does, per variant; the chase draws a random color, so the
/// started state is related, not computed.
pub open spec fn spec_started(pre: Animation, post: Animation) -> bool {
    match (pre, post) {
        (Animation::Off(a), Animation::Off(b)) => b == (Off { running: true }),
        (Animation::Rainbow(a), Animation::Rainbow(b)) => b == (Rainbow { running: true, ..a }),
        (Animation::SRainbow(a), Animation::SRainbow(b)) => b == (SRainbow {
            running: true,
            brightness: 0,
            status: FadePhase::FadeIn,
            ..a
        }),
        (Animation::Chase(a), Animation::Chase(b)) => {
            &&& b.status == ChasePhase::BuildUp
            &&& b.running == true
            &&& b.current_index == a.current_index
            &&& b.strip_length == a.strip_length
            &&& b.color.w == 0
        },
        _ => false,
    }
}

/// What `stop` does, per variant.
pub open spec fn spec_stopped(pre: Animation) -> Animation {
    match pre {
        Animation::Off(a) => Animation::Off(Off { running: false }),
        Animation::Rainbow(a) => Animation::Rainbow(Rainbow { running: false, ..a }),
        Animation::SRainbow(a) => Animation::SRainbow(
            SRainbow { status: FadePhase::FadeOut, ..a },
        ),
        Animation::Chase(a) => Animation::Chase(
            Chase { running: false, status: ChasePhase::FadeOut, ..a },
        ),
    }
}

/// The winding-down report, per variant.
pub open spec fn spec_stopping(a: Animation) -> bool {
    match a {
        Animation::Off(x) => !x.running,
        Animation::Rainbow(x) => !x.running,
        Animation::SRainbow(x) => x.status == FadePhase::FadeOut,
        Animation::Chase(x) => !x.running,
    }
}

/// The registry name, per variant.
pub open spec fn spec_name(a: Animation) -> Seq<char> {
    match a {
        Animation::Off(_) => "off"@,
        Animation::Rainbow(_) => "rainbow"@,
        Animation::SRainbow(_) => "srainbow"@,
        Animation::Chase(_) => "chase"@,
    }
}

/// The inter-frame delay, per variant.
pub open spec fn spec_wait(a: Animation) -> u64 {
    match a {
        Animation::Chase(_) => 10,
        _ => 20,
    }
}

impl Animation {
    /// Well-formed instance state.
    pub open spec fn wf(self) -> bool {
        match self {
            Animation::Off(_) => true,
            Animation::Rainbow(a) => a.wf(),
            Animation::SRainbow(a) => a.wf(),
            Animation::Chase(a) => a.wf(),
        }
    }

    /// True when a strip of `len` pixels is large enough for this instance
    /// to render into.
    pub open spec fn fits(self, len: nat) -> bool {
        match self {
            Animation::Off(_) => true,
            Animation::Rainbow(a) => len >= a.strip_length && len >= 1,
            Animation::SRainbow(a) => len >= a.strip_length,
            Animation::Chase(a) => len >= a.strip_length,
        }
    }

    /// Runs one tick of the active animation on the strip; reports whether
    /// it still has frames to render.
    pub fn next_frame(&mut self, strip: &mut Vec<Pixel>) -> (still: bool)
        requires
            old(self).wf(),
            old(self).fits(old(strip)@.len()),
        ensures
            final(self).wf(),
            final(self).fits(old(strip)@.len()),
            final(strip)@.len() == old(strip)@.len(),
            anim_step(*old(self), old(strip)@, *final(self), final(strip)@, still),
    {
        match self {
            Animation::Off(a) => a.next_frame(strip),
            Animation::Rainbow(a) => a.next_frame(strip),
            Animation::SRainbow(a) => a.next_frame(strip),
            Animation::Chase(a) => a.next_frame(strip),
        }
    }

    /// Begins a fresh run of the active animation.
    pub fn start(&mut self)
        ensures
            spec_started(*old(self), *final(self)),
            old(self).wf() ==> final(self).wf(),
            forall|len: nat| old(self).fits(len) ==> final(self).fits(len),
    {
        match self {
            Animation::Off(a) => a.start(),
            Animation::Rainbow(a) => a.start(),
            Animation::SRainbow(a) => a.start(),
            Animation::Chase(a) => a.start(),
        }
    }

    /// Requests a graceful halt; the animation winds down over the
    /// following ticks.
    pub fn stop(&mut self)
        ensures
            *final(self) == spec_stopped(*old(self)),
            old(self).wf() ==> final(self).wf(),
            forall|len: nat| old(self).fits(len) ==> final(self).fits(len),
    {
        match self {
            Animation::Off(a) => a.stop(),
            Animation::Rainbow(a) => a.stop(),
            Animation::SRainbow(a) => a.stop(),
            Animation::Chase(a) => a.stop(),
        }
    }

    /// True once `stop` has been requested (or the instance was never
    /// started).
    pub fn stopping(&self) -> (r: bool)
        ensures
            r == spec_stopping(*self),
    {
        match self {
            Animation::Off(a) => a.stopping(),
            Animation::Rainbow(a) => a.stopping(),
            Animation::SRainbow(a) => a.stopping(),
            Animation::Chase(a) => a.stopping(),
        }
    }

    /// The stable registry name of the active animation.
    pub fn name(&self) -> (r: &'static str)
        ensures
            r@ == spec_name(*self),
    {
        match self {
            Animation::Off(a) => a.name(),
            Animation::Rainbow(a) => a.name(),
            Animation::SRainbow(a) => a.name(),
            Animation::Chase(a) => a.name(),
        }
    }

    /// The inter-frame delay the active animation asks for, in
    /// milliseconds.
    pub fn wait_time(&self) -> (r: u64)
        ensures
            r == spec_wait(*self),
    {
        match self {
            Animation::Off(a) => a.wait_time(),
            Animation::Rainbow(a) => a.wait_time(),
            Animation::SRainbow(a) => a.wait_time(),
            Animation::Chase(a) => a.wait_time(),
        }
    }
}

/// Before any `start`, a tick on a dark strip reports not-running, for
/// every animation variant.
pub proof fn lemma_initial_tick_reports_not_running(
    pre: Animation,
    s: Seq<Pixel>,
    post: Animation,
    s2: Seq<Pixel>,
    ret: bool,
)
    requires
        pre.wf(),
        is_initial(pre),
        all_off(s),
        pre.fits(s.len()),
        anim_step(pre, s, post, s2, ret),
    ensures
        ret == false,
{
    match pre {
        Animation::Rainbow(a) => {
            assert(tail_pixel_step(spec_pixel_off(), false) == spec_pixel_off());
            assert(!rainbow_still(a, s));
        },
        _ => {},
    }
}

} // verus!
