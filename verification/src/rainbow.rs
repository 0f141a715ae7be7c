use vstd::prelude::*;
use vstd::pervasive::VecAdditionalExecFns;
use crate::color::{hue_to_rgb, spec_hue_to_rgb};
use crate::pixel::{Pixel, spec_pixel_off, is_off};

verus! {

/// The rotating rainbow animation. Each tick shifts the wheel sub-range of
/// the strip by one slot, feeds the hue of the current angle into slot 0
/// while running (a dark pixel while stopped), and fades the tail of the
/// strip toward a neutral white plateau while running, toward dark while
/// stopped. It keeps reporting still-running until the whole trail has
/// decayed to dark.
pub struct Rainbow {
    pub angle: i32,
    pub strip_length: i32,
    pub wheel_length: i32,
    pub running: bool,
}

/// One fade step of a visible tail channel: one unit toward the 127 plateau
/// while running, one unit toward dark while stopped.
pub open spec fn tail_channel_step(ch: u8, running: bool) -> u8 {
    if running {
        if ch < 127 {
            (ch + 1) as u8
        } else {
            ch
        }
    } else {
        if ch > 0 {
            (ch - 1) as u8
        } else {
            0
        }
    }
}

/// One fade step of a tail pixel. The reserved channel is left alone while
/// running and driven toward dark while stopped, so a stopped animation can
/// always reach an all-dark strip.
pub open spec fn tail_pixel_step(p: Pixel, running: bool) -> Pixel {
    Pixel {
        r: tail_channel_step(p.r, running),
        g: tail_channel_step(p.g, running),
        b: tail_channel_step(p.b, running),
        w: if running {
            p.w
        } else {
            tail_channel_step(p.w, running)
        },
    }
}

/// State after one tick: the angle advances by one degree, wrapping at 360.
pub open spec fn rainbow_next_state(a: Rainbow) -> Rainbow {
    Rainbow {
        angle: ((a.angle + 1) % 360) as i32,
        strip_length: a.strip_length,
        wheel_length: a.wheel_length,
        running: a.running,
    }
}

/// The pixel written to slot 0 each tick: the hue color of the advanced
/// angle while running, a dark pixel while stopped.
pub open spec fn rainbow_head(a: Rainbow) -> Pixel {
    if a.running {
        let rgb = spec_hue_to_rgb(rainbow_next_state(a).angle as int);
        Pixel { r: rgb.0, g: rgb.1, b: rgb.2, w: 0 }
    } else {
        spec_pixel_off()
    }
}

/// Strip contents after one tick: slot 0 takes the head pixel, the rest of
/// the wheel takes its left neighbour's old value, the tail fades one step,
/// and anything beyond the configured strip length is untouched.
pub open spec fn rainbow_next_strip(a: Rainbow, s: Seq<Pixel>) -> Seq<Pixel> {
    Seq::new(
        s.len(),
        |i: int|
            if i == 0 {
                rainbow_head(a)
            } else if i < a.wheel_length {
                s[i - 1]
            } else if i < a.strip_length {
                tail_pixel_step(s[i], a.running)
            } else {
                s[i]
            },
    )
}

/// The still-running report of one tick: running, or some wheel pixel was
/// still lit before the shift, or some tail pixel is still lit after its
/// fade step.
pub open spec fn rainbow_still(a: Rainbow, s: Seq<Pixel>) -> bool {
    ||| a.running
    ||| exists|i: int| 0 <= i < a.wheel_length && !is_off(s[i])
    ||| exists|i: int|
        a.wheel_length <= i < a.strip_length && !is_off(tail_pixel_step(s[i], a.running))
}

/// One fade step of a tail pixel, as executed.
fn tail_step(p: Pixel, running: bool) -> (q: Pixel)
    ensures
        q == tail_pixel_step(p, running),
{
    if running {
        Pixel {
            r: if p.r < 127 { p.r + 1 } else { p.r },
            g: if p.g < 127 { p.g + 1 } else { p.g },
            b: if p.b < 127 { p.b + 1 } else { p.b },
            w: p.w,
        }
    } else {
        Pixel {
            r: if p.r > 0 { p.r - 1 } else { 0 },
            g: if p.g > 0 { p.g - 1 } else { 0 },
            b: if p.b > 0 { p.b - 1 } else { 0 },
            w: if p.w > 0 { p.w - 1 } else { 0 },
        }
    }
}

impl Rainbow {
    /// Well-formed state: the angle is a reduced degree value and the wheel
    /// is a sub-range of the strip.
    pub open spec fn wf(self) -> bool {
        &&& 0 <= self.angle < 360
        &&& 0 <= self.wheel_length <= self.strip_length
    }

    /// A fresh, not yet started instance for the given strip and wheel.
    pub fn new(strip_length: i32, wheel_length: i32) -> (a: Rainbow)
        ensures
            a == (Rainbow { angle: 0, strip_length, wheel_length, running: false }),
    {
        Rainbow { angle: 0, strip_length, wheel_length, running: false }
    }

    /// Advances the angle, rotates the wheel range by one slot, fades the
    /// tail, and writes the head pixel; reports whether any light remains.
    pub fn next_frame(&mut self, strip: &mut Vec<Pixel>) -> (still: bool)
        requires
            old(self).wf(),
            old(strip)@.len() >= old(self).strip_length as int,
            old(strip)@.len() >= 1,
        ensures
            *final(self) == rainbow_next_state(*old(self)),
            final(self).wf(),
            final(strip)@ == rainbow_next_strip(*old(self), old(strip)@),
            still == rainbow_still(*old(self), old(strip)@),
    {
        let ghost a0 = *old(self);
        self.angle = (self.angle + 1) % 360;
        let mut still = self.running;
        let mut last = Pixel::off();
        let wheel = self.wheel_length as usize;
        let striplen = self.strip_length as usize;
        let mut i: usize = 0;
        while i < wheel
            invariant
                *self == rainbow_next_state(a0),
                a0.wf(),
                wheel == a0.wheel_length as usize,
                striplen == a0.strip_length as usize,
                0 <= i <= wheel,
                strip@.len() == old(strip)@.len(),
                old(strip)@.len() >= striplen as int,
                old(strip)@.len() >= 1,
                forall|j: int|
                    0 <= j < i ==> strip@[j] == (if j == 0 {
                        spec_pixel_off()
                    } else {
                        old(strip)@[j - 1]
                    }),
                forall|j: int| i <= j < strip@.len() ==> strip@[j] == old(strip)@[j],
                last == (if i == 0 {
                    spec_pixel_off()
                } else {
                    old(strip)@[i - 1]
                }),
                still == (a0.running || (exists|j: int|
                    0 <= j < i && !is_off(old(strip)@[j]))),
            decreases wheel - i,
        {
            let cur = strip[i];
            strip.set(i, last);
            last = cur;
            if cur != Pixel::off() {
                still = true;
            }
            i += 1;
        }
        while i < striplen
            invariant
                *self == rainbow_next_state(a0),
                a0.wf(),
                wheel == a0.wheel_length as usize,
                striplen == a0.strip_length as usize,
                wheel <= i <= striplen,
                strip@.len() == old(strip)@.len(),
                old(strip)@.len() >= striplen as int,
                old(strip)@.len() >= 1,
                forall|j: int|
                    0 <= j < wheel ==> strip@[j] == (if j == 0 {
                        spec_pixel_off()
                    } else {
                        old(strip)@[j - 1]
                    }),
                forall|j: int|
                    wheel <= j < i ==> strip@[j] == tail_pixel_step(old(strip)@[j], a0.running),
                forall|j: int| i <= j < strip@.len() ==> strip@[j] == old(strip)@[j],
                still == (a0.running || (exists|j: int|
                    0 <= j < wheel && !is_off(old(strip)@[j])) || (exists|j: int|
                    wheel <= j < i && !is_off(tail_pixel_step(old(strip)@[j], a0.running)))),
            decreases striplen - i,
        {
            let p = strip[i];
            let q = tail_step(p, self.running);
            strip.set(i, q);
            if q != Pixel::off() {
                still = true;
            }
            i += 1;
        }
        if self.running {
            let rgb = hue_to_rgb(self.angle as u16);
            strip.set(0, Pixel::rgb(rgb.0, rgb.1, rgb.2));
        } else {
            strip.set(0, Pixel::off());
        }
        proof {
            assert(final(strip)@ =~= rainbow_next_strip(a0, old(strip)@));
        }
        still
    }

    /// Begins a run: the head starts feeding hue colors into the wheel.
    pub fn start(&mut self)
        ensures
            *final(self) == (Rainbow { running: true, ..*old(self) }),
    {
        self.running = true;
    }

    /// Requests a halt: the head goes dark and the trail decays over the
    /// following ticks.
    pub fn stop(&mut self)
        ensures
            *final(self) == (Rainbow { running: false, ..*old(self) }),
    {
        self.running = false;
    }

    /// True once the animation is winding down (or was never started).
    pub fn stopping(&self) -> (r: bool)
        ensures
            r == !self.running,
    {
        !self.running
    }

    /// Registry name of this animation.
    pub fn name(&self) -> (r: &'static str)
        ensures
            r@ == "rainbow"@,
    {
        "rainbow"
    }

    /// Inter-frame delay in milliseconds.
    pub fn wait_time(&self) -> (r: u64)
        ensures
            r == 20,
    {
        20
    }
}

/// The state after `k` ticks.
pub open spec fn rainbow_iter_state(a: Rainbow, k: nat) -> Rainbow
    decreases k,
{
    if k == 0 {
        a
    } else {
        rainbow_next_state(rainbow_iter_state(a, (k - 1) as nat))
    }
}

/// The strip after `k` ticks.
pub open spec fn rainbow_iter_strip(a: Rainbow, s: Seq<Pixel>, k: nat) -> Seq<Pixel>
    decreases k,
{
    if k == 0 {
        s
    } else {
        rainbow_next_strip(rainbow_iter_state(a, (k - 1) as nat), rainbow_iter_strip(a, s, (k - 1) as nat))
    }
}

/// Ticking changes only the angle: lengths, the running flag and
/// well-formedness are preserved.
pub proof fn lemma_rainbow_iter_state_frame(a: Rainbow, k: nat)
    requires
        a.wf(),
    ensures
        rainbow_iter_state(a, k).wf(),
        rainbow_iter_state(a, k).running == a.running,
        rainbow_iter_state(a, k).strip_length == a.strip_length,
        rainbow_iter_state(a, k).wheel_length == a.wheel_length,
    decreases k,
{
    if k > 0 {
        lemma_rainbow_iter_state_frame(a, (k - 1) as nat);
    }
}

/// A lit pixel at wheel slot `j` travels one slot per tick: after `t` ticks
/// it sits at slot `j + t`, and every one of those ticks reports
/// still-running.
pub proof fn lemma_rainbow_trail_persists(a: Rainbow, s: Seq<Pixel>, j: int, t: nat)
    requires
        a.wf(),
        s.len() >= a.strip_length as int,
        0 <= j < a.wheel_length,
        !is_off(s[j]),
        j + t < a.wheel_length,
    ensures
        rainbow_iter_strip(a, s, t).len() == s.len(),
        rainbow_iter_strip(a, s, t)[j + t] == s[j],
        rainbow_still(rainbow_iter_state(a, t), rainbow_iter_strip(a, s, t)),
    decreases t,
{
    lemma_rainbow_iter_state_frame(a, t);
    if t == 0 {
        assert(!is_off(rainbow_iter_strip(a, s, 0)[j + 0]));
    } else {
        lemma_rainbow_trail_persists(a, s, j, (t - 1) as nat);
        lemma_rainbow_iter_state_frame(a, (t - 1) as nat);
        assert(rainbow_iter_strip(a, s, t) == rainbow_next_strip(
            rainbow_iter_state(a, (t - 1) as nat),
            rainbow_iter_strip(a, s, (t - 1) as nat),
        ));
        assert(rainbow_iter_strip(a, s, t)[j + t] == rainbow_iter_strip(a, s, (t - 1) as nat)[j + t
            - 1]);
        assert(!is_off(rainbow_iter_strip(a, s, t)[j + t]));
    }
}

/// Trail decay, first half: when `stop` arrives while the head slot is
/// still lit, the animation keeps reporting still-running for at least
/// `wheel_length` ticks, while the lit pixel travels the whole wheel.
pub proof fn lemma_rainbow_runs_wheel_length_after_stop(a: Rainbow, s: Seq<Pixel>, t: nat)
    requires
        a.wf(),
        !a.running,
        s.len() >= a.strip_length as int,
        0 < a.wheel_length,
        !is_off(s[0]),
        t < a.wheel_length,
    ensures
        rainbow_still(rainbow_iter_state(a, t), rainbow_iter_strip(a, s, t)),
{
    lemma_rainbow_trail_persists(a, s, 0, t);
}

/// A channel after `t` stopped fade steps: drained toward dark, one unit
/// per tick.
pub open spec fn drained_channel(ch: u8, t: nat) -> u8 {
    if ch <= t {
        0
    } else {
        (ch - t) as u8
    }
}

/// After `stop`, the wheel drains front to back: `t` ticks leave the first
/// `t` wheel slots dark, and slot 0 goes dark on the very first tick.
pub proof fn lemma_rainbow_wheel_drains(a: Rainbow, s: Seq<Pixel>, t: nat)
    requires
        a.wf(),
        !a.running,
        s.len() >= a.strip_length as int,
        s.len() >= 1,
    ensures
        rainbow_iter_strip(a, s, t).len() == s.len(),
        forall|i: int|
            0 <= i < a.wheel_length && i < t ==> is_off(rainbow_iter_strip(a, s, t)[i]),
        t >= 1 ==> is_off(rainbow_iter_strip(a, s, t)[0]),
    decreases t,
{
    if t > 0 {
        lemma_rainbow_wheel_drains(a, s, (t - 1) as nat);
        lemma_rainbow_iter_state_frame(a, (t - 1) as nat);
        assert forall|i: int| 0 <= i < a.wheel_length && i < t implies is_off(
            rainbow_iter_strip(a, s, t)[i],
        ) by {
            if i == 0 {
                assert(rainbow_iter_strip(a, s, t)[0] == rainbow_head(
                    rainbow_iter_state(a, (t - 1) as nat),
                ));
            } else {
                assert(rainbow_iter_strip(a, s, t)[i] == rainbow_iter_strip(
                    a,
                    s,
                    (t - 1) as nat,
                )[i - 1]);
            }
        }
        assert(rainbow_iter_strip(a, s, t)[0] == rainbow_head(
            rainbow_iter_state(a, (t - 1) as nat),
        ));
    }
}

/// After `stop`, every tail slot fades by one unit per tick on every
/// channel.
pub proof fn lemma_rainbow_tail_drains(a: Rainbow, s: Seq<Pixel>, t: nat)
    requires
        a.wf(),
        !a.running,
        s.len() >= a.strip_length as int,
        s.len() >= 1,
    ensures
        rainbow_iter_strip(a, s, t).len() == s.len(),
        forall|i: int|
            a.wheel_length <= i < a.strip_length && i > 0 ==> rainbow_iter_strip(a, s, t)[i]
                == (Pixel {
                r: drained_channel(s[i].r, t),
                g: drained_channel(s[i].g, t),
                b: drained_channel(s[i].b, t),
                w: drained_channel(s[i].w, t),
            }),
    decreases t,
{
    if t > 0 {
        lemma_rainbow_tail_drains(a, s, (t - 1) as nat);
        lemma_rainbow_iter_state_frame(a, (t - 1) as nat);
        assert forall|i: int| a.wheel_length <= i < a.strip_length && i > 0 implies
            rainbow_iter_strip(a, s, t)[i] == (Pixel {
            r: drained_channel(s[i].r, t),
            g: drained_channel(s[i].g, t),
            b: drained_channel(s[i].b, t),
            w: drained_channel(s[i].w, t),
        }) by {
            assert(rainbow_iter_strip(a, s, t)[i] == tail_pixel_step(
                rainbow_iter_strip(a, s, (t - 1) as nat)[i],
                false,
            ));
        }
    }
}

/// Full trail decay: a stopped rainbow is dark and reports completion
/// after `wheel_length` ticks for the wheel and 255 ticks for the tail,
/// whatever the strip held when the stop arrived.
pub proof fn lemma_rainbow_stop_fully_decays(a: Rainbow, s: Seq<Pixel>, t: nat)
    requires
        a.wf(),
        !a.running,
        s.len() >= a.strip_length as int,
        s.len() >= 1,
        t >= a.wheel_length,
        t >= 255,
    ensures
        !rainbow_still(rainbow_iter_state(a, t), rainbow_iter_strip(a, s, t)),
{
    lemma_rainbow_iter_state_frame(a, t);
    lemma_rainbow_wheel_drains(a, s, t);
    lemma_rainbow_tail_drains(a, s, t);
    let st = rainbow_iter_state(a, t);
    let sp = rainbow_iter_strip(a, s, t);
    assert forall|i: int| st.wheel_length <= i < st.strip_length implies is_off(
        tail_pixel_step(sp[i], st.running),
    ) by {
        if i > 0 {
            assert(sp[i] == (Pixel {
                r: drained_channel(s[i].r, t),
                g: drained_channel(s[i].g, t),
                b: drained_channel(s[i].b, t),
                w: drained_channel(s[i].w, t),
            }));
        }
        assert(is_off(sp[i]));
        assert(tail_pixel_step(spec_pixel_off(), false) == spec_pixel_off());
    }
}

/// Trail decay, second half: once every pixel of the observed range is
/// dark, a stopped rainbow reports completion, and one more tick keeps the
/// range dark.
pub proof fn lemma_rainbow_finishes_on_dark_strip(a: Rainbow, s: Seq<Pixel>)
    requires
        a.wf(),
        !a.running,
        s.len() >= a.strip_length as int,
        forall|i: int| 0 <= i < a.strip_length ==> is_off(s[i]),
    ensures
        !rainbow_still(a, s),
        forall|i: int| 0 <= i < a.strip_length ==> is_off(rainbow_next_strip(a, s)[i]),
{
    assert forall|i: int| 0 <= i < a.strip_length implies is_off(rainbow_next_strip(a, s)[i]) by {
        if i == 0 {
            assert(rainbow_next_strip(a, s)[i] == rainbow_head(a));
        } else if i < a.wheel_length {
            assert(is_off(s[i - 1]));
        } else {
            assert(is_off(s[i]));
            assert(tail_pixel_step(spec_pixel_off(), false) == spec_pixel_off());
        }
    }
}

} // verus!
