use vstd::prelude::*;
use vstd::pervasive::VecAdditionalExecFns;
use crate::color::{hue_to_rgb, spec_hue_to_rgb};
use crate::pixel::Pixel;

verus! {

/// Fade phase of the static rainbow.
#[derive(Clone, Copy, PartialEq, Eq, Structural, Debug)]
pub enum FadePhase {
    FadeIn,
    Ongoing,
    FadeOut,
}

/// The static rainbow animation: the whole wheel range shows one hue that
/// slowly cycles, the tail a neutral white, both scaled by a brightness
/// level that fades in from 0 to 127 after `start`, stays there, and fades
/// back to 0 after `stop`.
pub struct SRainbow {
    pub angle: i32,
    pub strip_length: i32,
    pub wheel_length: i32,
    pub status: FadePhase,
    pub brightness: u8,
    pub running: bool,
}

/// A color scaled by `brightness / 127`, as an output pixel with a dark
/// reserved channel.
pub open spec fn spec_brightnessed(color: (u8, u8, u8), brightness: u8) -> Pixel {
    Pixel {
        r: (color.0 * brightness / 127) as u8,
        g: (color.1 * brightness / 127) as u8,
        b: (color.2 * brightness / 127) as u8,
        w: 0,
    }
}

/// State after one tick: the angle advances; a fade-in raises brightness
/// until the cap and then hands over to the ongoing phase; a fade-out
/// lowers it until zero and then clears the running flag.
pub open spec fn srainbow_next_state(a: SRainbow) -> SRainbow {
    let stepped = SRainbow { angle: ((a.angle + 1) % 360) as i32, ..a };
    match a.status {
        FadePhase::FadeIn => {
            if a.brightness < 127 {
                SRainbow { brightness: (a.brightness + 1) as u8, ..stepped }
            } else {
                SRainbow { status: FadePhase::Ongoing, ..stepped }
            }
        },
        FadePhase::Ongoing => stepped,
        FadePhase::FadeOut => {
            if a.brightness > 0 {
                SRainbow { brightness: (a.brightness - 1) as u8, ..stepped }
            } else {
                SRainbow { running: false, ..stepped }
            }
        },
    }
}

/// Strip contents after one tick: the wheel range uniformly holds the hue
/// of the advanced angle, the tail a neutral white, both scaled by the new
/// brightness; anything beyond the configured strip length is untouched.
pub open spec fn srainbow_next_strip(a: SRainbow, s: Seq<Pixel>) -> Seq<Pixel> {
    let n = srainbow_next_state(a);
    Seq::new(
        s.len(),
        |i: int|
            if i < a.wheel_length {
                spec_brightnessed(spec_hue_to_rgb(n.angle as int), n.brightness)
            } else if i < a.strip_length {
                spec_brightnessed((127, 127, 127), n.brightness)
            } else {
                s[i]
            },
    )
}

/// The still-running report of one tick: the running flag after the tick,
/// which a fade-out clears only once brightness has reached zero.
pub open spec fn srainbow_still(a: SRainbow) -> bool {
    srainbow_next_state(a).running
}

/// Scales a color by `brightness / 127`; the one brightness arithmetic of
/// the animation.
pub fn brightnessed(color: (u8, u8, u8), brightness: u8) -> (p: Pixel)
    requires
        brightness <= 127,
    ensures
        p == spec_brightnessed(color, brightness),
{
    proof {
        assert(color.0 * brightness / 127 <= 255) by (nonlinear_arith)
            requires
                color.0 <= 255 && brightness <= 127,
        ;
        assert(color.1 * brightness / 127 <= 255) by (nonlinear_arith)
            requires
                color.1 <= 255 && brightness <= 127,
        ;
        assert(color.2 * brightness / 127 <= 255) by (nonlinear_arith)
            requires
                color.2 <= 255 && brightness <= 127,
        ;
    }
    Pixel {
        r: ((color.0 as u32) * (brightness as u32) / 127) as u8,
        g: ((color.1 as u32) * (brightness as u32) / 127) as u8,
        b: ((color.2 as u32) * (brightness as u32) / 127) as u8,
        w: 0,
    }
}

impl SRainbow {
    /// Well-formed state: reduced angle, the wheel a sub-range of the
    /// strip, brightness within the cap.
    pub open spec fn wf(self) -> bool {
        &&& 0 <= self.angle < 360
        &&& 0 <= self.wheel_length <= self.strip_length
        &&& self.brightness <= 127
    }

    /// A fresh, not yet started instance for the given strip and wheel.
    pub fn new(strip_length: i32, wheel_length: i32) -> (a: SRainbow)
        ensures
            a == (SRainbow {
                angle: 0,
                strip_length,
                wheel_length,
                status: FadePhase::FadeIn,
                brightness: 0,
                running: false,
            }),
    {
        SRainbow {
            angle: 0,
            strip_length,
            wheel_length,
            status: FadePhase::FadeIn,
            brightness: 0,
            running: false,
        }
    }

    /// Advances angle and fade phase, then repaints the strip at the new
    /// brightness; reports the running flag after the tick.
    pub fn next_frame(&mut self, strip: &mut Vec<Pixel>) -> (still: bool)
        requires
            old(self).wf(),
            old(strip)@.len() >= old(self).strip_length as int,
        ensures
            *final(self) == srainbow_next_state(*old(self)),
            final(self).wf(),
            final(strip)@ == srainbow_next_strip(*old(self), old(strip)@),
            still == srainbow_still(*old(self)),
    {
        let ghost a0 = *old(self);
        self.angle = (self.angle + 1) % 360;
        match self.status {
            FadePhase::FadeIn => {
                if self.brightness < 127 {
                    self.brightness = self.brightness + 1;
                } else {
                    self.status = FadePhase::Ongoing;
                }
            },
            FadePhase::FadeOut => {
                if self.brightness > 0 {
                    self.brightness = self.brightness - 1;
                } else {
                    self.running = false;
                }
            },
            FadePhase::Ongoing => {},
        }
        let rgb = hue_to_rgb(self.angle as u16);
        let wheel_pixel = brightnessed(rgb, self.brightness);
        let tail_pixel = brightnessed((127, 127, 127), self.brightness);
        let wheel = self.wheel_length as usize;
        let striplen = self.strip_length as usize;
        let mut i: usize = 0;
        while i < wheel
            invariant
                *self == srainbow_next_state(a0),
                a0.wf(),
                wheel == a0.wheel_length as usize,
                striplen == a0.strip_length as usize,
                0 <= i <= wheel,
                strip@.len() == old(strip)@.len(),
                old(strip)@.len() >= striplen as int,
                wheel_pixel == spec_brightnessed(
                    spec_hue_to_rgb(srainbow_next_state(a0).angle as int),
                    srainbow_next_state(a0).brightness,
                ),
                tail_pixel == spec_brightnessed((127, 127, 127), srainbow_next_state(a0).brightness),
                forall|j: int| 0 <= j < i ==> strip@[j] == wheel_pixel,
                forall|j: int| i <= j < strip@.len() ==> strip@[j] == old(strip)@[j],
            decreases wheel - i,
        {
            strip.set(i, wheel_pixel);
            i += 1;
        }
        while i < striplen
            invariant
                *self == srainbow_next_state(a0),
                a0.wf(),
                wheel == a0.wheel_length as usize,
                striplen == a0.strip_length as usize,
                wheel <= i <= striplen,
                strip@.len() == old(strip)@.len(),
                old(strip)@.len() >= striplen as int,
                wheel_pixel == spec_brightnessed(
                    spec_hue_to_rgb(srainbow_next_state(a0).angle as int),
                    srainbow_next_state(a0).brightness,
                ),
                tail_pixel == spec_brightnessed((127, 127, 127), srainbow_next_state(a0).brightness),
                forall|j: int| 0 <= j < wheel ==> strip@[j] == wheel_pixel,
                forall|j: int| wheel <= j < i ==> strip@[j] == tail_pixel,
                forall|j: int| i <= j < strip@.len() ==> strip@[j] == old(strip)@[j],
            decreases striplen - i,
        {
            strip.set(i, tail_pixel);
            i += 1;
        }
        proof {
            assert(final(strip)@ =~= srainbow_next_strip(a0, old(strip)@));
        }
        self.running
    }

    /// Begins a fresh run: brightness restarts at zero in the fade-in
    /// phase.
    pub fn start(&mut self)
        ensures
            *final(self) == (SRainbow {
                running: true,
                brightness: 0,
                status: FadePhase::FadeIn,
                ..*old(self)
            }),
    {
        self.running = true;
        self.brightness = 0;
        self.status = FadePhase::FadeIn;
    }

    /// Requests a halt: the fade-out phase begins, whatever phase was
    /// active.
    pub fn stop(&mut self)
        ensures
            *final(self) == (SRainbow { status: FadePhase::FadeOut, ..*old(self) }),
    {
        self.status = FadePhase::FadeOut;
    }

    /// True iff the fade-out phase has begun.
    pub fn stopping(&self) -> (r: bool)
        ensures
            r == (self.status == FadePhase::FadeOut),
    {
        matches!(self.status, FadePhase::FadeOut)
    }

    /// Registry name of this animation.
    pub fn name(&self) -> (r: &'static str)
        ensures
            r@ == "srainbow"@,
    {
        "srainbow"
    }

    /// Inter-frame delay in milliseconds.
    pub fn wait_time(&self) -> (r: u64)
        ensures
            r == 20,
    {
        20
    }
}

/// The state after `k` ticks; the strip never feeds back into the state.
pub open spec fn srainbow_iter_state(a: SRainbow, k: nat) -> SRainbow
    decreases k,
{
    if k == 0 {
        a
    } else {
        srainbow_next_state(srainbow_iter_state(a, (k - 1) as nat))
    }
}

/// Fade-in: brightness climbs by exactly one per tick while below the cap,
/// the phase stays fade-in and the running flag is kept.
pub proof fn lemma_srainbow_fade_in(a: SRainbow, k: nat)
    requires
        a.status == FadePhase::FadeIn,
        a.brightness + k <= 127,
    ensures
        srainbow_iter_state(a, k).brightness == a.brightness + k,
        srainbow_iter_state(a, k).status == FadePhase::FadeIn,
        srainbow_iter_state(a, k).running == a.running,
    decreases k,
{
    if k > 0 {
        lemma_srainbow_fade_in(a, (k - 1) as nat);
    }
}

/// At the cap the fade-in hands over to the ongoing phase, which changes
/// neither brightness nor phase nor the running flag, however long it runs.
pub proof fn lemma_srainbow_ongoing_constant(a: SRainbow, k: nat)
    requires
        a.status == FadePhase::Ongoing,
    ensures
        srainbow_iter_state(a, k).brightness == a.brightness,
        srainbow_iter_state(a, k).status == FadePhase::Ongoing,
        srainbow_iter_state(a, k).running == a.running,
    decreases k,
{
    if k > 0 {
        lemma_srainbow_ongoing_constant(a, (k - 1) as nat);
    }
}

/// Fade-out: brightness drops by exactly one per tick while above zero,
/// the phase stays fade-out and the running flag is kept; every one of
/// those ticks still reports running.
pub proof fn lemma_srainbow_fade_out(a: SRainbow, k: nat)
    requires
        a.status == FadePhase::FadeOut,
        k <= a.brightness,
    ensures
        srainbow_iter_state(a, k).brightness == a.brightness - k,
        srainbow_iter_state(a, k).status == FadePhase::FadeOut,
        srainbow_iter_state(a, k).running == a.running,
        k > 0 ==> srainbow_still(srainbow_iter_state(a, (k - 1) as nat)) == a.running,
    decreases k,
{
    if k > 0 {
        lemma_srainbow_fade_out(a, (k - 1) as nat);
    }
}

/// The still-running report equals the running flag on every tick except
/// the fade-out tick that finds brightness already at zero: completion is
/// reported exactly then.
pub proof fn lemma_srainbow_still_tracks_running(a: SRainbow)
    ensures
        srainbow_still(a) == (if a.status == FadePhase::FadeOut && a.brightness == 0 {
            false
        } else {
            a.running
        }),
{
}

/// The tick after brightness has reached zero in a fade-out is the first
/// and only one to report completion: the running flag clears exactly then.
pub proof fn lemma_srainbow_fade_out_terminal(a: SRainbow)
    requires
        a.status == FadePhase::FadeOut,
        a.brightness == 0,
    ensures
        !srainbow_still(a),
        !srainbow_next_state(a).running,
        srainbow_next_state(a).status == FadePhase::FadeOut,
        srainbow_next_state(a).brightness == 0,
{
}

} // verus!
